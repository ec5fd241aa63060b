//! Paying out: a winner's claim on a resolved market, and a bettor's refund
//! from a cancelled one. Each record pays once.

use vstd::prelude::*;
use crate::accounts::{ClaimWinnings, RefundStake};
use crate::custody::{vault_seeds, vault_signer_seeds, Withdrawal};
use crate::error::PredictDuelError;
use crate::market::{Market, MarketStatus};
use crate::participant::Participant;
use crate::payout::{compute_payout, payout_share};

verus! {

/// What a claim by `record` on `market` pays: the record's share of the
/// whole pool, in proportion to the pool of the side that `record` predicted.
pub open spec fn winnings(market: Market, record: Participant) -> nat {
    payout_share(
        record.stake as nat,
        market.pool_size as nat,
        market.side_pool(record.prediction) as nat,
    )
}

/// Why a claim is rejected, if it is. The checks are made in this order,
/// and the first that fails decides.
pub open spec fn claim_rejection(
    market: Market,
    slot: Option<Participant>,
    vault_balance: nat,
) -> Option<PredictDuelError> {
    match slot {
        None => Some(PredictDuelError::ParticipantNotFound),
        Some(record) => {
            if market.status != MarketStatus::Resolved {
                Some(PredictDuelError::MarketNotResolved)
            } else if record.claimed {
                Some(PredictDuelError::AlreadyClaimed)
            } else if market.outcome is None {
                Some(PredictDuelError::NoOutcome)
            } else if market.outcome != Some(record.prediction) {
                Some(PredictDuelError::NotAWinner)
            } else if market.side_pool(record.prediction) == 0 {
                Some(PredictDuelError::ArithmeticFailure)
            } else if winnings(market, record) > u64::MAX || winnings(market, record) == 0 {
                Some(PredictDuelError::ArithmeticFailure)
            } else if vault_balance < winnings(market, record) {
                Some(PredictDuelError::InsufficientEscrow)
            } else {
                None
            }
        },
    }
}

/// The record after its payout or refund was taken.
pub open spec fn settled(record: Participant) -> Participant {
    Participant { claimed: true, ..record }
}

/// Claims the winnings of the participant in `ctx` from a resolved market.
///
/// On success the record is marked as claimed and the result orders the
/// payout from escrow; the market itself is not touched.
pub fn claim_winnings(ctx: &mut ClaimWinnings) -> (r: Result<Withdrawal, PredictDuelError>)
    ensures
        match r {
            Ok(order) => {
                &&& claim_rejection(
                    old(ctx).market,
                    old(ctx).participant,
                    old(ctx).vault_balance as nat,
                ) is None
                &&& order.recipient == old(ctx).participant->0.bettor
                &&& order.amount == winnings(old(ctx).market, old(ctx).participant->0)
                &&& order.signer_seeds.deep_view() == vault_seeds(
                    old(ctx).market.creator,
                    old(ctx).market.market_index,
                    old(ctx).vault_bump,
                )
                &&& *final(ctx) == (ClaimWinnings {
                    participant: Some(settled(old(ctx).participant->0)),
                    ..*old(ctx)
                })
            },
            Err(e) => {
                &&& claim_rejection(
                    old(ctx).market,
                    old(ctx).participant,
                    old(ctx).vault_balance as nat,
                ) == Some(e)
                &&& *final(ctx) == *old(ctx)
            },
        },
        r matches Ok(order) ==> 0 < order.amount <= old(ctx).vault_balance,
        old(ctx).participant matches Some(record) && record.claimed && old(ctx).market.status
            == MarketStatus::Resolved ==> r == Err::<Withdrawal, _>(
            PredictDuelError::AlreadyClaimed,
        ),
{
    let record = match ctx.participant {
        Some(record) => record,
        None => {
            return Err(PredictDuelError::ParticipantNotFound);
        },
    };
    if ctx.market.status != MarketStatus::Resolved {
        return Err(PredictDuelError::MarketNotResolved);
    }
    if record.claimed {
        return Err(PredictDuelError::AlreadyClaimed);
    }
    let outcome = match ctx.market.outcome {
        Some(outcome) => outcome,
        None => {
            return Err(PredictDuelError::NoOutcome);
        },
    };
    if record.prediction != outcome {
        return Err(PredictDuelError::NotAWinner);
    }
    let winning_pool = if outcome {
        ctx.market.yes_pool
    } else {
        ctx.market.no_pool
    };
    if winning_pool == 0 {
        return Err(PredictDuelError::ArithmeticFailure);
    }
    let payout = match compute_payout(record.stake, ctx.market.pool_size, winning_pool) {
        Some(payout) => payout,
        None => {
            return Err(PredictDuelError::ArithmeticFailure);
        },
    };
    if payout == 0 {
        return Err(PredictDuelError::ArithmeticFailure);
    }
    if ctx.vault_balance < payout {
        return Err(PredictDuelError::InsufficientEscrow);
    }
    let signer_seeds = vault_signer_seeds(
        &ctx.market.creator,
        ctx.market.market_index,
        ctx.vault_bump,
    );
    ctx.participant = Some(
        Participant {
            market: record.market,
            bettor: record.bettor,
            prediction: record.prediction,
            stake: record.stake,
            claimed: true,
            bump: record.bump,
        },
    );
    Ok(Withdrawal { recipient: record.bettor, amount: payout, signer_seeds })
}

/// Why a refund is rejected, if it is.
pub open spec fn refund_rejection(market: Market, slot: Option<Participant>) -> Option<
    PredictDuelError,
> {
    match slot {
        None => Some(PredictDuelError::ParticipantNotFound),
        Some(record) => {
            if market.status != MarketStatus::Cancelled {
                Some(PredictDuelError::MarketNotCancelled)
            } else if record.claimed {
                Some(PredictDuelError::AlreadyClaimed)
            } else {
                None
            }
        },
    }
}

/// Refunds the stake of the participant in `ctx` from a cancelled market.
///
/// On success the record is marked as claimed and the result orders the
/// whole stake back from escrow; the market itself is not touched.
pub fn refund_stake(ctx: &mut RefundStake) -> (r: Result<Withdrawal, PredictDuelError>)
    ensures
        match r {
            Ok(order) => {
                &&& refund_rejection(old(ctx).market, old(ctx).participant) is None
                &&& order.recipient == old(ctx).participant->0.bettor
                &&& order.amount == old(ctx).participant->0.stake
                &&& order.signer_seeds.deep_view() == vault_seeds(
                    old(ctx).market.creator,
                    old(ctx).market.market_index,
                    old(ctx).vault_bump,
                )
                &&& *final(ctx) == (RefundStake {
                    participant: Some(settled(old(ctx).participant->0)),
                    ..*old(ctx)
                })
            },
            Err(e) => {
                &&& refund_rejection(old(ctx).market, old(ctx).participant) == Some(e)
                &&& *final(ctx) == *old(ctx)
            },
        },
{
    let record = match ctx.participant {
        Some(record) => record,
        None => {
            return Err(PredictDuelError::ParticipantNotFound);
        },
    };
    if ctx.market.status != MarketStatus::Cancelled {
        return Err(PredictDuelError::MarketNotCancelled);
    }
    if record.claimed {
        return Err(PredictDuelError::AlreadyClaimed);
    }
    let signer_seeds = vault_signer_seeds(
        &ctx.market.creator,
        ctx.market.market_index,
        ctx.vault_bump,
    );
    ctx.participant = Some(
        Participant {
            market: record.market,
            bettor: record.bettor,
            prediction: record.prediction,
            stake: record.stake,
            claimed: true,
            bump: record.bump,
        },
    );
    Ok(Withdrawal { recipient: record.bettor, amount: record.stake, signer_seeds })
}

} // verus!
