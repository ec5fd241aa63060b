//! Staking: a bettor commits value to one side of an open market.

use vstd::prelude::*;
use crate::accounts::PlaceBet;
use crate::custody::Deposit;
use crate::error::PredictDuelError;
use crate::identity::Identity;
use crate::market::{Market, MarketStatus, MIN_STAKE};
use crate::participant::Participant;

verus! {

/// The side a stake goes to. A bettor's first stake fixes the side; every
/// later stake by the same bettor goes to that side, whatever the call names.
pub open spec fn staking_side(slot: Option<Participant>, prediction: bool) -> bool {
    match slot {
        Some(record) => record.prediction,
        None => prediction,
    }
}

/// Every total that the stake raises stays within its integer range.
pub open spec fn stake_fits(
    market: Market,
    slot: Option<Participant>,
    side: bool,
    amount: u64,
) -> bool {
    &&& market.pool_size + amount <= u64::MAX
    &&& market.side_pool(side) + amount <= u64::MAX
    &&& market.side_count(side) + 1 <= u32::MAX
    &&& match slot {
        Some(record) => record.stake + amount <= u64::MAX,
        None => market.total_participants + 1 <= u32::MAX,
    }
}

/// Why a stake is rejected, if it is. The checks are made in this order,
/// and the first that fails decides.
pub open spec fn bet_rejection(
    market: Market,
    slot: Option<Participant>,
    now: i64,
    prediction: bool,
    amount: u64,
) -> Option<PredictDuelError> {
    if !market.status.is_open() {
        Some(PredictDuelError::MarketNotActive)
    } else if now >= market.deadline {
        Some(PredictDuelError::MarketExpired)
    } else if amount < MIN_STAKE {
        Some(PredictDuelError::StakeTooLow)
    } else if !stake_fits(market, slot, staking_side(slot, prediction), amount) {
        Some(PredictDuelError::ArithmeticFailure)
    } else {
        None
    }
}

/// The market after an accepted stake of `amount` on `side`: the pool and
/// the side's pool grow by the amount, the side counts one more stake, a
/// first stake counts one more participant, and the market is active.
pub open spec fn market_after_bet(
    market: Market,
    first_stake: bool,
    side: bool,
    amount: u64,
) -> Market {
    Market {
        status: MarketStatus::Active,
        pool_size: (market.pool_size + amount) as u64,
        yes_count: if side {
            (market.yes_count + 1) as u32
        } else {
            market.yes_count
        },
        no_count: if side {
            market.no_count
        } else {
            (market.no_count + 1) as u32
        },
        yes_pool: if side {
            (market.yes_pool + amount) as u64
        } else {
            market.yes_pool
        },
        no_pool: if side {
            market.no_pool
        } else {
            (market.no_pool + amount) as u64
        },
        total_participants: if first_stake {
            (market.total_participants + 1) as u32
        } else {
            market.total_participants
        },
        ..market
    }
}

/// The bettor's record after an accepted stake: a new record on the first
/// stake, the old one with a larger stake afterwards.
pub open spec fn participant_after_bet(
    slot: Option<Participant>,
    market_key: Identity,
    bettor: Identity,
    prediction: bool,
    amount: u64,
    bump: u8,
) -> Participant {
    match slot {
        Some(record) => Participant { stake: (record.stake + amount) as u64, ..record },
        None => Participant {
            market: market_key,
            bettor,
            prediction,
            stake: amount,
            claimed: false,
            bump,
        },
    }
}

/// Places a stake of `stake_amount` for the bettor in `ctx` at time `now`.
///
/// On success the market and the bettor's record in `ctx` hold the stake,
/// and the result orders the transfer of the stake from the bettor into
/// escrow: the records may be stored only once that transfer has succeeded.
pub fn place_bet(ctx: &mut PlaceBet, now: i64, prediction: bool, stake_amount: u64) -> (r: Result<
    Deposit,
    PredictDuelError,
>)
    ensures
        match r {
            Ok(order) => {
                &&& order == (Deposit { payer: old(ctx).bettor, amount: stake_amount })
                &&& bet_rejection(
                    old(ctx).market,
                    old(ctx).participant,
                    now,
                    prediction,
                    stake_amount,
                ) is None
                &&& *final(ctx) == (PlaceBet {
                    market: market_after_bet(
                        old(ctx).market,
                        old(ctx).participant is None,
                        staking_side(old(ctx).participant, prediction),
                        stake_amount,
                    ),
                    participant: Some(
                        participant_after_bet(
                            old(ctx).participant,
                            old(ctx).market_key,
                            old(ctx).bettor,
                            prediction,
                            stake_amount,
                            old(ctx).participant_bump,
                        ),
                    ),
                    ..*old(ctx)
                })
            },
            Err(e) => {
                &&& bet_rejection(
                    old(ctx).market,
                    old(ctx).participant,
                    now,
                    prediction,
                    stake_amount,
                ) == Some(e)
                &&& *final(ctx) == *old(ctx)
            },
        },
        r is Ok ==> final(ctx).market.status == MarketStatus::Active,
        old(ctx).market.balanced() ==> final(ctx).market.balanced(),
        old(ctx).market.consistent() ==> final(ctx).market.consistent(),
{
    if !(ctx.market.status == MarketStatus::Pending || ctx.market.status == MarketStatus::Active) {
        return Err(PredictDuelError::MarketNotActive);
    }
    if now >= ctx.market.deadline {
        return Err(PredictDuelError::MarketExpired);
    }
    if stake_amount < MIN_STAKE {
        return Err(PredictDuelError::StakeTooLow);
    }
    let side = match ctx.participant {
        Some(record) => record.prediction,
        None => prediction,
    };
    let side_pool = if side {
        ctx.market.yes_pool
    } else {
        ctx.market.no_pool
    };
    let side_count = if side {
        ctx.market.yes_count
    } else {
        ctx.market.no_count
    };
    let pool_size = match ctx.market.pool_size.checked_add(stake_amount) {
        Some(total) => total,
        None => {
            return Err(PredictDuelError::ArithmeticFailure);
        },
    };
    let side_pool = match side_pool.checked_add(stake_amount) {
        Some(total) => total,
        None => {
            return Err(PredictDuelError::ArithmeticFailure);
        },
    };
    let side_count = match side_count.checked_add(1) {
        Some(total) => total,
        None => {
            return Err(PredictDuelError::ArithmeticFailure);
        },
    };
    let record = match ctx.participant {
        Some(record) => {
            let stake = match record.stake.checked_add(stake_amount) {
                Some(total) => total,
                None => {
                    return Err(PredictDuelError::ArithmeticFailure);
                },
            };
            Participant {
                market: record.market,
                bettor: record.bettor,
                prediction: record.prediction,
                stake,
                claimed: record.claimed,
                bump: record.bump,
            }
        },
        None => {
            let participants = match ctx.market.total_participants.checked_add(1) {
                Some(total) => total,
                None => {
                    return Err(PredictDuelError::ArithmeticFailure);
                },
            };
            ctx.market.total_participants = participants;
            Participant {
                market: ctx.market_key,
                bettor: ctx.bettor,
                prediction,
                stake: stake_amount,
                claimed: false,
                bump: ctx.participant_bump,
            }
        },
    };
    ctx.participant = Some(record);
    ctx.market.pool_size = pool_size;
    if side {
        ctx.market.yes_count = side_count;
        ctx.market.yes_pool = side_pool;
    } else {
        ctx.market.no_count = side_count;
        ctx.market.no_pool = side_pool;
    }
    ctx.market.status = MarketStatus::Active;
    Ok(Deposit { payer: ctx.bettor, amount: stake_amount })
}

} // verus!
