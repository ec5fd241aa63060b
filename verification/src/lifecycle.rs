//! The lifecycle of a market: creation, resolution and cancellation.

use vstd::prelude::*;
use crate::accounts::{CancelMarket, CreateMarket, ResolveMarket};
use crate::error::PredictDuelError;
use crate::identity::Identity;
use crate::market::{
    question_len, Market, MarketCategory, MarketStatus, MarketType, MAX_QUESTION_LEN, MIN_STAKE,
};

verus! {

/// Why a creation is rejected, if it is. The checks are made in this order,
/// and the first that fails decides.
pub open spec fn creation_rejection(
    question: Seq<char>,
    stake_amount: u64,
    deadline: i64,
    now: i64,
) -> Option<PredictDuelError> {
    if question_len(question) > MAX_QUESTION_LEN {
        Some(PredictDuelError::QuestionTooLong)
    } else if stake_amount < MIN_STAKE {
        Some(PredictDuelError::StakeTooLow)
    } else if deadline <= now {
        Some(PredictDuelError::InvalidDeadline)
    } else {
        None
    }
}

/// A market as it stands right after its creation at time `now`: pending,
/// with nothing staked, nobody taking part and no outcome.
pub open spec fn new_market(
    creator: Identity,
    market_index: u64,
    question: String,
    category: MarketCategory,
    stake_amount: u64,
    deadline: i64,
    market_type: MarketType,
    now: i64,
    bump: u8,
    vault_bump: u8,
) -> Market {
    Market {
        creator,
        market_index,
        question,
        category,
        stake_amount,
        deadline,
        market_type,
        status: MarketStatus::Pending,
        pool_size: 0,
        yes_count: 0,
        no_count: 0,
        yes_pool: 0,
        no_pool: 0,
        total_participants: 0,
        outcome: None,
        created_at: now,
        bump,
        vault_bump,
    }
}

/// Creates a market at time `now` for the creator in `ctx`.
///
/// On success the market record in `ctx` is the new market, whatever it
/// held before.
pub fn create_market(
    ctx: &mut CreateMarket,
    now: i64,
    market_index: u64,
    question: String,
    category: MarketCategory,
    stake_amount: u64,
    deadline: i64,
    market_type: MarketType,
) -> (r: Result<(), PredictDuelError>)
    ensures
        match r {
            Ok(()) => {
                &&& creation_rejection(question@, stake_amount, deadline, now) is None
                &&& *final(ctx) == (CreateMarket {
                    market: new_market(
                        old(ctx).creator,
                        market_index,
                        question,
                        category,
                        stake_amount,
                        deadline,
                        market_type,
                        now,
                        old(ctx).market_bump,
                        old(ctx).vault_bump,
                    ),
                    ..*old(ctx)
                })
            },
            Err(e) => {
                &&& creation_rejection(question@, stake_amount, deadline, now) == Some(e)
                &&& *final(ctx) == *old(ctx)
            },
        },
        r is Ok ==> {
            &&& final(ctx).market.status == MarketStatus::Pending
            &&& final(ctx).market.pool_size == 0
            &&& final(ctx).market.outcome is None
            &&& final(ctx).market.untouched()
            &&& final(ctx).market.consistent()
        },
{
    if question.as_str().as_bytes().len() > MAX_QUESTION_LEN {
        return Err(PredictDuelError::QuestionTooLong);
    }
    if stake_amount < MIN_STAKE {
        return Err(PredictDuelError::StakeTooLow);
    }
    if deadline <= now {
        return Err(PredictDuelError::InvalidDeadline);
    }
    ctx.market = Market {
        creator: ctx.creator,
        market_index,
        question,
        category,
        stake_amount,
        deadline,
        market_type,
        status: MarketStatus::Pending,
        pool_size: 0,
        yes_count: 0,
        no_count: 0,
        yes_pool: 0,
        no_pool: 0,
        total_participants: 0,
        outcome: None,
        created_at: now,
        bump: ctx.market_bump,
        vault_bump: ctx.vault_bump,
    };
    Ok(())
}

/// Why a resolution is rejected, if it is. The checks are made in this
/// order, and the first that fails decides.
pub open spec fn resolution_rejection(market: Market, resolver: Identity, now: i64) -> Option<
    PredictDuelError,
> {
    if resolver != market.creator {
        Some(PredictDuelError::UnauthorizedResolver)
    } else if market.status != MarketStatus::Active {
        Some(PredictDuelError::MarketNotActive)
    } else if now < market.deadline {
        Some(PredictDuelError::MarketNotExpired)
    } else {
        None
    }
}

/// The market after its resolution with `outcome`.
pub open spec fn resolved(market: Market, outcome: bool) -> Market {
    Market { status: MarketStatus::Resolved, outcome: Some(outcome), ..market }
}

/// Resolves the market in `ctx` with `outcome` at time `now`.
///
/// Only the creator may resolve, only an active market, and only once the
/// deadline has been reached. This is the one place where an outcome is
/// written.
pub fn resolve_market(ctx: &mut ResolveMarket, now: i64, outcome: bool) -> (r: Result<
    (),
    PredictDuelError,
>)
    ensures
        match r {
            Ok(()) => {
                &&& resolution_rejection(old(ctx).market, old(ctx).resolver, now) is None
                &&& *final(ctx) == (ResolveMarket {
                    market: resolved(old(ctx).market, outcome),
                    ..*old(ctx)
                })
            },
            Err(e) => {
                &&& resolution_rejection(old(ctx).market, old(ctx).resolver, now) == Some(e)
                &&& *final(ctx) == *old(ctx)
            },
        },
        r is Ok ==> {
            &&& old(ctx).market.status == MarketStatus::Active
            &&& now >= old(ctx).market.deadline
            &&& final(ctx).market.status == MarketStatus::Resolved
            &&& final(ctx).market.outcome == Some(outcome)
        },
        old(ctx).market.balanced() ==> final(ctx).market.balanced(),
        old(ctx).market.consistent() ==> final(ctx).market.consistent(),
{
    if ctx.resolver != ctx.market.creator {
        return Err(PredictDuelError::UnauthorizedResolver);
    }
    if ctx.market.status != MarketStatus::Active {
        return Err(PredictDuelError::MarketNotActive);
    }
    if now < ctx.market.deadline {
        return Err(PredictDuelError::MarketNotExpired);
    }
    ctx.market.status = MarketStatus::Resolved;
    ctx.market.outcome = Some(outcome);
    Ok(())
}

/// Why a cancellation is rejected, if it is. The checks are made in this
/// order, and the first that fails decides.
pub open spec fn cancellation_rejection(market: Market, creator: Identity) -> Option<
    PredictDuelError,
> {
    if creator != market.creator {
        Some(PredictDuelError::UnauthorizedResolver)
    } else if market.status != MarketStatus::Pending {
        Some(PredictDuelError::CannotCancel)
    } else if market.total_participants != 0 {
        Some(PredictDuelError::CannotCancel)
    } else {
        None
    }
}

/// The market after its cancellation.
pub open spec fn cancelled(market: Market) -> Market {
    Market { status: MarketStatus::Cancelled, ..market }
}

/// Cancels the market in `ctx`.
///
/// Only the creator may cancel, and only a pending market in which nobody
/// takes part.
pub fn cancel_market(ctx: &mut CancelMarket) -> (r: Result<(), PredictDuelError>)
    ensures
        match r {
            Ok(()) => {
                &&& cancellation_rejection(old(ctx).market, old(ctx).creator) is None
                &&& *final(ctx) == (CancelMarket {
                    market: cancelled(old(ctx).market),
                    ..*old(ctx)
                })
            },
            Err(e) => {
                &&& cancellation_rejection(old(ctx).market, old(ctx).creator) == Some(e)
                &&& *final(ctx) == *old(ctx)
            },
        },
        r is Ok ==> {
            &&& old(ctx).market.status == MarketStatus::Pending
            &&& old(ctx).market.total_participants == 0
            &&& final(ctx).market.status == MarketStatus::Cancelled
        },
        old(ctx).market.balanced() ==> final(ctx).market.balanced(),
        old(ctx).market.consistent() ==> final(ctx).market.consistent(),
{
    if ctx.creator != ctx.market.creator {
        return Err(PredictDuelError::UnauthorizedResolver);
    }
    if ctx.market.status != MarketStatus::Pending {
        return Err(PredictDuelError::CannotCancel);
    }
    if ctx.market.total_participants != 0 {
        return Err(PredictDuelError::CannotCancel);
    }
    ctx.market.status = MarketStatus::Cancelled;
    Ok(())
}

} // verus!
