//! The market record: one question, its pools and its lifecycle state.

use vstd::prelude::*;
use crate::identity::Identity;

verus! {

/// The smallest stake the engine accepts, and the smallest advisory stake a
/// market may be created with.
pub const MIN_STAKE: u64 = 10_000_000;

/// The longest question, in bytes, that a market record can hold.
pub const MAX_QUESTION_LEN: usize = 200;

/// Subject area of a market.
#[derive(Clone, Copy, Debug, PartialEq, Eq, Structural)]
pub enum MarketCategory {
    Crypto,
    Weather,
    Sports,
    Meme,
    Local,
    Other,
}

/// Whether a market is open to everyone or a challenge between parties.
#[derive(Clone, Copy, Debug, PartialEq, Eq, Structural)]
pub enum MarketType {
    Public,
    Challenge,
}

/// Lifecycle state of a market.
///
/// `Pending` becomes `Active` with the first stake; `Active` becomes
/// `Resolved`; `Pending` may instead become `Cancelled`.
#[derive(Clone, Copy, Debug, PartialEq, Eq, Structural)]
pub enum MarketStatus {
    Pending,
    Active,
    Resolved,
    Cancelled,
}

impl MarketStatus {
    /// No operation leaves a terminal state.
    pub open spec fn is_terminal(self) -> bool {
        self == MarketStatus::Resolved || self == MarketStatus::Cancelled
    }

    /// Stakes are accepted only in an open state.
    pub open spec fn is_open(self) -> bool {
        self == MarketStatus::Pending || self == MarketStatus::Active
    }
}

/// Length in bytes of a question as it is stored.
pub open spec fn question_len(question: Seq<char>) -> nat {
    vstd::utf8::encode_utf8(question).len()
}

/// One prediction market.
#[derive(Clone, Debug, PartialEq, Eq)]
pub struct Market {
    /// Who created the market and may resolve or cancel it.
    pub creator: Identity,
    /// Tells apart the markets of one creator.
    pub market_index: u64,
    /// The yes/no question.
    pub question: String,
    pub category: MarketCategory,
    /// The advisory minimum stake recorded at creation.
    pub stake_amount: u64,
    /// When betting closes and resolution becomes possible.
    pub deadline: i64,
    pub market_type: MarketType,
    pub status: MarketStatus,
    /// All that was ever staked.
    pub pool_size: u64,
    /// Number of stakes placed on yes.
    pub yes_count: u32,
    /// Number of stakes placed on no.
    pub no_count: u32,
    /// All that was staked on yes.
    pub yes_pool: u64,
    /// All that was staked on no.
    pub no_pool: u64,
    /// Number of bettors with a record in this market.
    pub total_participants: u32,
    /// The side that won, once the market is resolved.
    pub outcome: Option<bool>,
    pub created_at: i64,
    /// Bump of the market record's address.
    pub bump: u8,
    /// Bump of the escrow's address.
    pub vault_bump: u8,
}

impl Market {
    /// The pool staked on one side.
    pub open spec fn side_pool(self, side: bool) -> u64 {
        if side {
            self.yes_pool
        } else {
            self.no_pool
        }
    }

    /// The number of stakes placed on one side.
    pub open spec fn side_count(self, side: bool) -> u32 {
        if side {
            self.yes_count
        } else {
            self.no_count
        }
    }

    /// The whole pool is the two side pools together.
    pub open spec fn balanced(self) -> bool {
        self.pool_size == self.yes_pool + self.no_pool
    }

    /// Nothing has been staked and nobody takes part.
    pub open spec fn untouched(self) -> bool {
        &&& self.pool_size == 0
        &&& self.yes_pool == 0
        &&& self.no_pool == 0
        &&& self.yes_count == 0
        &&& self.no_count == 0
        &&& self.total_participants == 0
    }

    /// The record is as storage hands it out before it was ever written:
    /// every number zero, every choice the first, no question, no outcome.
    pub open spec fn is_blank(self) -> bool {
        &&& self.creator.is_zero()
        &&& self.market_index == 0
        &&& self.question@ == Seq::<char>::empty()
        &&& self.category == MarketCategory::Crypto
        &&& self.stake_amount == 0
        &&& self.deadline == 0
        &&& self.market_type == MarketType::Public
        &&& self.status == MarketStatus::Pending
        &&& self.untouched()
        &&& self.outcome is None
        &&& self.created_at == 0
        &&& self.bump == 0
        &&& self.vault_bump == 0
    }

    /// What holds of a market record at all times.
    pub open spec fn consistent(self) -> bool {
        &&& self.balanced()
        &&& question_len(self.question@) <= MAX_QUESTION_LEN
        &&& self.stake_amount >= MIN_STAKE
        &&& self.created_at < self.deadline
        &&& self.total_participants <= self.yes_count + self.no_count
        &&& (self.outcome is Some <==> self.status == MarketStatus::Resolved)
        &&& (self.status == MarketStatus::Pending || self.status == MarketStatus::Cancelled
            ==> self.untouched())
        &&& (self.status == MarketStatus::Active || self.status == MarketStatus::Resolved ==> {
            &&& self.yes_count + self.no_count >= 1
            &&& self.pool_size >= MIN_STAKE
        })
    }
}

impl Default for Market {
    /// The blank record that storage hands out for a market yet to be
    /// created.
    fn default() -> (market: Market)
        ensures
            market.is_blank(),
    {
        Market {
            creator: Identity::default(),
            market_index: 0,
            question: String::new(),
            category: MarketCategory::Crypto,
            stake_amount: 0,
            deadline: 0,
            market_type: MarketType::Public,
            status: MarketStatus::Pending,
            pool_size: 0,
            yes_count: 0,
            no_count: 0,
            yes_pool: 0,
            no_pool: 0,
            total_participants: 0,
            outcome: None,
            created_at: 0,
            bump: 0,
            vault_bump: 0,
        }
    }
}

} // verus!
