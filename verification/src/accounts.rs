//! What each operation works on: the records it reads and writes, and the
//! facts about the caller and the escrow that it needs.
//!
//! The caller loads the records from storage into one of these, runs the
//! operation, carries out any movement of value the operation orders, and
//! only then writes the records back. A rejected operation, or a movement
//! of value that fails, leaves storage as it was.

use vstd::prelude::*;
use crate::identity::Identity;
use crate::market::Market;
use crate::participant::Participant;

verus! {

/// Creating a market: the record to fill and the creator who signs for it.
#[derive(Clone, Debug, PartialEq, Eq)]
pub struct CreateMarket {
    pub market: Market,
    pub creator: Identity,
    /// Bump of the market record's address.
    pub market_bump: u8,
    /// Bump of the escrow's address.
    pub vault_bump: u8,
}

impl CreateMarket {
    /// The context of a creation by `creator`, with a blank market record to
    /// fill.
    pub fn new(creator: Identity, market_bump: u8, vault_bump: u8) -> (ctx: CreateMarket)
        ensures
            ctx.creator == creator,
            ctx.market_bump == market_bump,
            ctx.vault_bump == vault_bump,
            ctx.market.is_blank(),
    {
        CreateMarket { market: Market::default(), creator, market_bump, vault_bump }
    }
}

/// Placing a stake: the market, the bettor, and the bettor's record in this
/// market, absent until the bettor's first stake.
#[derive(Clone, Debug, PartialEq, Eq)]
pub struct PlaceBet {
    pub market: Market,
    /// Address of the market record.
    pub market_key: Identity,
    pub participant: Option<Participant>,
    pub bettor: Identity,
    /// Bump of the participant record's address.
    pub participant_bump: u8,
}

/// Resolving a market: the market and the party who asks.
#[derive(Clone, Debug, PartialEq, Eq)]
pub struct ResolveMarket {
    pub market: Market,
    pub resolver: Identity,
}

/// Claiming winnings: the market, the claimant's record if there is one, and
/// the escrow's balance.
#[derive(Clone, Debug, PartialEq, Eq)]
pub struct ClaimWinnings {
    pub market: Market,
    pub participant: Option<Participant>,
    /// What the escrow holds at the time of the claim.
    pub vault_balance: u64,
    /// Bump of the escrow's address.
    pub vault_bump: u8,
}

/// Cancelling a market: the market and the party who asks.
#[derive(Clone, Debug, PartialEq, Eq)]
pub struct CancelMarket {
    pub market: Market,
    pub creator: Identity,
}

/// Refunding a stake: the market and the bettor's record if there is one.
#[derive(Clone, Debug, PartialEq, Eq)]
pub struct RefundStake {
    pub market: Market,
    pub participant: Option<Participant>,
    /// Bump of the escrow's address.
    pub vault_bump: u8,
}

} // verus!
