//! Settlement engine for binary-outcome prediction markets.
//!
//! Bettors stake on a yes/no question, the creator resolves it after the
//! deadline, and each winner draws a share of the whole pool in proportion
//! to their stake. The engine decides and accounts; moving the value and
//! keeping the records is the caller's part.

pub mod accounts;
pub mod custody;
pub mod error;
pub mod identity;
pub mod laws;
pub mod ledger;
pub mod lifecycle;
pub mod market;
pub mod participant;
pub mod payout;
pub mod settlement;
pub mod staking;
pub mod tally;

pub use crate::accounts::{
    CancelMarket, ClaimWinnings, CreateMarket, PlaceBet, RefundStake, ResolveMarket,
};
pub use crate::error::PredictDuelError;
pub use crate::lifecycle::{cancel_market, create_market, resolve_market};
pub use crate::market::{Market, MarketCategory, MarketStatus, MarketType};
pub use crate::participant::Participant;
pub use crate::settlement::{claim_winnings, refund_stake};
pub use crate::staking::place_bet;
