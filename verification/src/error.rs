//! The ways an operation can be rejected.

use vstd::prelude::*;

verus! {

/// Why an operation was rejected. A rejected operation changes nothing.
#[derive(Clone, Copy, Debug, PartialEq, Eq, Structural)]
pub enum PredictDuelError {
    /// The question is longer than the record can hold.
    QuestionTooLong,
    /// The stake is below the minimum unit.
    StakeTooLow,
    /// The deadline is not strictly in the future.
    InvalidDeadline,
    /// The market is not in the phase the operation needs.
    MarketNotActive,
    /// Betting has closed: the deadline has been reached.
    MarketExpired,
    /// The caller is not the creator of the market.
    UnauthorizedResolver,
    /// The deadline has not been reached yet.
    MarketNotExpired,
    /// The market has not been resolved.
    MarketNotResolved,
    /// The payout or refund was already taken.
    AlreadyClaimed,
    /// The market carries no outcome.
    NoOutcome,
    /// The participant predicted the other side.
    NotAWinner,
    /// The market has stakes, or is past the pending phase.
    CannotCancel,
    /// The market has not been cancelled.
    MarketNotCancelled,
    /// A total would leave its integer range, the winning pool is empty, or
    /// the payout comes to nothing.
    ArithmeticFailure,
    /// The escrow holds less than the payout.
    InsufficientEscrow,
    /// The bettor has no record in this market.
    ParticipantNotFound,
}

impl PredictDuelError {
    /// The text shown to the caller for each rejection.
    pub open spec fn text(self) -> Seq<char> {
        match self {
            PredictDuelError::QuestionTooLong => "Question exceeds 200 characters"@,
            PredictDuelError::StakeTooLow => "Stake amount must be at least 0.01 SOL"@,
            PredictDuelError::InvalidDeadline => "Deadline must be in the future"@,
            PredictDuelError::MarketNotActive => "Market is not active"@,
            PredictDuelError::MarketExpired => "Market has expired"@,
            PredictDuelError::UnauthorizedResolver => "Only the creator can resolve this market"@,
            PredictDuelError::MarketNotExpired => "Market has not expired yet"@,
            PredictDuelError::MarketNotResolved => "Market is not resolved yet"@,
            PredictDuelError::AlreadyClaimed => "Winnings already claimed"@,
            PredictDuelError::NoOutcome => "No outcome set for market"@,
            PredictDuelError::NotAWinner => "You did not win this market"@,
            PredictDuelError::CannotCancel => "Cannot cancel market with active participants"@,
            PredictDuelError::MarketNotCancelled => "Market is not cancelled"@,
            PredictDuelError::ArithmeticFailure => "Arithmetic overflow or division failure"@,
            PredictDuelError::InsufficientEscrow => "Escrow balance is below the payout"@,
            PredictDuelError::ParticipantNotFound => "No participant record for this bettor"@,
        }
    }

    /// The text shown to the caller for this rejection.
    pub fn message(&self) -> (r: &'static str)
        ensures
            r@ == self.text(),
    {
        match self {
            PredictDuelError::QuestionTooLong => "Question exceeds 200 characters",
            PredictDuelError::StakeTooLow => "Stake amount must be at least 0.01 SOL",
            PredictDuelError::InvalidDeadline => "Deadline must be in the future",
            PredictDuelError::MarketNotActive => "Market is not active",
            PredictDuelError::MarketExpired => "Market has expired",
            PredictDuelError::UnauthorizedResolver => "Only the creator can resolve this market",
            PredictDuelError::MarketNotExpired => "Market has not expired yet",
            PredictDuelError::MarketNotResolved => "Market is not resolved yet",
            PredictDuelError::AlreadyClaimed => "Winnings already claimed",
            PredictDuelError::NoOutcome => "No outcome set for market",
            PredictDuelError::NotAWinner => "You did not win this market",
            PredictDuelError::CannotCancel => "Cannot cancel market with active participants",
            PredictDuelError::MarketNotCancelled => "Market is not cancelled",
            PredictDuelError::ArithmeticFailure => "Arithmetic overflow or division failure",
            PredictDuelError::InsufficientEscrow => "Escrow balance is below the payout",
            PredictDuelError::ParticipantNotFound => "No participant record for this bettor",
        }
    }
}

} // verus!
