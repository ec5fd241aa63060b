//! A model of everything that is stored for one market, and of what each
//! operation does to it.
//!
//! The operations themselves see one market record and one participant
//! record at a time. What holds of a market together with all its
//! participants, and over any run of operations, is stated here: the model
//! applies to the stored records exactly what the operations' contracts
//! say.

use vstd::prelude::*;
use crate::identity::Identity;
use crate::lifecycle::{cancellation_rejection, cancelled, resolution_rejection, resolved};
use crate::market::{Market, MarketStatus, MIN_STAKE};
use crate::participant::Participant;
use crate::settlement::{claim_rejection, refund_rejection, settled, winnings};
use crate::staking::{bet_rejection, market_after_bet, participant_after_bet, staking_side};
use crate::tally::{share_on, share_taken, stake_on, total};

verus! {

/// What is stored for one market.
pub struct Ledger {
    pub market: Market,
    /// Address of the market record.
    pub market_key: Identity,
    /// The participant records bound to the market, one for each bettor, in
    /// the order of their creation.
    pub records: Seq<Participant>,
    /// What the escrow holds of this market's stakes.
    pub escrow: nat,
    /// All that was ever paid out of the escrow.
    pub paid: nat,
}

/// One request to the engine.
pub enum Call {
    PlaceBet { bettor: Identity, prediction: bool, amount: u64, bump: u8 },
    Resolve { resolver: Identity, outcome: bool },
    Cancel { creator: Identity },
    Claim { bettor: Identity },
    Refund { bettor: Identity },
}

impl Ledger {
    /// A market right after its creation: no records, nothing in escrow.
    pub open spec fn opening(market: Market, market_key: Identity) -> Ledger {
        Ledger { market, market_key, records: Seq::empty(), escrow: 0, paid: 0 }
    }

    /// The bettor has a record in this market.
    pub open spec fn has_record(self, bettor: Identity) -> bool {
        exists|i: int| 0 <= i < self.records.len() && (#[trigger] self.records[i]).bettor == bettor
    }

    /// Where the bettor's record is stored, if the bettor has one.
    pub open spec fn position(self, bettor: Identity) -> int {
        choose|i: int| 0 <= i < self.records.len() && (#[trigger] self.records[i]).bettor == bettor
    }

    /// What storage hands out for the bettor: the record, or nothing.
    pub open spec fn slot(self, bettor: Identity) -> Option<Participant> {
        if self.has_record(bettor) {
            Some(self.records[self.position(bettor)])
        } else {
            None
        }
    }

    /// The records with the bettor's record stored anew.
    pub open spec fn store(self, bettor: Identity, record: Participant) -> Seq<Participant> {
        if self.has_record(bettor) {
            self.records.update(self.position(bettor), record)
        } else {
            self.records.push(record)
        }
    }

    /// Why the call is rejected at time `now`, if it is.
    pub open spec fn rejection(self, call: Call, now: i64) -> Option<
        crate::error::PredictDuelError,
    > {
        match call {
            Call::PlaceBet { bettor, prediction, amount, bump } => bet_rejection(
                self.market,
                self.slot(bettor),
                now,
                prediction,
                amount,
            ),
            Call::Resolve { resolver, outcome } => resolution_rejection(self.market, resolver, now),
            Call::Cancel { creator } => cancellation_rejection(self.market, creator),
            Call::Claim { bettor } => claim_rejection(self.market, self.slot(bettor), self.escrow),
            Call::Refund { bettor } => refund_rejection(self.market, self.slot(bettor)),
        }
    }

    /// What is stored after the call was made at time `now`. A rejected call
    /// changes nothing. An accepted one stores the records as the operation
    /// leaves them and moves the value that it orders.
    pub open spec fn step(self, call: Call, now: i64) -> Ledger {
        if self.rejection(call, now) is Some {
            self
        } else {
            match call {
                Call::PlaceBet { bettor, prediction, amount, bump } => {
                    let slot = self.slot(bettor);
                    Ledger {
                        market: market_after_bet(
                            self.market,
                            slot is None,
                            staking_side(slot, prediction),
                            amount,
                        ),
                        records: self.store(
                            bettor,
                            participant_after_bet(
                                slot,
                                self.market_key,
                                bettor,
                                prediction,
                                amount,
                                bump,
                            ),
                        ),
                        escrow: self.escrow + amount as nat,
                        ..self
                    }
                },
                Call::Resolve { resolver, outcome } => Ledger {
                    market: resolved(self.market, outcome),
                    ..self
                },
                Call::Cancel { creator } => Ledger { market: cancelled(self.market), ..self },
                Call::Claim { bettor } => {
                    let record = self.slot(bettor)->0;
                    let payout = winnings(self.market, record);
                    Ledger {
                        records: self.store(bettor, settled(record)),
                        escrow: (self.escrow - payout) as nat,
                        paid: self.paid + payout,
                        ..self
                    }
                },
                Call::Refund { bettor } => {
                    let record = self.slot(bettor)->0;
                    Ledger {
                        records: self.store(bettor, settled(record)),
                        escrow: (self.escrow - record.stake) as nat,
                        paid: self.paid + record.stake as nat,
                        ..self
                    }
                },
            }
        }
    }

    /// What is stored after a run of calls, each with the time it was made at.
    pub open spec fn run(self, calls: Seq<(Call, i64)>) -> Ledger
        decreases calls.len(),
    {
        if calls.len() == 0 {
            self
        } else {
            self.run(calls.drop_last()).step(calls.last().0, calls.last().1)
        }
    }

    /// No bettor has two records.
    pub open spec fn one_record_each(self) -> bool {
        forall|i: int, j: int|
            0 <= i < j < self.records.len() ==> (#[trigger] self.records[i]).bettor != (
            #[trigger] self.records[j]).bettor
    }

    /// All that the claimed records were paid, given the market's outcome.
    pub open spec fn taken(self) -> nat {
        match self.market.outcome {
            Some(side) => total(
                self.records,
                share_taken(
                    side,
                    self.market.pool_size as nat,
                    self.market.side_pool(side) as nat,
                ),
            ),
            None => 0,
        }
    }

    /// What holds of the stored records at all times.
    pub open spec fn consistent(self) -> bool {
        &&& self.market.consistent()
        &&& self.one_record_each()
        &&& self.market.total_participants == self.records.len()
        &&& total(self.records, stake_on(true)) == self.market.yes_pool
        &&& total(self.records, stake_on(false)) == self.market.no_pool
        &&& forall|i: int|
            0 <= i < self.records.len() ==> {
                &&& (#[trigger] self.records[i]).stake >= MIN_STAKE
                &&& self.records[i].market == self.market_key
                &&& (self.records[i].claimed ==> self.market.outcome == Some(
                    self.records[i].prediction,
                ))
            }
        &&& self.paid == self.taken()
        &&& self.escrow + self.paid == self.market.pool_size
    }
}

} // verus!
