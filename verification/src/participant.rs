//! The participant record: one bettor's position in one market.

use vstd::prelude::*;
use crate::identity::Identity;

verus! {

/// One bettor's cumulative position in one market.
#[derive(Clone, Copy, Debug, PartialEq, Eq)]
pub struct Participant {
    /// Address of the market the position is in.
    pub market: Identity,
    /// Who owns the position.
    pub bettor: Identity,
    /// The side chosen with the first stake: `true` for yes, `false` for no.
    pub prediction: bool,
    /// All that the bettor has staked in this market.
    pub stake: u64,
    /// Whether the payout or refund was taken.
    pub claimed: bool,
    /// Bump of the participant record's address.
    pub bump: u8,
}

impl Participant {
    /// The record as a slot: storage may hand out a record that was
    /// allocated but never written, which is bound to no market and stands
    /// for no record at all.
    pub fn existing(self) -> (slot: Option<Participant>)
        ensures
            slot == (if self.market.is_zero() {
                None
            } else {
                Some(self)
            }),
    {
        let nobody = Identity::default();
        assert(self.market.is_zero() <==> self.market == nobody) by {
            if self.market.is_zero() {
                assert(self.market.bytes =~= nobody.bytes);
            }
        }
        if self.market == nobody {
            None
        } else {
            Some(self)
        }
    }
}

} // verus!
