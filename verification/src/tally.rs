//! Totals over the participant records of a market.

use vstd::prelude::*;
use crate::participant::Participant;
use crate::payout::{lemma_payout_superadditive, payout_share};

verus! {

/// The sum of `weight` over all `records`.
pub open spec fn total(records: Seq<Participant>, weight: spec_fn(Participant) -> nat) -> nat
    decreases records.len(),
{
    if records.len() == 0 {
        0
    } else {
        total(records.drop_last(), weight) + weight(records.last())
    }
}

/// What a record has staked on `side`: its stake if it predicted that side,
/// nothing otherwise.
pub open spec fn stake_on(side: bool) -> spec_fn(Participant) -> nat {
    |record: Participant|
        if record.prediction == side {
            record.stake as nat
        } else {
            0
        }
}

/// What a record on `side` is owed of a pool of `pool_size` when `side` wins
/// with a pool of `winning_pool`; nothing for a record on the other side.
pub open spec fn share_on(side: bool, pool_size: nat, winning_pool: nat) -> spec_fn(
    Participant,
) -> nat {
    |record: Participant|
        if record.prediction == side {
            payout_share(record.stake as nat, pool_size, winning_pool)
        } else {
            0
        }
}

/// As `share_on`, but only for a record whose payout was taken.
pub open spec fn share_taken(side: bool, pool_size: nat, winning_pool: nat) -> spec_fn(
    Participant,
) -> nat {
    |record: Participant|
        if record.prediction == side && record.claimed {
            payout_share(record.stake as nat, pool_size, winning_pool)
        } else {
            0
        }
}

/// As `share_on`, but only for a record whose payout is still to be taken.
pub open spec fn share_due(side: bool, pool_size: nat, winning_pool: nat) -> spec_fn(
    Participant,
) -> nat {
    |record: Participant|
        if record.prediction == side && !record.claimed {
            payout_share(record.stake as nat, pool_size, winning_pool)
        } else {
            0
        }
}

/// A new record adds its weight to the total.
pub proof fn lemma_total_push(
    records: Seq<Participant>,
    record: Participant,
    weight: spec_fn(Participant) -> nat,
)
    ensures
        total(records.push(record), weight) == total(records, weight) + weight(record),
{
    assert(records.push(record).drop_last() =~= records);
}

/// Replacing a record replaces its weight in the total.
pub proof fn lemma_total_update(
    records: Seq<Participant>,
    i: int,
    record: Participant,
    weight: spec_fn(Participant) -> nat,
)
    requires
        0 <= i < records.len(),
    ensures
        total(records.update(i, record), weight) + weight(records[i]) == total(records, weight)
            + weight(record),
    decreases records.len(),
{
    let updated = records.update(i, record);
    if i == records.len() - 1 {
        assert(updated.drop_last() =~= records.drop_last());
    } else {
        lemma_total_update(records.drop_last(), i, record, weight);
        assert(updated.drop_last() =~= records.drop_last().update(i, record));
    }
}

/// No record weighs more than the total.
pub proof fn lemma_total_covers(
    records: Seq<Participant>,
    i: int,
    weight: spec_fn(Participant) -> nat,
)
    requires
        0 <= i < records.len(),
    ensures
        weight(records[i]) <= total(records, weight),
    decreases records.len(),
{
    if i < records.len() - 1 {
        lemma_total_covers(records.drop_last(), i, weight);
    }
}

/// A weight that is nowhere larger gives a total that is no larger.
pub proof fn lemma_total_monotone(
    records: Seq<Participant>,
    lower: spec_fn(Participant) -> nat,
    upper: spec_fn(Participant) -> nat,
)
    requires
        forall|i: int| 0 <= i < records.len() ==> lower(#[trigger] records[i]) <= upper(records[i]),
    ensures
        total(records, lower) <= total(records, upper),
    decreases records.len(),
{
    if records.len() > 0 {
        let front = records.drop_last();
        assert forall|i: int| 0 <= i < front.len() implies lower(#[trigger] front[i]) <= upper(
            front[i],
        ) by {
            assert(front[i] == records[i]);
        }
        lemma_total_monotone(front, lower, upper);
        assert(records.last() == records[records.len() - 1]);
    }
}

/// A weight that vanishes on every record gives the total zero.
pub proof fn lemma_total_zero(records: Seq<Participant>, weight: spec_fn(Participant) -> nat)
    requires
        forall|i: int| 0 <= i < records.len() ==> weight(#[trigger] records[i]) == 0,
    ensures
        total(records, weight) == 0,
    decreases records.len(),
{
    if records.len() > 0 {
        let front = records.drop_last();
        assert forall|i: int| 0 <= i < front.len() implies weight(#[trigger] front[i]) == 0 by {
            assert(front[i] == records[i]);
        }
        lemma_total_zero(front, weight);
        assert(records.last() == records[records.len() - 1]);
    }
}

/// A weight that splits in two on every record gives a total that splits
/// the same way.
pub proof fn lemma_total_split(
    records: Seq<Participant>,
    whole: spec_fn(Participant) -> nat,
    one: spec_fn(Participant) -> nat,
    other: spec_fn(Participant) -> nat,
)
    requires
        forall|i: int|
            0 <= i < records.len() ==> whole(#[trigger] records[i]) == one(records[i]) + other(
                records[i],
            ),
    ensures
        total(records, whole) == total(records, one) + total(records, other),
    decreases records.len(),
{
    if records.len() > 0 {
        let front = records.drop_last();
        assert forall|i: int| 0 <= i < front.len() implies whole(#[trigger] front[i]) == one(
            front[i],
        ) + other(front[i]) by {
            assert(front[i] == records[i]);
        }
        lemma_total_split(front, whole, one, other);
        assert(records.last() == records[records.len() - 1]);
    }
}

/// The shares of the records on one side come to no more than the share of
/// all that these records staked together.
pub proof fn lemma_shares_within_joint_share(
    records: Seq<Participant>,
    side: bool,
    pool_size: nat,
    winning_pool: nat,
)
    requires
        winning_pool > 0,
    ensures
        total(records, share_on(side, pool_size, winning_pool)) <= payout_share(
            total(records, stake_on(side)),
            pool_size,
            winning_pool,
        ),
    decreases records.len(),
{
    if records.len() == 0 {
        assert(0nat * pool_size == 0) by (nonlinear_arith);
    } else {
        let front = records.drop_last();
        let last = records.last();
        lemma_shares_within_joint_share(front, side, pool_size, winning_pool);
        lemma_payout_superadditive(
            total(front, stake_on(side)),
            stake_on(side)(last),
            pool_size,
            winning_pool,
        );
        if last.prediction != side {
            assert(0nat * pool_size == 0) by (nonlinear_arith);
        }
    }
}

/// Rounding down costs each record less than one unit: counted in shares of
/// the winning pool, the records on one side are owed what their joint stake
/// is worth, less at most one short of a whole unit for each record.
pub proof fn lemma_shares_round_off_less_than_one_each(
    records: Seq<Participant>,
    side: bool,
    pool_size: nat,
    winning_pool: nat,
)
    requires
        winning_pool > 0,
    ensures
        total(records, stake_on(side)) * pool_size <= total(
            records,
            share_on(side, pool_size, winning_pool),
        ) * winning_pool + records.len() * (winning_pool - 1),
    decreases records.len(),
{
    if records.len() == 0 {
        assert(0nat * pool_size == 0) by (nonlinear_arith);
        assert(0nat * winning_pool + 0nat * (winning_pool - 1) == 0) by (nonlinear_arith);
    } else {
        let front = records.drop_last();
        let last = records.last();
        lemma_shares_round_off_less_than_one_each(front, side, pool_size, winning_pool);
        let staked = total(front, stake_on(side));
        let owed = total(front, share_on(side, pool_size, winning_pool));
        let stake = stake_on(side)(last);
        let share = share_on(side, pool_size, winning_pool)(last);
        let count = front.len();
        assert(share == (stake * pool_size) / winning_pool) by {
            if last.prediction != side {
                assert((0nat * pool_size) / winning_pool == 0) by (nonlinear_arith)
                    requires
                        winning_pool > 0,
                ;
            }
        }
        let slack = winning_pool - 1;
        assert((staked + stake) * pool_size <= (owed + share) * winning_pool + (count + 1) * slack)
            by (nonlinear_arith)
            requires
                slack == winning_pool - 1,
                winning_pool > 0,
                staked * pool_size <= owed * winning_pool + count * slack,
                share == (stake * pool_size) / winning_pool,
        ;
    }
}

} // verus!
