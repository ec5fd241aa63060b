//! What holds of a market and its participants over any run of operations.

use vstd::prelude::*;
use crate::error::PredictDuelError;
use crate::identity::Identity;
use crate::ledger::{Call, Ledger};
use crate::market::{Market, MarketStatus};
use crate::payout::{lemma_payout_covers_stake, lemma_payout_of_winning_pool};
use crate::settlement::{settled, winnings};
use crate::tally::{
    lemma_shares_round_off_less_than_one_each, lemma_shares_within_joint_share,
    lemma_total_covers, lemma_total_push, lemma_total_split, lemma_total_update,
    lemma_total_zero, share_due, share_on, share_taken, stake_on, total,
};

verus! {

/// The slot of a bettor with a record is one of the stored records, and it
/// is that bettor's.
pub proof fn lemma_slot_is_stored(ledger: Ledger, bettor: Identity)
    requires
        ledger.has_record(bettor),
    ensures
        0 <= ledger.position(bettor) < ledger.records.len(),
        ledger.records[ledger.position(bettor)].bettor == bettor,
        ledger.slot(bettor) == Some(ledger.records[ledger.position(bettor)]),
{
}

/// A market that was just created, with no records and an empty escrow, is
/// consistent.
pub proof fn lemma_opening_is_consistent(market: Market, market_key: Identity)
    requires
        market.consistent(),
        market.status == MarketStatus::Pending,
    ensures
        Ledger::opening(market, market_key).consistent(),
{
}

/// A stake, accepted or rejected, leaves consistent records consistent.
proof fn lemma_bet_keeps_consistent(
    ledger: Ledger,
    bettor: Identity,
    prediction: bool,
    amount: u64,
    bump: u8,
    now: i64,
)
    requires
        ledger.consistent(),
    ensures
        ledger.step(Call::PlaceBet { bettor, prediction, amount, bump }, now).consistent(),
{
    let call = Call::PlaceBet { bettor, prediction, amount, bump };
    let after = ledger.step(call, now);
    if ledger.rejection(call, now) is None {
        let slot = ledger.slot(bettor);
        let record = crate::staking::participant_after_bet(
            slot,
            ledger.market_key,
            bettor,
            prediction,
            amount,
            bump,
        );
        if ledger.has_record(bettor) {
            let at = ledger.position(bettor);
            lemma_slot_is_stored(ledger, bettor);
            lemma_total_update(ledger.records, at, record, stake_on(true));
            lemma_total_update(ledger.records, at, record, stake_on(false));
            assert(after.records == ledger.records.update(at, record));
        } else {
            lemma_total_push(ledger.records, record, stake_on(true));
            lemma_total_push(ledger.records, record, stake_on(false));
            assert(after.records == ledger.records.push(record));
        }
    }
}

/// A resolution, accepted or rejected, leaves consistent records
/// consistent: nothing was paid before it.
proof fn lemma_resolution_keeps_consistent(
    ledger: Ledger,
    resolver: Identity,
    outcome: bool,
    now: i64,
)
    requires
        ledger.consistent(),
    ensures
        ledger.step(Call::Resolve { resolver, outcome }, now).consistent(),
{
    let call = Call::Resolve { resolver, outcome };
    if ledger.rejection(call, now) is None {
        lemma_total_zero(
            ledger.records,
            share_taken(
                outcome,
                ledger.market.pool_size as nat,
                ledger.market.side_pool(outcome) as nat,
            ),
        );
    }
}

/// A claim, accepted or rejected, leaves consistent records consistent:
/// what it pays is what it takes from escrow.
proof fn lemma_claim_keeps_consistent(ledger: Ledger, bettor: Identity, now: i64)
    requires
        ledger.consistent(),
    ensures
        ledger.step(Call::Claim { bettor }, now).consistent(),
{
    let call = Call::Claim { bettor };
    let after = ledger.step(call, now);
    if ledger.rejection(call, now) is None {
        lemma_slot_is_stored(ledger, bettor);
        let at = ledger.position(bettor);
        let record = ledger.records[at];
        let side = record.prediction;
        lemma_total_update(ledger.records, at, settled(record), stake_on(true));
        lemma_total_update(ledger.records, at, settled(record), stake_on(false));
        lemma_total_update(
            ledger.records,
            at,
            settled(record),
            share_taken(side, ledger.market.pool_size as nat, ledger.market.side_pool(side) as nat),
        );
        assert(after.records == ledger.records.update(at, settled(record)));
    }
}

/// Every call, accepted or rejected, leaves consistent records consistent:
/// the pool is the two side pools together, the participant count is the
/// number of bettors with a record, each side's pool is what its records
/// staked, and what was paid and what the escrow holds make up the pool.
pub proof fn lemma_step_keeps_consistent(ledger: Ledger, call: Call, now: i64)
    requires
        ledger.consistent(),
    ensures
        ledger.step(call, now).consistent(),
{
    match call {
        Call::PlaceBet { bettor, prediction, amount, bump } => {
            lemma_bet_keeps_consistent(ledger, bettor, prediction, amount, bump, now);
        },
        Call::Resolve { resolver, outcome } => {
            lemma_resolution_keeps_consistent(ledger, resolver, outcome, now);
        },
        Call::Cancel { creator } => {},
        Call::Claim { bettor } => {
            lemma_claim_keeps_consistent(ledger, bettor, now);
        },
        Call::Refund { bettor } => {
            if ledger.rejection(call, now) is None {
                lemma_slot_is_stored(ledger, bettor);
            }
        },
    }
}

/// Every run of calls leaves consistent records consistent.
pub proof fn lemma_run_keeps_consistent(ledger: Ledger, calls: Seq<(Call, i64)>)
    requires
        ledger.consistent(),
    ensures
        ledger.run(calls).consistent(),
    decreases calls.len(),
{
    if calls.len() > 0 {
        lemma_run_keeps_consistent(ledger, calls.drop_last());
        lemma_step_keeps_consistent(
            ledger.run(calls.drop_last()),
            calls.last().0,
            calls.last().1,
        );
    }
}

/// A market changes its state only in these ways: it becomes active only
/// through an accepted stake on a pending market, resolved only through an
/// accepted resolution of an active market at or after its deadline, and
/// cancelled only through an accepted cancellation of a pending market in
/// which nobody takes part. It never becomes pending again, and a resolved
/// or cancelled market stays exactly as it is, outcome included.
pub proof fn lemma_status_changes(ledger: Ledger, call: Call, now: i64)
    ensures
        ({
            let before = ledger.market;
            let after = ledger.step(call, now).market;
            &&& after.status != before.status ==> ledger.rejection(call, now) is None
            &&& after.status == MarketStatus::Active && before.status != MarketStatus::Active ==> {
                &&& call is PlaceBet
                &&& before.status == MarketStatus::Pending
            }
            &&& after.status == MarketStatus::Resolved && before.status != MarketStatus::Resolved
                ==> {
                &&& call is Resolve
                &&& before.status == MarketStatus::Active
                &&& now >= before.deadline
            }
            &&& after.status == MarketStatus::Cancelled && before.status
                != MarketStatus::Cancelled ==> {
                &&& call is Cancel
                &&& before.status == MarketStatus::Pending
                &&& before.total_participants == 0
            }
            &&& after.status == MarketStatus::Pending ==> before.status == MarketStatus::Pending
            &&& before.status.is_terminal() ==> after == before
            &&& after.outcome != before.outcome ==> call is Resolve && after.status
                == MarketStatus::Resolved && before.status == MarketStatus::Active
        }),
{
}

/// An outcome is written once: a consistent market has none until it is
/// resolved, and the outcome it is resolved with stays through every call.
pub proof fn lemma_outcome_is_written_once(ledger: Ledger, call: Call, now: i64)
    requires
        ledger.consistent(),
    ensures
        ledger.market.outcome is Some ==> ledger.step(call, now).market.outcome
            == ledger.market.outcome,
        ledger.step(call, now).market.outcome is Some <==> ledger.step(call, now).market.status
            == MarketStatus::Resolved,
{
    lemma_step_keeps_consistent(ledger, call, now);
}

/// Over any run of calls a resolved or cancelled market stays exactly as it
/// is.
pub proof fn lemma_terminal_is_final(ledger: Ledger, calls: Seq<(Call, i64)>)
    requires
        ledger.market.status.is_terminal(),
    ensures
        ledger.run(calls).market == ledger.market,
    decreases calls.len(),
{
    if calls.len() > 0 {
        lemma_terminal_is_final(ledger, calls.drop_last());
        lemma_status_changes(ledger.run(calls.drop_last()), calls.last().0, calls.last().1);
    }
}

/// What a market was created with never changes: creator, index, question,
/// tags, advisory stake, deadline, creation time and bumps stay through
/// every call.
pub proof fn lemma_step_keeps_terms(ledger: Ledger, call: Call, now: i64)
    ensures
        ({
            let before = ledger.market;
            let after = ledger.step(call, now).market;
            &&& after.creator == before.creator
            &&& after.market_index == before.market_index
            &&& after.question == before.question
            &&& after.category == before.category
            &&& after.market_type == before.market_type
            &&& after.stake_amount == before.stake_amount
            &&& after.deadline == before.deadline
            &&& after.created_at == before.created_at
            &&& after.bump == before.bump
            &&& after.vault_bump == before.vault_bump
            &&& ledger.step(call, now).market_key == ledger.market_key
        }),
{
}

/// The totals of a market never shrink: pools, counts and the number of
/// participants stay or grow through every call, no record is ever removed,
/// and what was paid is never taken back.
pub proof fn lemma_step_only_grows_totals(ledger: Ledger, call: Call, now: i64)
    ensures
        ({
            let before = ledger.market;
            let after = ledger.step(call, now).market;
            &&& after.pool_size >= before.pool_size
            &&& after.yes_pool >= before.yes_pool
            &&& after.no_pool >= before.no_pool
            &&& after.yes_count >= before.yes_count
            &&& after.no_count >= before.no_count
            &&& after.total_participants >= before.total_participants
            &&& ledger.step(call, now).records.len() >= ledger.records.len()
            &&& ledger.step(call, now).paid >= ledger.paid
        }),
{
}

/// A bettor's record stays the bettor's through every call: market, bettor
/// and predicted side are fixed by the first stake, the stake never shrinks,
/// and a payout that was taken stays taken.
pub proof fn lemma_step_keeps_position(ledger: Ledger, bettor: Identity, call: Call, now: i64)
    requires
        ledger.consistent(),
        ledger.has_record(bettor),
    ensures
        ({
            let before = ledger.slot(bettor)->0;
            &&& ledger.step(call, now).slot(bettor) matches Some(after)
            &&& after.market == before.market
            &&& after.bettor == before.bettor
            &&& after.prediction == before.prediction
            &&& after.stake >= before.stake
            &&& before.claimed ==> after.claimed
        }),
{
    let after = ledger.step(call, now);
    lemma_step_keeps_consistent(ledger, call, now);
    lemma_slot_is_stored(ledger, bettor);
    let at = ledger.position(bettor);
    if ledger.rejection(call, now) is None {
        match call {
            Call::PlaceBet { bettor: other, prediction, amount, bump } => {
                if ledger.has_record(other) {
                    lemma_slot_is_stored(ledger, other);
                }
            },
            Call::Claim { bettor: other } => {
                lemma_slot_is_stored(ledger, other);
            },
            Call::Refund { bettor: other } => {
                lemma_slot_is_stored(ledger, other);
            },
            _ => {},
        }
    }
    assert(after.records[at].bettor == bettor);
    lemma_slot_is_stored(after, bettor);
    assert(after.position(bettor) == at);
}

/// A record whose payout was taken stays so through every call.
pub proof fn lemma_step_keeps_claimed(ledger: Ledger, bettor: Identity, call: Call, now: i64)
    requires
        ledger.consistent(),
        ledger.slot(bettor) matches Some(record) && record.claimed,
    ensures
        ledger.step(call, now).slot(bettor) matches Some(record) && record.claimed,
{
    lemma_step_keeps_position(ledger, bettor, call, now);
}

/// A record whose payout was taken stays so through every run of calls.
pub proof fn lemma_run_keeps_claimed(ledger: Ledger, bettor: Identity, calls: Seq<(Call, i64)>)
    requires
        ledger.consistent(),
        ledger.slot(bettor) matches Some(record) && record.claimed,
    ensures
        ledger.run(calls).slot(bettor) matches Some(record) && record.claimed,
    decreases calls.len(),
{
    if calls.len() > 0 {
        lemma_run_keeps_claimed(ledger, bettor, calls.drop_last());
        lemma_run_keeps_consistent(ledger, calls.drop_last());
        lemma_step_keeps_claimed(
            ledger.run(calls.drop_last()),
            bettor,
            calls.last().0,
            calls.last().1,
        );
    }
}

/// A claim pays once. After a bettor's claim was accepted, whatever calls
/// follow, by whom and in what order, a further claim by the same bettor is
/// rejected as already claimed.
pub proof fn lemma_claim_pays_once(
    ledger: Ledger,
    bettor: Identity,
    now: i64,
    later: Seq<(Call, i64)>,
    again: i64,
)
    requires
        ledger.consistent(),
        ledger.rejection(Call::Claim { bettor }, now) is None,
    ensures
        ledger.step(Call::Claim { bettor }, now).run(later).rejection(
            Call::Claim { bettor },
            again,
        ) == Some(PredictDuelError::AlreadyClaimed),
{
    let call = Call::Claim { bettor };
    let paid = ledger.step(call, now);
    lemma_step_keeps_consistent(ledger, call, now);
    lemma_slot_is_stored(ledger, bettor);
    let at = ledger.position(bettor);
    assert(paid.records[at] == settled(ledger.records[at]));
    lemma_slot_is_stored(paid, bettor);
    assert(paid.position(bettor) == at);
    lemma_run_keeps_claimed(paid, bettor, later);
    lemma_terminal_is_final(paid, later);
}

/// What the records on the winning side are owed together is within the
/// pool.
pub proof fn lemma_shares_within_pool(ledger: Ledger, side: bool)
    requires
        ledger.consistent(),
    ensures
        total(
            ledger.records,
            share_on(side, ledger.market.pool_size as nat, ledger.market.side_pool(side) as nat),
        ) <= ledger.market.pool_size,
{
    let pool_size = ledger.market.pool_size as nat;
    let winning_pool = ledger.market.side_pool(side) as nat;
    let shares = share_on(side, pool_size, winning_pool);
    if winning_pool == 0 {
        assert forall|i: int| 0 <= i < ledger.records.len() implies shares(
            #[trigger] ledger.records[i],
        ) == 0 by {
            lemma_total_covers(ledger.records, i, stake_on(side));
        }
        lemma_total_zero(ledger.records, shares);
    } else {
        lemma_shares_within_joint_share(ledger.records, side, pool_size, winning_pool);
        lemma_payout_of_winning_pool(pool_size, winning_pool);
    }
}

/// All that was ever paid out of a market's escrow is within its pool, and
/// the escrow holds the rest.
pub proof fn lemma_paid_within_pool(ledger: Ledger)
    requires
        ledger.consistent(),
    ensures
        ledger.paid <= ledger.market.pool_size,
        ledger.escrow == ledger.market.pool_size - ledger.paid,
        ledger.market.outcome matches Some(side) ==> ledger.paid <= total(
            ledger.records,
            share_on(side, ledger.market.pool_size as nat, ledger.market.side_pool(side) as nat),
        ),
{
    if let Some(side) = ledger.market.outcome {
        let pool_size = ledger.market.pool_size as nat;
        let winning_pool = ledger.market.side_pool(side) as nat;
        lemma_total_split(
            ledger.records,
            share_on(side, pool_size, winning_pool),
            share_taken(side, pool_size, winning_pool),
            share_due(side, pool_size, winning_pool),
        );
    }
}

/// From the creation of a market on, whatever calls are made, all that was
/// paid out of its escrow is within its pool.
pub proof fn lemma_payouts_never_exceed_pool(
    market: Market,
    market_key: Identity,
    calls: Seq<(Call, i64)>,
)
    requires
        market.consistent(),
        market.status == MarketStatus::Pending,
    ensures
        Ledger::opening(market, market_key).run(calls).consistent(),
        Ledger::opening(market, market_key).run(calls).paid <= Ledger::opening(
            market,
            market_key,
        ).run(calls).market.pool_size,
{
    lemma_opening_is_consistent(market, market_key);
    lemma_run_keeps_consistent(Ledger::opening(market, market_key), calls);
}

/// A winner who has not claimed yet is paid on claiming: the winning pool is
/// not empty, the payout is at least the stake and fits, and the escrow
/// covers it, whoever claimed before.
pub proof fn lemma_winner_is_paid(ledger: Ledger, bettor: Identity, now: i64)
    requires
        ledger.consistent(),
        ledger.market.status == MarketStatus::Resolved,
        ledger.slot(bettor) matches Some(record) && !record.claimed && ledger.market.outcome
            == Some(record.prediction),
    ensures
        ledger.rejection(Call::Claim { bettor }, now) is None,
        ledger.slot(bettor)->0.stake <= winnings(ledger.market, ledger.slot(bettor)->0)
            <= ledger.escrow,
{
    lemma_slot_is_stored(ledger, bettor);
    let at = ledger.position(bettor);
    let record = ledger.records[at];
    let side = record.prediction;
    let pool_size = ledger.market.pool_size as nat;
    let winning_pool = ledger.market.side_pool(side) as nat;
    lemma_total_covers(ledger.records, at, stake_on(side));
    lemma_payout_covers_stake(record.stake as nat, pool_size, winning_pool);
    lemma_total_covers(ledger.records, at, share_due(side, pool_size, winning_pool));
    lemma_total_split(
        ledger.records,
        share_on(side, pool_size, winning_pool),
        share_taken(side, pool_size, winning_pool),
        share_due(side, pool_size, winning_pool),
    );
    lemma_shares_within_pool(ledger, side);
}

/// A cancelled market owes nothing: it never had a participant, its escrow
/// is empty, and every refund is rejected for want of a record.
pub proof fn lemma_cancelled_market_owes_nothing(ledger: Ledger, bettor: Identity, now: i64)
    requires
        ledger.consistent(),
        ledger.market.status == MarketStatus::Cancelled,
    ensures
        ledger.records.len() == 0,
        ledger.escrow == 0,
        ledger.paid == 0,
        ledger.rejection(Call::Refund { bettor }, now) == Some(
            PredictDuelError::ParticipantNotFound,
        ),
{
}

/// What rounding leaves in escrow is bounded: once every winner has been
/// paid, less than one unit for each participant remains of the pool.
pub proof fn lemma_dust_is_bounded(ledger: Ledger, side: bool)
    requires
        ledger.consistent(),
        ledger.market.side_pool(side) > 0,
    ensures
        ledger.market.pool_size - total(
            ledger.records,
            share_on(side, ledger.market.pool_size as nat, ledger.market.side_pool(side) as nat),
        ) < ledger.records.len(),
{
    let pool_size = ledger.market.pool_size as nat;
    let winning_pool = ledger.market.side_pool(side) as nat;
    let owed = total(ledger.records, share_on(side, pool_size, winning_pool));
    let count = ledger.records.len();
    lemma_shares_round_off_less_than_one_each(ledger.records, side, pool_size, winning_pool);
    assert(total(ledger.records, stake_on(side)) == winning_pool);
    if count == 0 {
        assert(total(ledger.records, stake_on(side)) == 0);
    }
    assert(pool_size - owed < count) by (nonlinear_arith)
        requires
            winning_pool > 0,
            count > 0,
            winning_pool * pool_size <= owed * winning_pool + count * (winning_pool - 1),
    ;
}

} // verus!
