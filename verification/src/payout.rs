//! Payout arithmetic: a winner's share of the whole pool.

use vstd::prelude::*;

verus! {

/// The payout owed to a winning stake: the stake's share of the whole pool,
/// in proportion to the winning side's pool, rounded down.
///
/// The share includes the winner's own stake. What rounding leaves over
/// stays in escrow.
pub open spec fn payout_share(stake: nat, pool_size: nat, winning_pool: nat) -> nat
    recommends
        winning_pool > 0,
{
    (stake * pool_size) / winning_pool
}

/// Computes `payout_share` in twice the width of a stake.
///
/// Returns `None` when the winning pool is empty or the share does not fit
/// a stake's width.
pub fn compute_payout(stake: u64, pool_size: u64, winning_pool: u64) -> (r: Option<u64>)
    ensures
        r == (if winning_pool > 0 && payout_share(
            stake as nat,
            pool_size as nat,
            winning_pool as nat,
        ) <= u64::MAX {
            Some(payout_share(stake as nat, pool_size as nat, winning_pool as nat) as u64)
        } else {
            None
        }),
{
    if winning_pool == 0 {
        return None;
    }
    assert(stake * pool_size <= u128::MAX) by (nonlinear_arith)
        requires
            stake <= u64::MAX,
            pool_size <= u64::MAX,
    ;
    let product: u128 = (stake as u128) * (pool_size as u128);
    let share: u128 = product / (winning_pool as u128);
    if share > u64::MAX as u128 {
        None
    } else {
        Some(share as u64)
    }
}

/// A larger stake is never owed less.
pub proof fn lemma_payout_monotone(a: nat, b: nat, pool_size: nat, winning_pool: nat)
    requires
        winning_pool > 0,
        a <= b,
    ensures
        payout_share(a, pool_size, winning_pool) <= payout_share(b, pool_size, winning_pool),
{
    assert(a * pool_size <= b * pool_size) by (nonlinear_arith)
        requires
            a <= b,
    ;
    vstd::arithmetic::div_mod::lemma_div_is_ordered(
        (a * pool_size) as int,
        (b * pool_size) as int,
        winning_pool as int,
    );
}

/// Two stakes paid separately are owed no more than the two paid as one.
pub proof fn lemma_payout_superadditive(a: nat, b: nat, pool_size: nat, winning_pool: nat)
    requires
        winning_pool > 0,
    ensures
        payout_share(a, pool_size, winning_pool) + payout_share(b, pool_size, winning_pool)
            <= payout_share(a + b, pool_size, winning_pool),
{
    let x = (a * pool_size) as int;
    let y = (b * pool_size) as int;
    let w = winning_pool as int;
    assert((a + b) * pool_size == x + y) by (nonlinear_arith)
        requires
            x == a * pool_size,
            y == b * pool_size,
    ;
    assert(x / w + y / w <= (x + y) / w) by (nonlinear_arith)
        requires
            x >= 0,
            y >= 0,
            w > 0,
    ;
}

/// The whole winning pool is owed exactly the whole pool.
pub proof fn lemma_payout_of_winning_pool(pool_size: nat, winning_pool: nat)
    requires
        winning_pool > 0,
    ensures
        payout_share(winning_pool, pool_size, winning_pool) == pool_size,
{
    assert((winning_pool * pool_size) / winning_pool == pool_size) by (nonlinear_arith)
        requires
            winning_pool > 0,
    ;
}

/// A stake within the winning pool is owed no more than the whole pool.
pub proof fn lemma_payout_within_pool(stake: nat, pool_size: nat, winning_pool: nat)
    requires
        winning_pool > 0,
        stake <= winning_pool,
    ensures
        payout_share(stake, pool_size, winning_pool) <= pool_size,
{
    lemma_payout_monotone(stake, winning_pool, pool_size, winning_pool);
    lemma_payout_of_winning_pool(pool_size, winning_pool);
}

/// A winner gets at least the stake back when the pool covers the winning
/// side.
pub proof fn lemma_payout_covers_stake(stake: nat, pool_size: nat, winning_pool: nat)
    requires
        winning_pool > 0,
        winning_pool <= pool_size,
    ensures
        stake <= payout_share(stake, pool_size, winning_pool),
{
    assert(stake <= (stake * pool_size) / winning_pool) by (nonlinear_arith)
        requires
            winning_pool > 0,
            winning_pool <= pool_size,
    ;
}

} // verus!
