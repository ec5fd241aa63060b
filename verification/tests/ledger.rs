use predict_duel::accounts::{
    CancelMarket, ClaimWinnings, CreateMarket, PlaceBet, RefundStake, ResolveMarket,
};
use predict_duel::error::PredictDuelError;
use predict_duel::identity::Identity;
use predict_duel::lifecycle::{cancel_market, create_market, resolve_market};
use predict_duel::market::{Market, MarketCategory, MarketStatus, MarketType};
use predict_duel::participant::Participant;
use predict_duel::settlement::{claim_winnings, refund_stake};
use predict_duel::staking::place_bet;

const CREATED: i64 = 1_000;
const DEADLINE: i64 = 2_000;

/// Storage for one market, as a caller of the engine would keep it.
struct Store {
    market: Market,
    records: Vec<Participant>,
    escrow: u64,
    paid: u64,
}

fn party(tag: u8) -> Identity {
    Identity::new([tag; 32])
}

impl Store {
    fn open() -> Store {
        let mut ctx = CreateMarket::new(party(1), 255, 254);
        create_market(
            &mut ctx,
            CREATED,
            42,
            String::from("Will the home team win?"),
            MarketCategory::Sports,
            10_000_000,
            DEADLINE,
            MarketType::Public,
        )
        .unwrap();
        Store { market: ctx.market, records: Vec::new(), escrow: 0, paid: 0 }
    }

    fn find(&self, bettor: Identity) -> Option<usize> {
        self.records.iter().position(|record| record.bettor == bettor)
    }

    fn put(&mut self, record: Participant) {
        match self.find(record.bettor) {
            Some(at) => self.records[at] = record,
            None => self.records.push(record),
        }
    }

    fn bet(
        &mut self,
        bettor: Identity,
        side: bool,
        amount: u64,
        now: i64,
    ) -> Result<(), PredictDuelError> {
        let mut ctx = PlaceBet {
            market: self.market.clone(),
            market_key: party(200),
            participant: self.find(bettor).map(|at| self.records[at]),
            bettor,
            participant_bump: 250,
        };
        let order = place_bet(&mut ctx, now, side, amount)?;
        self.escrow += order.amount;
        self.market = ctx.market;
        self.put(ctx.participant.unwrap());
        Ok(())
    }

    fn resolve(
        &mut self,
        resolver: Identity,
        outcome: bool,
        now: i64,
    ) -> Result<(), PredictDuelError> {
        let mut ctx = ResolveMarket { market: self.market.clone(), resolver };
        resolve_market(&mut ctx, now, outcome)?;
        self.market = ctx.market;
        Ok(())
    }

    fn cancel(&mut self, creator: Identity) -> Result<(), PredictDuelError> {
        let mut ctx = CancelMarket { market: self.market.clone(), creator };
        cancel_market(&mut ctx)?;
        self.market = ctx.market;
        Ok(())
    }

    fn claim(&mut self, bettor: Identity) -> Result<u64, PredictDuelError> {
        let mut ctx = ClaimWinnings {
            market: self.market.clone(),
            participant: self.find(bettor).map(|at| self.records[at]),
            vault_balance: self.escrow,
            vault_bump: 254,
        };
        let order = claim_winnings(&mut ctx)?;
        self.escrow -= order.amount;
        self.paid += order.amount;
        assert_eq!(ctx.market, self.market);
        self.put(ctx.participant.unwrap());
        Ok(order.amount)
    }

    fn refund(&mut self, bettor: Identity) -> Result<u64, PredictDuelError> {
        let mut ctx = RefundStake {
            market: self.market.clone(),
            participant: self.find(bettor).map(|at| self.records[at]),
            vault_bump: 254,
        };
        let order = refund_stake(&mut ctx)?;
        self.escrow -= order.amount;
        self.paid += order.amount;
        self.put(ctx.participant.unwrap());
        Ok(order.amount)
    }

    fn staked_on(&self, side: bool) -> u64 {
        self.records
            .iter()
            .filter(|record| record.prediction == side)
            .map(|record| record.stake)
            .sum()
    }

    fn check(&self) {
        let market = &self.market;
        assert_eq!(market.pool_size, market.yes_pool + market.no_pool);
        assert_eq!(market.total_participants as usize, self.records.len());
        assert_eq!(self.staked_on(true), market.yes_pool);
        assert_eq!(self.staked_on(false), market.no_pool);
        assert_eq!(market.outcome.is_some(), market.status == MarketStatus::Resolved);
        assert!(self.paid <= market.pool_size);
        assert_eq!(self.escrow + self.paid, market.pool_size);
        for (i, a) in self.records.iter().enumerate() {
            for b in self.records.iter().skip(i + 1) {
                assert_ne!(a.bettor, b.bettor);
            }
        }
    }
}

#[test]
fn created_market_is_pending_and_empty() {
    let store = Store::open();
    assert_eq!(store.market.status, MarketStatus::Pending);
    assert_eq!(store.market.pool_size, 0);
    assert_eq!(store.market.outcome, None);
    assert_eq!(store.market.yes_pool, 0);
    assert_eq!(store.market.no_pool, 0);
    assert_eq!(store.market.yes_count, 0);
    assert_eq!(store.market.no_count, 0);
    assert_eq!(store.market.total_participants, 0);
    assert_eq!(store.market.creator, party(1));
    assert_eq!(store.market.market_index, 42);
    assert_eq!(store.market.question, "Will the home team win?");
    assert_eq!(store.market.created_at, CREATED);
    assert_eq!(store.market.deadline, DEADLINE);
    assert_eq!(store.market.bump, 255);
    assert_eq!(store.market.vault_bump, 254);
    store.check();
}

#[test]
fn totals_hold_through_a_whole_run() {
    let mut store = Store::open();
    store.check();
    let calls: [(u8, bool, u64); 6] = [
        (2, true, 10_000_000),
        (3, false, 25_000_000),
        (2, true, 15_000_000),
        (4, false, 10_000_001),
        (5, true, 33_333_333),
        (3, false, 10_000_000),
    ];
    for (i, (tag, side, amount)) in calls.into_iter().enumerate() {
        assert_eq!(store.bet(party(tag), side, amount, CREATED + 1 + i as i64), Ok(()));
        assert_eq!(store.market.status, MarketStatus::Active);
        store.check();
    }
    assert_eq!(store.market.total_participants, 4);
    assert_eq!(store.market.yes_count, 3);
    assert_eq!(store.market.no_count, 3);
    assert_eq!(store.market.yes_pool, 58_333_333);
    assert_eq!(store.market.no_pool, 45_000_001);
    assert_eq!(store.market.pool_size, 103_333_334);

    assert_eq!(store.bet(party(6), true, 1, CREATED + 9), Err(PredictDuelError::StakeTooLow));
    store.check();
    assert_eq!(store.resolve(party(1), true, DEADLINE), Ok(()));
    store.check();
    for tag in [5, 3, 2, 4, 2, 5] {
        let _ = store.claim(party(tag));
        store.check();
    }
    // 25_000_000 * 103_333_334 / 58_333_333 and 33_333_333 * 103_333_334 / 58_333_333
    assert_eq!(store.paid, 44_285_714 + 59_047_619);
    assert_eq!(store.escrow, 1);
}

#[test]
fn later_stake_goes_to_the_side_of_the_first() {
    let mut store = Store::open();
    assert_eq!(store.bet(party(2), true, 10_000_000, CREATED + 1), Ok(()));
    assert_eq!(store.bet(party(2), false, 20_000_000, CREATED + 2), Ok(()));
    let record = store.records[0];
    assert!(record.prediction);
    assert_eq!(record.stake, 30_000_000);
    assert_eq!(store.market.yes_pool, 30_000_000);
    assert_eq!(store.market.no_pool, 0);
    assert_eq!(store.market.yes_count, 2);
    assert_eq!(store.market.no_count, 0);
    assert_eq!(store.market.total_participants, 1);
    store.check();
}

#[test]
fn first_stake_creates_the_record_and_activates_the_market() {
    let mut store = Store::open();
    assert_eq!(store.bet(party(2), false, 12_345_678, CREATED + 1), Ok(()));
    assert_eq!(store.market.status, MarketStatus::Active);
    assert_eq!(
        store.records,
        vec![Participant {
            market: party(200),
            bettor: party(2),
            prediction: false,
            stake: 12_345_678,
            claimed: false,
            bump: 250,
        }]
    );
    assert_eq!(store.escrow, 12_345_678);
}

#[test]
fn market_becomes_active_only_through_a_stake() {
    let mut store = Store::open();
    assert_eq!(store.resolve(party(1), true, DEADLINE + 1), Err(PredictDuelError::MarketNotActive));
    assert_eq!(store.claim(party(2)), Err(PredictDuelError::ParticipantNotFound));
    assert_eq!(store.refund(party(2)), Err(PredictDuelError::ParticipantNotFound));
    assert_eq!(store.bet(party(2), true, 1, CREATED + 1), Err(PredictDuelError::StakeTooLow));
    assert_eq!(store.cancel(party(9)), Err(PredictDuelError::UnauthorizedResolver));
    assert_eq!(store.market.status, MarketStatus::Pending);
    assert_eq!(store.bet(party(2), true, 10_000_000, CREATED + 1), Ok(()));
    assert_eq!(store.market.status, MarketStatus::Active);
}

#[test]
fn market_with_stakes_cannot_be_cancelled() {
    let mut store = Store::open();
    assert_eq!(store.bet(party(2), true, 10_000_000, CREATED + 1), Ok(()));
    assert_eq!(store.cancel(party(1)), Err(PredictDuelError::CannotCancel));
    assert_eq!(store.market.status, MarketStatus::Active);
    store.check();
}

#[test]
fn terminal_states_are_never_left() {
    let mut cancelled = Store::open();
    assert_eq!(cancelled.cancel(party(1)), Ok(()));
    let frozen = cancelled.market.clone();
    assert_eq!(
        cancelled.bet(party(2), true, 10_000_000, CREATED + 1),
        Err(PredictDuelError::MarketNotActive)
    );
    assert_eq!(cancelled.resolve(party(1), true, DEADLINE), Err(PredictDuelError::MarketNotActive));
    assert_eq!(cancelled.cancel(party(1)), Err(PredictDuelError::CannotCancel));
    assert_eq!(cancelled.claim(party(2)), Err(PredictDuelError::ParticipantNotFound));
    assert_eq!(cancelled.market, frozen);
    cancelled.check();

    let mut resolved = Store::open();
    assert_eq!(resolved.bet(party(2), true, 10_000_000, CREATED + 1), Ok(()));
    assert_eq!(resolved.resolve(party(1), false, DEADLINE), Ok(()));
    let frozen = resolved.market.clone();
    assert_eq!(
        resolved.bet(party(3), true, 10_000_000, CREATED + 2),
        Err(PredictDuelError::MarketNotActive)
    );
    assert_eq!(
        resolved.resolve(party(1), true, DEADLINE + 5),
        Err(PredictDuelError::MarketNotActive)
    );
    assert_eq!(resolved.cancel(party(1)), Err(PredictDuelError::CannotCancel));
    assert_eq!(resolved.refund(party(2)), Err(PredictDuelError::MarketNotCancelled));
    assert_eq!(resolved.claim(party(2)), Err(PredictDuelError::NotAWinner));
    assert_eq!(resolved.market, frozen);
    resolved.check();
}

#[test]
fn claim_succeeds_once_whatever_the_order_of_other_claims() {
    let orders: [[u8; 3]; 6] = [[2, 3, 4], [2, 4, 3], [3, 2, 4], [3, 4, 2], [4, 2, 3], [4, 3, 2]];
    for order in orders {
        let mut store = Store::open();
        assert_eq!(store.bet(party(2), true, 10_000_000, CREATED + 1), Ok(()));
        assert_eq!(store.bet(party(3), true, 20_000_000, CREATED + 2), Ok(()));
        assert_eq!(store.bet(party(4), true, 40_000_000, CREATED + 3), Ok(()));
        assert_eq!(store.bet(party(5), false, 35_000_000, CREATED + 4), Ok(()));
        assert_eq!(store.resolve(party(1), true, DEADLINE + 1), Ok(()));
        for (i, tag) in order.into_iter().enumerate() {
            let expected = match tag {
                2 => 15_000_000,
                3 => 30_000_000,
                _ => 60_000_000,
            };
            assert_eq!(store.claim(party(tag)), Ok(expected));
            for earlier in order.into_iter().take(i + 1) {
                assert_eq!(store.claim(party(earlier)), Err(PredictDuelError::AlreadyClaimed));
            }
            store.check();
        }
        assert_eq!(store.claim(party(5)), Err(PredictDuelError::NotAWinner));
        assert_eq!(store.paid, 105_000_000);
        assert_eq!(store.escrow, 0);
    }
}

#[test]
fn payouts_stay_within_the_pool_and_dust_remains() {
    let mut store = Store::open();
    let stakes: [u64; 5] = [10_000_001, 10_000_003, 10_000_007, 23_456_789, 11_111_111];
    for (i, stake) in stakes.into_iter().enumerate() {
        assert_eq!(store.bet(party(10 + i as u8), true, stake, CREATED + 1), Ok(()));
    }
    assert_eq!(store.bet(party(99), false, 77_777_777, CREATED + 2), Ok(()));
    assert_eq!(store.resolve(party(1), true, DEADLINE), Ok(()));
    let pool = store.market.pool_size as u128;
    let winning = store.market.yes_pool as u128;
    let mut paid = 0u64;
    for (i, stake) in stakes.into_iter().enumerate() {
        let payout = store.claim(party(10 + i as u8)).unwrap();
        assert_eq!(payout as u128, stake as u128 * pool / winning);
        assert!(payout >= stake);
        paid += payout;
        assert!(paid <= store.market.pool_size);
        store.check();
    }
    assert_eq!(store.paid, paid);
    assert_eq!(store.escrow, store.market.pool_size - paid);
    assert!(store.escrow < stakes.len() as u64);
}
