use satellite_markets::{Market, MarketError, Position, PredictionMarketContract};
use std::collections::HashMap;

type MarketId = [u8; 32];
type Account = u32;

/// A ledger in memory that runs the market's rules as the deployed contract
/// does: it looks up the stored records, applies the rule, stores the result
/// and moves tokens, aborting with the rule's message on a refusal.
struct Setup {
    now: u64,
    next_account: Account,
    contract: Account,
    markets: HashMap<MarketId, Market<String>>,
    positions: HashMap<(MarketId, Account), Position>,
    balances: HashMap<Account, i128>,
}

fn fail(e: MarketError) -> ! {
    panic!("{}", e.message())
}

impl Setup {
    fn generate(&mut self) -> Account {
        self.next_account += 1;
        self.next_account
    }

    fn balance(&self, who: Account) -> i128 {
        *self.balances.get(&who).unwrap_or(&0)
    }

    fn transfer(&mut self, from: Account, to: Account, amount: i128) {
        assert!(amount >= 0);
        let have = self.balance(from);
        assert!(have >= amount, "insufficient balance");
        self.balances.insert(from, have - amount);
        let got = self.balance(to);
        self.balances.insert(to, got + amount);
    }

    fn create_market(&mut self, id: &MarketId, satellite: &str, station: &str, threshold: u32, close_time: u64) {
        let exists = self.markets.contains_key(id);
        match PredictionMarketContract::create_market(
            exists,
            satellite.to_string(),
            station.to_string(),
            threshold,
            close_time,
            self.now,
        ) {
            Ok(m) => {
                self.markets.insert(*id, m);
            }
            Err(e) => fail(e),
        }
    }

    fn place_bet(&mut self, bettor: Account, id: &MarketId, side: bool, amount: i128) {
        let market = self.markets.get(id).cloned();
        let position = self.positions.get(&(*id, bettor)).copied();
        match PredictionMarketContract::place_bet(market, position, side, amount, self.now) {
            Ok(placed) => {
                let contract = self.contract;
                self.transfer(bettor, contract, amount);
                self.markets.insert(*id, placed.market);
                self.positions.insert((*id, bettor), placed.position);
            }
            Err(e) => fail(e),
        }
    }

    fn resolve_market(&mut self, id: &MarketId, actual: u32) {
        let market = self.markets.get(id).cloned();
        match PredictionMarketContract::resolve_market(market, actual, self.now) {
            Ok(m) => {
                self.markets.insert(*id, m);
            }
            Err(e) => fail(e),
        }
    }

    fn claim(&mut self, bettor: Account, id: &MarketId) {
        let market = self.markets.get(id).cloned();
        let position = self.positions.get(&(*id, bettor)).copied();
        match PredictionMarketContract::claim(&market, position) {
            Ok(claimed) => {
                self.positions.insert((*id, bettor), claimed.position);
                if let Some(payout) = claimed.payout {
                    let contract = self.contract;
                    self.transfer(contract, bettor, payout);
                }
            }
            Err(e) => fail(e),
        }
    }
}

fn setup() -> Setup {
    let mut s = Setup {
        now: 0,
        next_account: 0,
        contract: 0,
        markets: HashMap::new(),
        positions: HashMap::new(),
        balances: HashMap::new(),
    };
    s.contract = s.generate();
    s
}

fn fund(setup: &mut Setup, who: Account, amount: i128) {
    let got = setup.balance(who);
    setup.balances.insert(who, got + amount);
}

const ONE_HOUR: u64 = 3600;

fn create_test_market(setup: &mut Setup, market_id: &MarketId, close_in_secs: u64) {
    let close_time = setup.now + close_in_secs;
    setup.create_market(market_id, "ISS_ZARYA", "CAPE_CANAVERAL", 4500, close_time);
}

fn advance_past_close(setup: &mut Setup, close_in_secs: u64) {
    setup.now = setup.now + close_in_secs + 1;
}

#[test]
fn happy_path_both_sides_bet_and_claim() {
    let mut s = setup();
    let market_id = [1u8; 32];
    create_test_market(&mut s, &market_id, ONE_HOUR);

    let alice = s.generate(); // bets YES
    let bob = s.generate(); // bets NO
    fund(&mut s, alice, 100);
    fund(&mut s, bob, 200);

    s.place_bet(alice, &market_id, true, 100);
    s.place_bet(bob, &market_id, false, 200);

    advance_past_close(&mut s, ONE_HOUR);
    s.resolve_market(&market_id, 5000); // 50.00deg >= 45.00deg threshold -> YES wins

    s.claim(alice, &market_id);
    // Alice staked 100 of a 100 YES pool, wins the full 200 NO pool pro-rata -> 100 + 200 = 300
    assert_eq!(s.balance(alice), 300);

    s.claim(bob, &market_id);
    // Bob lost, no payout, balance stays at whatever remained after his bet (0)
    assert_eq!(s.balance(bob), 0);
}

#[test]
fn proportional_payout_across_multiple_winners() {
    let mut s = setup();
    let market_id = [2u8; 32];
    create_test_market(&mut s, &market_id, ONE_HOUR);

    let alice = s.generate(); // YES, 100
    let carol = s.generate(); // YES, 300
    let bob = s.generate(); // NO, 400
    fund(&mut s, alice, 100);
    fund(&mut s, carol, 300);
    fund(&mut s, bob, 400);

    s.place_bet(alice, &market_id, true, 100);
    s.place_bet(carol, &market_id, true, 300);
    s.place_bet(bob, &market_id, false, 400);

    advance_past_close(&mut s, ONE_HOUR);
    s.resolve_market(&market_id, 5000); // YES wins

    s.claim(alice, &market_id);
    s.claim(carol, &market_id);

    // YES pool = 400, NO pool (losing) = 400, split pro-rata by stake share.
    assert_eq!(s.balance(alice), 100 + (100 * 400) / 400); // 200
    assert_eq!(s.balance(carol), 300 + (300 * 400) / 400); // 600
}

#[test]
fn losing_side_with_zero_winning_pool_keeps_funds_locked() {
    let mut s = setup();
    let market_id = [3u8; 32];
    create_test_market(&mut s, &market_id, ONE_HOUR);

    let bob = s.generate();
    fund(&mut s, bob, 400);
    s.place_bet(bob, &market_id, false, 400);

    advance_past_close(&mut s, ONE_HOUR);
    s.resolve_market(&market_id, 5000); // YES wins, but nobody bet YES

    // Bob lost (he bet NO), no payout, and since nobody won there's nothing to claim.
    s.claim(bob, &market_id);
    assert_eq!(s.balance(bob), 0);
}

#[test]
#[should_panic(expected = "market already resolved")]
fn rejects_double_resolve() {
    let mut s = setup();
    let market_id = [4u8; 32];
    create_test_market(&mut s, &market_id, ONE_HOUR);
    advance_past_close(&mut s, ONE_HOUR);
    s.resolve_market(&market_id, 5000);
    s.resolve_market(&market_id, 5000);
}

#[test]
#[should_panic(expected = "market closed")]
fn rejects_bet_after_close() {
    let mut s = setup();
    let market_id = [5u8; 32];
    create_test_market(&mut s, &market_id, ONE_HOUR);

    let alice = s.generate();
    fund(&mut s, alice, 100);
    advance_past_close(&mut s, ONE_HOUR);
    s.place_bet(alice, &market_id, true, 100);
}

#[test]
#[should_panic(expected = "market not resolved yet")]
fn rejects_claim_before_resolve() {
    let mut s = setup();
    let market_id = [6u8; 32];
    create_test_market(&mut s, &market_id, ONE_HOUR);

    let alice = s.generate();
    fund(&mut s, alice, 100);
    s.place_bet(alice, &market_id, true, 100);
    s.claim(alice, &market_id);
}

#[test]
#[should_panic(expected = "already claimed")]
fn rejects_double_claim() {
    let mut s = setup();
    let market_id = [7u8; 32];
    create_test_market(&mut s, &market_id, ONE_HOUR);

    let alice = s.generate();
    fund(&mut s, alice, 100);
    s.place_bet(alice, &market_id, true, 100);

    advance_past_close(&mut s, ONE_HOUR);
    s.resolve_market(&market_id, 5000);
    s.claim(alice, &market_id);
    s.claim(alice, &market_id);
}
