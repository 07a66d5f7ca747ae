//! Properties of the prediction market that span several requests: what one
//! accepted request means for the next, and that the pools always fund the
//! payouts.
use vstd::prelude::*;
use vstd::arithmetic::div_mod::{lemma_div_by_multiple, lemma_fundamental_div_mod};
use vstd::arithmetic::mul::{lemma_mul_is_distributive_add_other_way, lemma_mul_nonnegative};
use crate::market::{
    claim_rule, place_bet_rule, resolve_market_rule, Claimed, Market, MarketError, Position,
};

verus! {

/// The sum of the stakes on `side` over a list of positions.
pub open spec fn total_stake(positions: Seq<Position>, side: bool) -> int
    decreases positions.len(),
{
    if positions.len() == 0 {
        0
    } else {
        total_stake(positions.drop_last(), side) + positions.last().stake_on(side)
    }
}

/// What claiming `position` in `market` pays out (nothing where the claim is
/// refused or makes no transfer).
pub open spec fn paid_out<S>(market: Market<S>, position: Position) -> int {
    match claim_rule(Some(market), Some(position)) {
        Ok(c) => match c.payout {
            Some(x) => x as int,
            None => 0,
        },
        Err(_) => 0,
    }
}

/// What claiming every position of a list once pays out in all.
pub open spec fn total_paid_out<S>(market: Market<S>, positions: Seq<Position>) -> int
    decreases positions.len(),
{
    if positions.len() == 0 {
        0
    } else {
        total_paid_out(market, positions.drop_last()) + paid_out(market, positions.last())
    }
}

/// No stake in the list is negative.
pub open spec fn stakes_nonnegative(positions: Seq<Position>) -> bool {
    forall|i: int|
        0 <= i < positions.len() ==> #[trigger] positions[i].yes_amount >= 0
            && positions[i].no_amount >= 0
}

/// The pools of `market` hold exactly the stakes of `positions`.
pub open spec fn pools_match<S>(market: Market<S>, positions: Seq<Position>) -> bool {
    &&& market.yes_pool == total_stake(positions, true)
    &&& market.no_pool == total_stake(positions, false)
}

/// A settled position cannot be claimed again: once a claim is accepted,
/// claiming the position it stores is refused with `AlreadyClaimed`.
pub proof fn claim_settles_once<S>(market: Market<S>, position: Position)
    requires
        claim_rule(Some(market), Some(position)) is Ok,
    ensures
        claim_rule(Some(market), Some(claim_rule(Some(market), Some(position))->Ok_0.position))
            == Err::<Claimed, MarketError>(MarketError::AlreadyClaimed),
{
}

/// Nothing is paid out before resolution: a claim on a market that is not
/// resolved is refused with `MarketNotResolved`.
pub proof fn claims_wait_for_resolution<S>(market: Market<S>, position: Option<Position>)
    requires
        !market.resolved,
    ensures
        claim_rule(Some(market), position) == Err::<Claimed, MarketError>(
            MarketError::MarketNotResolved,
        ),
{
}

/// A market resolves once: after an accepted resolution, every further
/// resolution is refused with `MarketAlreadyResolved`, and so is every bet.
pub proof fn resolution_is_final<S>(
    market: Market<S>,
    actual: u32,
    now: u64,
    later_actual: u32,
    later_now: u64,
    position: Option<Position>,
    side: bool,
    amount: i128,
)
    requires
        resolve_market_rule(Some(market), actual, now) is Ok,
    ensures
        ({
            let resolved = resolve_market_rule(Some(market), actual, now)->Ok_0;
            &&& resolve_market_rule(Some(resolved), later_actual, later_now) == Err::<
                Market<S>,
                MarketError,
            >(MarketError::MarketAlreadyResolved)
            &&& place_bet_rule(Some(resolved), position, side, amount, later_now) is Err
        }),
{
}

/// Resolution moves no stake: the resolved market's pools hold the same
/// stakes as before, and a well-formed market stays well-formed.
pub proof fn resolution_keeps_pools_matched<S>(
    market: Market<S>,
    positions: Seq<Position>,
    actual: u32,
    now: u64,
)
    requires
        pools_match(market, positions),
        resolve_market_rule(Some(market), actual, now) is Ok,
    ensures
        pools_match(resolve_market_rule(Some(market), actual, now)->Ok_0, positions),
        market.well_formed() ==> resolve_market_rule(Some(market), actual, now)->Ok_0.well_formed(),
{
}

/// Bets are taken only while the market is open: at or after `close_time` a
/// bet is refused.
pub proof fn no_bets_after_close<S>(
    market: Market<S>,
    position: Option<Position>,
    side: bool,
    amount: i128,
    now: u64,
)
    requires
        now >= market.close_time,
    ensures
        place_bet_rule(Some(market), position, side, amount, now) is Err,
{
}

/// Losers get nothing: a position with no stake on the winning side is
/// settled without a transfer.
pub proof fn losers_get_nothing<S>(market: Market<S>, position: Position)
    requires
        market.resolved,
        market.outcome is Some,
        !position.claimed,
        position.stake_on(market.outcome->Some_0) == 0,
    ensures
        claim_rule(Some(market), Some(position)) == Ok::<Claimed, MarketError>(
            Claimed { position: Position { claimed: true, ..position }, payout: None },
        ),
{
}

/// Winners get their stake back and more: a positive winning stake, held in
/// the winning pool of a well-formed market, is paid out at least in full.
pub proof fn winners_get_stake_back<S>(market: Market<S>, position: Position)
    requires
        market.well_formed(),
        market.resolved,
        position.stake_on(market.outcome->Some_0) > 0,
        market.pool_on(market.outcome->Some_0) >= position.stake_on(market.outcome->Some_0),
        claim_rule(Some(market), Some(position)) is Ok,
    ensures
        claim_rule(Some(market), Some(position))->Ok_0.payout is Some,
        claim_rule(Some(market), Some(position))->Ok_0.payout->Some_0 >= position.stake_on(
            market.outcome->Some_0,
        ),
{
    let o = market.outcome->Some_0;
    let w = position.stake_on(o) as int;
    let wp = market.pool_on(o) as int;
    let lp = market.pool_on(!o) as int;
    lemma_mul_nonnegative(w, lp);
    lemma_div_nonnegative(w * lp, wp);
}

proof fn lemma_div_nonnegative(a: int, d: int)
    requires
        a >= 0,
        d > 0,
    ensures
        a / d >= 0,
{
    lemma_fundamental_div_mod(a, d);
    assert(a / d >= 0) by (nonlinear_arith)
        requires
            a == d * (a / d) + a % d,
            0 <= a % d < d,
            a >= 0,
            d > 0,
    ;
}

/// Rounded-down shares never add up to more than the rounded-down whole.
proof fn lemma_div_superadditive(a: int, b: int, d: int)
    requires
        a >= 0,
        b >= 0,
        d > 0,
    ensures
        a / d + b / d <= (a + b) / d,
{
    lemma_fundamental_div_mod(a, d);
    lemma_fundamental_div_mod(b, d);
    lemma_fundamental_div_mod(a + b, d);
    let qa = a / d;
    let qb = b / d;
    let q = (a + b) / d;
    assert(qa + qb <= q) by (nonlinear_arith)
        requires
            a == d * qa + a % d,
            b == d * qb + b % d,
            a + b == d * q + (a + b) % d,
            0 <= a % d < d,
            0 <= b % d < d,
            0 <= (a + b) % d < d,
            d > 0,
    ;
}

/// What one position is paid is at most its winning stake plus that stake's
/// exact share of the losing pool, rounded down.
proof fn lemma_paid_out_bound<S>(market: Market<S>, position: Position)
    requires
        market.well_formed(),
        market.resolved,
        position.yes_amount >= 0,
        position.no_amount >= 0,
        market.pool_on(market.outcome->Some_0) > 0,
    ensures
        ({
            let o = market.outcome->Some_0;
            let w = position.stake_on(o) as int;
            &&& 0 <= paid_out(market, position)
            &&& paid_out(market, position) <= w + (w * market.pool_on(!o)) / (market.pool_on(
                o,
            ) as int)
        }),
{
    let o = market.outcome->Some_0;
    let w = position.stake_on(o) as int;
    let wp = market.pool_on(o) as int;
    let lp = market.pool_on(!o) as int;
    lemma_mul_nonnegative(w, lp);
    lemma_div_nonnegative(w * lp, wp);
}

/// The sum over a list of what its positions are paid stays within the
/// list's winning stakes plus their share of the losing pool.
proof fn lemma_total_paid_out_bound<S>(market: Market<S>, positions: Seq<Position>)
    requires
        market.well_formed(),
        market.resolved,
        stakes_nonnegative(positions),
        market.pool_on(market.outcome->Some_0) > 0,
    ensures
        ({
            let o = market.outcome->Some_0;
            let s = total_stake(positions, o);
            &&& 0 <= s
            &&& total_paid_out(market, positions) <= s + (s * market.pool_on(!o)) / (
            market.pool_on(o) as int)
        }),
    decreases positions.len(),
{
    if positions.len() > 0 {
        let o = market.outcome->Some_0;
        let wp = market.pool_on(o) as int;
        let lp = market.pool_on(!o) as int;
        let init = positions.drop_last();
        let last = positions.last();
        assert(stakes_nonnegative(init)) by {
            assert forall|i: int| 0 <= i < init.len() implies #[trigger] init[i].yes_amount >= 0
                && init[i].no_amount >= 0 by {
                assert(init[i] == positions[i]);
            }
        }
        assert(last == positions[positions.len() - 1]);
        lemma_total_paid_out_bound(market, init);
        lemma_paid_out_bound(market, last);
        let s0 = total_stake(init, o);
        let w = last.stake_on(o) as int;
        lemma_mul_nonnegative(s0, lp);
        lemma_mul_nonnegative(w, lp);
        lemma_div_superadditive(s0 * lp, w * lp, wp);
        lemma_mul_is_distributive_add_other_way(lp, s0, w);
    }
}

/// The pools fund every payout: in a resolved market whose pools hold
/// exactly the (non-negative) stakes of its positions, claiming every
/// position pays out no more than the two pools together.
pub proof fn payouts_within_pools<S>(market: Market<S>, positions: Seq<Position>)
    requires
        market.well_formed(),
        market.resolved,
        stakes_nonnegative(positions),
        pools_match(market, positions),
    ensures
        total_paid_out(market, positions) <= market.yes_pool + market.no_pool,
{
    let o = market.outcome->Some_0;
    let wp = market.pool_on(o) as int;
    let lp = market.pool_on(!o) as int;
    if wp > 0 {
        lemma_total_paid_out_bound(market, positions);
        lemma_div_by_multiple(lp, wp);
        assert(wp * lp == lp * wp) by (nonlinear_arith);
    } else {
        lemma_nothing_paid_from_empty_pool(market, positions);
    }
}

/// Where the winning pool is empty, nobody is paid.
proof fn lemma_nothing_paid_from_empty_pool<S>(market: Market<S>, positions: Seq<Position>)
    requires
        market.resolved,
        market.outcome is Some,
        market.pool_on(market.outcome->Some_0) == 0,
    ensures
        total_paid_out(market, positions) == 0,
    decreases positions.len(),
{
    if positions.len() > 0 {
        lemma_nothing_paid_from_empty_pool(market, positions.drop_last());
    }
}

/// Replacing one position changes the total stake by the difference.
proof fn lemma_total_stake_update(positions: Seq<Position>, i: int, p: Position, side: bool)
    requires
        0 <= i < positions.len(),
    ensures
        total_stake(positions.update(i, p), side) == total_stake(positions, side)
            - positions[i].stake_on(side) + p.stake_on(side),
    decreases positions.len(),
{
    let updated = positions.update(i, p);
    if i == positions.len() - 1 {
        assert(updated.drop_last() =~= positions.drop_last());
    } else {
        assert(updated.drop_last() =~= positions.drop_last().update(i, p));
        lemma_total_stake_update(positions.drop_last(), i, p, side);
    }
}

/// Accepted bets keep the books balanced: if the pools hold exactly the
/// stakes of the market's positions before a bet by the bettor at index `i`
/// (or, for `i == positions.len()`, by a bettor with no position yet), they
/// hold exactly the stakes of the updated positions after it, and no stake
/// becomes negative.
pub proof fn bet_keeps_pools_matched<S>(
    market: Market<S>,
    positions: Seq<Position>,
    i: int,
    side: bool,
    amount: i128,
    now: u64,
)
    requires
        0 <= i <= positions.len(),
        pools_match(market, positions),
        stakes_nonnegative(positions),
        place_bet_rule(
            Some(market),
            if i < positions.len() {
                Some(positions[i])
            } else {
                None
            },
            side,
            amount,
            now,
        ) is Ok,
    ensures
        ({
            let placed = place_bet_rule(
                Some(market),
                if i < positions.len() {
                    Some(positions[i])
                } else {
                    None
                },
                side,
                amount,
                now,
            )->Ok_0;
            let after = if i < positions.len() {
                positions.update(i, placed.position)
            } else {
                positions.push(placed.position)
            };
            &&& pools_match(placed.market, after)
            &&& stakes_nonnegative(after)
        }),
{
    let placed = place_bet_rule(
        Some(market),
        if i < positions.len() {
            Some(positions[i])
        } else {
            None
        },
        side,
        amount,
        now,
    )->Ok_0;
    if i < positions.len() {
        lemma_total_stake_update(positions, i, placed.position, true);
        lemma_total_stake_update(positions, i, placed.position, false);
    } else {
        assert(positions.push(placed.position).drop_last() =~= positions);
    }
}

} // verus!
