//! What each request to the prediction market is answered, stated over its
//! inputs alone: which requests are refused, with which reason, and what an
//! accepted one stores and pays.
use vstd::prelude::*;
use crate::market::{
    claim_rule, create_market_rule, div_toward_zero, initialize_rule, payout_amount,
    place_bet_rule, resolve_market_rule, BetPlaced, Claimed, Market, MarketConfig, MarketError,
    Position,
};

verus! {

/// Each refusal is answered with its own message.
pub proof fn refusal_messages()
    ensures
        MarketError::AlreadyInitialized.text() == "already initialized"@,
        MarketError::NotInitialized.text() == "not initialized"@,
        MarketError::CloseTimeNotInFuture.text() == "close_time must be in the future"@,
        MarketError::MarketAlreadyExists.text() == "market already exists"@,
        MarketError::AmountNotPositive.text() == "amount must be positive"@,
        MarketError::MarketNotFound.text() == "market not found"@,
        MarketError::MarketAlreadyResolved.text() == "market already resolved"@,
        MarketError::MarketClosed.text() == "market closed"@,
        MarketError::MarketNotClosed.text() == "market not closed yet"@,
        MarketError::MarketNotResolved.text() == "market not resolved yet"@,
        MarketError::MissingOutcome.text() == "resolved market missing outcome"@,
        MarketError::NoPosition.text() == "no position"@,
        MarketError::AlreadyClaimed.text() == "already claimed"@,
        MarketError::ArithmeticOverflow.text() == "arithmetic overflow"@,
{
}

/// Setup happens once: it records the given admin and token unless the
/// contract is initialized already, which is refused.
pub proof fn initialize_answers<A>(already_initialized: bool, admin: A, token: A)
    ensures
        already_initialized ==> initialize_rule(already_initialized, admin, token) == Err::<
            MarketConfig<A>,
            MarketError,
        >(MarketError::AlreadyInitialized),
        !already_initialized ==> initialize_rule(already_initialized, admin, token) == Ok::<
            MarketConfig<A>,
            MarketError,
        >(MarketConfig { admin, token }),
{
}

/// A market is created exactly when its close time lies after `now` and its
/// id is unused; it then starts with empty pools, unresolved. A used id is
/// never overwritten.
pub proof fn create_market_answers<S>(
    market_exists: bool,
    satellite: S,
    station: S,
    threshold_centideg: u32,
    close_time: u64,
    now: u64,
)
    ensures
        ({
            let r = create_market_rule(
                market_exists,
                satellite,
                station,
                threshold_centideg,
                close_time,
                now,
            );
            &&& close_time <= now ==> r == Err::<Market<S>, MarketError>(
                MarketError::CloseTimeNotInFuture,
            )
            &&& (close_time > now && market_exists) ==> r == Err::<Market<S>, MarketError>(
                MarketError::MarketAlreadyExists,
            )
            &&& market_exists ==> r is Err
            &&& (close_time > now && !market_exists) ==> r == Ok::<Market<S>, MarketError>(
                Market {
                    satellite,
                    station,
                    threshold_centideg,
                    close_time,
                    yes_pool: 0,
                    no_pool: 0,
                    resolved: false,
                    outcome: None,
                },
            )
        }),
{
}

/// A bet is refused exactly when its amount is not positive, the market is
/// missing, resolved or closed, or the new pool or stake would leave `i128`;
/// otherwise the amount is added to the pool on the chosen side and to the
/// bettor's stake on that side (from a fresh position where none is
/// stored), and nothing else changes.
pub proof fn place_bet_answers<S>(
    market: Option<Market<S>>,
    position: Option<Position>,
    side: bool,
    amount: i128,
    now: u64,
)
    ensures
        ({
            let r = place_bet_rule(market, position, side, amount, now);
            let m = market->Some_0;
            let base = match position {
                Some(p) => p,
                None => Position { yes_amount: 0, no_amount: 0, claimed: false },
            };
            let pool = (if side {
                m.yes_pool
            } else {
                m.no_pool
            }) + amount;
            let stake = (if side {
                base.yes_amount
            } else {
                base.no_amount
            }) + amount;
            let fits = i128::MIN <= pool <= i128::MAX && i128::MIN <= stake <= i128::MAX;
            let open = amount > 0 && market is Some && !m.resolved && now < m.close_time;
            &&& amount <= 0 ==> r == Err::<BetPlaced<S>, MarketError>(
                MarketError::AmountNotPositive,
            )
            &&& (amount > 0 && market is None) ==> r == Err::<BetPlaced<S>, MarketError>(
                MarketError::MarketNotFound,
            )
            &&& (amount > 0 && market is Some && m.resolved) ==> r == Err::<
                BetPlaced<S>,
                MarketError,
            >(MarketError::MarketAlreadyResolved)
            &&& (amount > 0 && market is Some && !m.resolved && now >= m.close_time) ==> r
                == Err::<BetPlaced<S>, MarketError>(MarketError::MarketClosed)
            &&& (open && !fits) ==> r == Err::<BetPlaced<S>, MarketError>(
                MarketError::ArithmeticOverflow,
            )
            &&& (open && fits && side) ==> r == Ok::<BetPlaced<S>, MarketError>(
                BetPlaced {
                    market: Market { yes_pool: pool as i128, ..m },
                    position: Position { yes_amount: stake as i128, ..base },
                },
            )
            &&& (open && fits && !side) ==> r == Ok::<BetPlaced<S>, MarketError>(
                BetPlaced {
                    market: Market { no_pool: pool as i128, ..m },
                    position: Position { no_amount: stake as i128, ..base },
                },
            )
        }),
{
}

/// A market is resolved exactly when it exists, is unresolved and has
/// closed; YES wins exactly when the actual maximum elevation reaches the
/// threshold, whatever the pools hold, and nothing else changes.
pub proof fn resolve_market_answers<S>(
    market: Option<Market<S>>,
    actual_max_elevation_centideg: u32,
    now: u64,
)
    ensures
        ({
            let r = resolve_market_rule(market, actual_max_elevation_centideg, now);
            let m = market->Some_0;
            &&& market is None ==> r == Err::<Market<S>, MarketError>(
                MarketError::MarketNotFound,
            )
            &&& (market is Some && m.resolved) ==> r == Err::<Market<S>, MarketError>(
                MarketError::MarketAlreadyResolved,
            )
            &&& (market is Some && !m.resolved && now < m.close_time) ==> r == Err::<
                Market<S>,
                MarketError,
            >(MarketError::MarketNotClosed)
            &&& (market is Some && !m.resolved && now >= m.close_time) ==> r == Ok::<
                Market<S>,
                MarketError,
            >(
                Market {
                    resolved: true,
                    outcome: Some(actual_max_elevation_centideg >= m.threshold_centideg),
                    ..m
                },
            )
        }),
{
}

/// Rounding toward zero agrees with floor division on a non-negative
/// numerator and a positive divisor.
pub proof fn div_toward_zero_of_nonnegative(x: int, d: int)
    requires
        x >= 0,
        d > 0,
    ensures
        div_toward_zero(x, d) == x / d,
{
}

/// Division rounding toward zero: the quotient times the divisor never
/// exceeds the numerator in size and falls short of it by less than one
/// divisor, and a quotient that is not zero has the sign of the exact
/// quotient. These determine the quotient.
pub proof fn div_toward_zero_rounds_toward_zero(x: int, d: int)
    requires
        d != 0,
    ensures
        ({
            let q = div_toward_zero(x, d);
            let ax = if x >= 0 {
                x
            } else {
                -x
            };
            let ad = if d >= 0 {
                d
            } else {
                -d
            };
            let aq = if q >= 0 {
                q
            } else {
                -q
            };
            &&& ad * aq <= ax < ad * aq + ad
            &&& q == 0 || ((q > 0) <==> ((x > 0) == (d > 0)))
        }),
{
    let ax = if x >= 0 {
        x
    } else {
        -x
    };
    let ad = if d >= 0 {
        d
    } else {
        -d
    };
    let q0 = ax / ad;
    vstd::arithmetic::div_mod::lemma_fundamental_div_mod(ax, ad);
    assert(0 <= q0 && ad * q0 <= ax < ad * q0 + ad) by (nonlinear_arith)
        requires
            ax == ad * q0 + ax % ad,
            0 <= ax % ad < ad,
            ax >= 0,
            ad > 0,
    ;
}

/// The payout of a stake is the stake plus `stake * losing_pool /
/// winning_pool` rounded toward zero, and is missing only where one of
/// these steps leaves `i128`.
pub proof fn payout_answers(stake: i128, winning_pool: i128, losing_pool: i128)
    requires
        winning_pool != 0,
    ensures
        ({
            let product = stake * losing_pool;
            let share = div_toward_zero(product, winning_pool as int);
            let fits = i128::MIN <= product <= i128::MAX && i128::MIN <= share <= i128::MAX
                && i128::MIN <= stake + share <= i128::MAX;
            &&& fits ==> payout_amount(stake, winning_pool, losing_pool) == Some(
                (stake + share) as i128,
            )
            &&& !fits ==> payout_amount(stake, winning_pool, losing_pool) is None
        }),
{
}

/// With non-negative stakes and pools, the payout is the stake plus its
/// floor share of the losing pool whenever that fits `i128`.
pub proof fn payout_of_nonnegative_stakes(stake: i128, winning_pool: i128, losing_pool: i128)
    requires
        stake >= 0,
        winning_pool > 0,
        losing_pool >= 0,
        i128::MIN <= stake * losing_pool <= i128::MAX,
        stake + (stake * losing_pool) / (winning_pool as int) <= i128::MAX,
    ensures
        payout_amount(stake, winning_pool, losing_pool) == Some(
            (stake + (stake * losing_pool) / (winning_pool as int)) as i128,
        ),
{
    vstd::arithmetic::mul::lemma_mul_nonnegative(stake as int, losing_pool as int);
    let product = stake * losing_pool;
    vstd::arithmetic::div_mod::lemma_fundamental_div_mod(product, winning_pool as int);
    assert(product / (winning_pool as int) >= 0) by (nonlinear_arith)
        requires
            product == winning_pool * (product / (winning_pool as int)) + product % (
            winning_pool as int),
            0 <= product % (winning_pool as int) < winning_pool,
            product >= 0,
            winning_pool > 0,
    ;
    assert(product / (winning_pool as int) <= product) by (nonlinear_arith)
        requires
            product == winning_pool * (product / (winning_pool as int)) + product % (
            winning_pool as int),
            0 <= product % (winning_pool as int) < winning_pool,
            product >= 0,
            winning_pool > 0,
    ;
}

/// A claim is refused exactly when the market is missing or unresolved, has
/// no outcome, the bettor has no position or has claimed already, or the
/// payout leaves `i128`. An accepted claim marks the position claimed and
/// changes nothing else in it; it pays the stake on the outcome plus that
/// stake's share of the losing pool, `stake * losing_pool / winning_pool`
/// rounded toward zero, whatever the position holds on the losing side; a
/// position with no stake on the outcome, or a claim on an empty winning
/// pool, is settled without a transfer.
pub proof fn claim_answers<S>(market: Option<Market<S>>, position: Option<Position>)
    ensures
        ({
            let r = claim_rule(market, position);
            let m = market->Some_0;
            let o = m.outcome->Some_0;
            let p = position->Some_0;
            let stake = if o {
                p.yes_amount
            } else {
                p.no_amount
            };
            let winning_pool = if o {
                m.yes_pool
            } else {
                m.no_pool
            };
            let losing_pool = if o {
                m.no_pool
            } else {
                m.yes_pool
            };
            let settled = Position { yes_amount: p.yes_amount, no_amount: p.no_amount, claimed: true };
            let product = stake * losing_pool;
            let share = div_toward_zero(product, winning_pool as int);
            let fits = i128::MIN <= product <= i128::MAX && i128::MIN <= share <= i128::MAX
                && i128::MIN <= stake + share <= i128::MAX;
            let ready = market is Some && m.resolved && m.outcome is Some && position is Some
                && !p.claimed;
            &&& market is None ==> r == Err::<Claimed, MarketError>(MarketError::MarketNotFound)
            &&& (market is Some && !m.resolved) ==> r == Err::<Claimed, MarketError>(
                MarketError::MarketNotResolved,
            )
            &&& (market is Some && m.resolved && m.outcome is None) ==> r == Err::<
                Claimed,
                MarketError,
            >(MarketError::MissingOutcome)
            &&& (market is Some && m.resolved && m.outcome is Some && position is None) ==> r
                == Err::<Claimed, MarketError>(MarketError::NoPosition)
            &&& (market is Some && m.resolved && m.outcome is Some && position is Some
                && p.claimed) ==> r == Err::<Claimed, MarketError>(MarketError::AlreadyClaimed)
            &&& (ready && (stake == 0 || winning_pool == 0)) ==> r == Ok::<Claimed, MarketError>(
                Claimed { position: settled, payout: None },
            )
            &&& (ready && stake != 0 && winning_pool != 0 && fits) ==> r == Ok::<
                Claimed,
                MarketError,
            >(Claimed { position: settled, payout: Some((stake + share) as i128) })
            &&& (ready && stake != 0 && winning_pool != 0 && !fits) ==> r == Err::<
                Claimed,
                MarketError,
            >(MarketError::ArithmeticOverflow)
        }),
{
}

} // verus!
