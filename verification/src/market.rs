//! Binary prediction markets on satellite passes.
//!
//! A market asks "will the satellite's maximum elevation over the station reach
//! `threshold_centideg` by `close_time`?". Bettors stake on YES (`true`) or NO
//! (`false`) while the market is open; once it has closed the oracle resolves
//! it, and every winner claims its stake back plus a pro-rata share of the
//! losing pool.
//!
//! Each operation here is the decision the contract makes on one request: it
//! takes the records the contract has stored (or `None` where nothing is
//! stored), the request and the ledger time, and returns the records to store
//! (and the payout to make), or the reason the request is refused.
use vstd::prelude::*;

verus! {

/// Why a request to the prediction market is refused.
#[derive(Clone, Copy, Debug, PartialEq, Eq, Structural)]
pub enum MarketError {
    AlreadyInitialized,
    NotInitialized,
    CloseTimeNotInFuture,
    MarketAlreadyExists,
    AmountNotPositive,
    MarketNotFound,
    MarketAlreadyResolved,
    MarketClosed,
    MarketNotClosed,
    MarketNotResolved,
    MissingOutcome,
    NoPosition,
    AlreadyClaimed,
    ArithmeticOverflow,
}

impl MarketError {
    /// The message the contract aborts with for this refusal.
    pub open spec fn text(self) -> Seq<char> {
        match self {
            MarketError::AlreadyInitialized => "already initialized"@,
            MarketError::NotInitialized => "not initialized"@,
            MarketError::CloseTimeNotInFuture => "close_time must be in the future"@,
            MarketError::MarketAlreadyExists => "market already exists"@,
            MarketError::AmountNotPositive => "amount must be positive"@,
            MarketError::MarketNotFound => "market not found"@,
            MarketError::MarketAlreadyResolved => "market already resolved"@,
            MarketError::MarketClosed => "market closed"@,
            MarketError::MarketNotClosed => "market not closed yet"@,
            MarketError::MarketNotResolved => "market not resolved yet"@,
            MarketError::MissingOutcome => "resolved market missing outcome"@,
            MarketError::NoPosition => "no position"@,
            MarketError::AlreadyClaimed => "already claimed"@,
            MarketError::ArithmeticOverflow => "arithmetic overflow"@,
        }
    }

    pub fn message(&self) -> (s: &'static str)
        ensures
            s@ == self.text(),
    {
        match self {
            MarketError::AlreadyInitialized => "already initialized",
            MarketError::NotInitialized => "not initialized",
            MarketError::CloseTimeNotInFuture => "close_time must be in the future",
            MarketError::MarketAlreadyExists => "market already exists",
            MarketError::AmountNotPositive => "amount must be positive",
            MarketError::MarketNotFound => "market not found",
            MarketError::MarketAlreadyResolved => "market already resolved",
            MarketError::MarketClosed => "market closed",
            MarketError::MarketNotClosed => "market not closed yet",
            MarketError::MarketNotResolved => "market not resolved yet",
            MarketError::MissingOutcome => "resolved market missing outcome",
            MarketError::NoPosition => "no position",
            MarketError::AlreadyClaimed => "already claimed",
            MarketError::ArithmeticOverflow => "arithmetic overflow",
        }
    }
}

/// Whether a mathematical integer fits in an `i128`.
pub open spec fn fits_i128(v: int) -> bool {
    i128::MIN <= v <= i128::MAX
}

/// Integer division rounding toward zero, as `/` does on `i128`.
pub open spec fn div_toward_zero(x: int, d: int) -> int
    recommends
        d != 0,
{
    let q = abs(x) / abs(d);
    if (x >= 0) == (d > 0) {
        q
    } else {
        -q
    }
}

pub open spec fn abs(x: int) -> int {
    if x >= 0 {
        x
    } else {
        -x
    }
}

/// One bettor's stakes in one market.
#[derive(Clone, Copy, Debug, PartialEq, Eq, Structural)]
pub struct Position {
    pub yes_amount: i128,
    pub no_amount: i128,
    pub claimed: bool,
}

impl Position {
    /// The position of a bettor who has not bet yet.
    pub open spec fn fresh() -> Position {
        Position { yes_amount: 0, no_amount: 0, claimed: false }
    }

    /// The stake on `side` (`true` is YES).
    pub open spec fn stake_on(self, side: bool) -> i128 {
        if side {
            self.yes_amount
        } else {
            self.no_amount
        }
    }

    /// This position with the stake on `side` set to `amount`.
    pub open spec fn with_stake(self, side: bool, amount: i128) -> Position {
        if side {
            Position { yes_amount: amount, ..self }
        } else {
            Position { no_amount: amount, ..self }
        }
    }
}

impl Default for Position {
    fn default() -> (p: Position)
        ensures
            p == Position::fresh(),
    {
        Position { yes_amount: 0, no_amount: 0, claimed: false }
    }
}

/// A binary market; `S` is the type of the satellite and station names,
/// which the market carries without reading them.
#[derive(Clone, Debug, PartialEq, Eq)]
pub struct Market<S> {
    pub satellite: S,
    pub station: S,
    pub threshold_centideg: u32,
    pub close_time: u64,
    pub yes_pool: i128,
    pub no_pool: i128,
    pub resolved: bool,
    pub outcome: Option<bool>,
}

impl<S> Market<S> {
    /// The pool of the stakes on `side` (`true` is YES).
    pub open spec fn pool_on(self, side: bool) -> i128 {
        if side {
            self.yes_pool
        } else {
            self.no_pool
        }
    }

    /// This market with the pool on `side` set to `amount`.
    pub open spec fn with_pool(self, side: bool, amount: i128) -> Market<S> {
        if side {
            Market { yes_pool: amount, ..self }
        } else {
            Market { no_pool: amount, ..self }
        }
    }

    /// What every market the contract stores satisfies: the pools are not
    /// negative, and a market has an outcome exactly when it is resolved.
    pub open spec fn well_formed(self) -> bool {
        &&& self.yes_pool >= 0
        &&& self.no_pool >= 0
        &&& self.resolved <==> self.outcome is Some
    }
}

/// The admin and the token that one call of `initialize` records.
#[derive(Clone, Debug, PartialEq, Eq)]
pub struct MarketConfig<A> {
    pub admin: A,
    pub token: A,
}

/// What the contract stores after an accepted bet; the stake itself moves
/// from the bettor to the contract.
#[derive(Clone, Debug, PartialEq, Eq)]
pub struct BetPlaced<S> {
    pub market: Market<S>,
    pub position: Position,
}

/// What the contract stores after an accepted claim, and what it pays out
/// (`None`: no transfer is made).
#[derive(Clone, Copy, Debug, PartialEq, Eq, Structural)]
pub struct Claimed {
    pub position: Position,
    pub payout: Option<i128>,
}

/// The marker type of the prediction-market contract; its associated
/// functions are the contract's rules.
pub struct PredictionMarketContract;

// ---------------------------------------------------------------------------
// The rules, as spec functions.
// ---------------------------------------------------------------------------

/// The rule of `initialize`.
pub open spec fn initialize_rule<A>(already_initialized: bool, admin: A, token: A) -> Result<
    MarketConfig<A>,
    MarketError,
> {
    if already_initialized {
        Err(MarketError::AlreadyInitialized)
    } else {
        Ok(MarketConfig { admin, token })
    }
}

/// A newly created market: empty pools, not resolved.
pub open spec fn new_market<S>(satellite: S, station: S, threshold_centideg: u32, close_time: u64) -> Market<S> {
    Market {
        satellite,
        station,
        threshold_centideg,
        close_time,
        yes_pool: 0,
        no_pool: 0,
        resolved: false,
        outcome: None,
    }
}

/// The rule of `create_market`.
pub open spec fn create_market_rule<S>(
    market_exists: bool,
    satellite: S,
    station: S,
    threshold_centideg: u32,
    close_time: u64,
    now: u64,
) -> Result<Market<S>, MarketError> {
    if close_time <= now {
        Err(MarketError::CloseTimeNotInFuture)
    } else if market_exists {
        Err(MarketError::MarketAlreadyExists)
    } else {
        Ok(new_market(satellite, station, threshold_centideg, close_time))
    }
}

/// The rule of `place_bet`: the stake is added to the market's pool on `side`
/// and to the bettor's stake on `side` (a bettor with no stored position
/// starts from a fresh one).
pub open spec fn place_bet_rule<S>(
    market: Option<Market<S>>,
    position: Option<Position>,
    side: bool,
    amount: i128,
    now: u64,
) -> Result<BetPlaced<S>, MarketError> {
    if amount <= 0 {
        Err(MarketError::AmountNotPositive)
    } else {
        match market {
            None => Err(MarketError::MarketNotFound),
            Some(m) => {
                if m.resolved {
                    Err(MarketError::MarketAlreadyResolved)
                } else if now >= m.close_time {
                    Err(MarketError::MarketClosed)
                } else {
                    let p = match position {
                        Some(p) => p,
                        None => Position::fresh(),
                    };
                    let pool = m.pool_on(side) + amount;
                    let stake = p.stake_on(side) + amount;
                    if !fits_i128(pool) || !fits_i128(stake) {
                        Err(MarketError::ArithmeticOverflow)
                    } else {
                        Ok(
                            BetPlaced {
                                market: m.with_pool(side, pool as i128),
                                position: p.with_stake(side, stake as i128),
                            },
                        )
                    }
                }
            },
        }
    }
}

/// The rule of `resolve_market`: YES wins exactly when the actual maximum
/// elevation reaches the threshold.
pub open spec fn resolve_market_rule<S>(
    market: Option<Market<S>>,
    actual_max_elevation_centideg: u32,
    now: u64,
) -> Result<Market<S>, MarketError> {
    match market {
        None => Err(MarketError::MarketNotFound),
        Some(m) => {
            if m.resolved {
                Err(MarketError::MarketAlreadyResolved)
            } else if now < m.close_time {
                Err(MarketError::MarketNotClosed)
            } else {
                Ok(
                    Market {
                        resolved: true,
                        outcome: Some(actual_max_elevation_centideg >= m.threshold_centideg),
                        ..m
                    },
                )
            }
        },
    }
}

/// The payout of a winning stake: the stake plus its pro-rata share of the
/// losing pool, `stake + stake * losing_pool / winning_pool` with the
/// division rounded toward zero; `None` where a step leaves `i128`.
pub open spec fn payout_amount(stake: i128, winning_pool: i128, losing_pool: i128) -> Option<i128> {
    let product = stake * losing_pool;
    if !fits_i128(product) {
        None
    } else {
        let share = div_toward_zero(product, winning_pool as int);
        if !fits_i128(share) || !fits_i128(stake + share) {
            None
        } else {
            Some((stake + share) as i128)
        }
    }
}

/// The rule of `claim`: the position is marked claimed; a winning stake in a
/// winning pool that is not empty is paid out, any other position gets
/// nothing.
pub open spec fn claim_rule<S>(market: Option<Market<S>>, position: Option<Position>) -> Result<
    Claimed,
    MarketError,
> {
    match market {
        None => Err(MarketError::MarketNotFound),
        Some(m) => {
            if !m.resolved {
                Err(MarketError::MarketNotResolved)
            } else {
                match m.outcome {
                    None => Err(MarketError::MissingOutcome),
                    Some(outcome) => {
                        match position {
                            None => Err(MarketError::NoPosition),
                            Some(p) => {
                                if p.claimed {
                                    Err(MarketError::AlreadyClaimed)
                                } else {
                                    let settled = Position { claimed: true, ..p };
                                    let stake = p.stake_on(outcome);
                                    let winning_pool = m.pool_on(outcome);
                                    if stake == 0 || winning_pool == 0 {
                                        Ok(Claimed { position: settled, payout: None })
                                    } else {
                                        match payout_amount(
                                            stake,
                                            winning_pool,
                                            m.pool_on(!outcome),
                                        ) {
                                            None => Err(MarketError::ArithmeticOverflow),
                                            Some(x) => Ok(
                                                Claimed { position: settled, payout: Some(x) },
                                            ),
                                        }
                                    }
                                }
                            },
                        }
                    },
                }
            }
        },
    }
}

// ---------------------------------------------------------------------------
// The contract's operations.
// ---------------------------------------------------------------------------

impl PredictionMarketContract {
    /// One-time setup: records the admin and the token used to escrow and pay
    /// out bets, unless the contract is initialized already.
    pub fn initialize<A>(already_initialized: bool, admin: A, native_token: A) -> (r: Result<
        MarketConfig<A>,
        MarketError,
    >)
        ensures
            r == initialize_rule(already_initialized, admin, native_token),
            r is Err <==> already_initialized,
    {
        if already_initialized {
            Err(MarketError::AlreadyInitialized)
        } else {
            Ok(MarketConfig { admin, token: native_token })
        }
    }

    /// Creates a market that closes at `close_time`, which must lie after
    /// `now`; a market id is used at most once.
    pub fn create_market<S>(
        market_exists: bool,
        satellite: S,
        station: S,
        threshold_centideg: u32,
        close_time: u64,
        now: u64,
    ) -> (r: Result<Market<S>, MarketError>)
        ensures
            r == create_market_rule(
                market_exists,
                satellite,
                station,
                threshold_centideg,
                close_time,
                now,
            ),
            r is Ok ==> r->Ok_0.well_formed() && r->Ok_0.yes_pool == 0 && r->Ok_0.no_pool == 0
                && !r->Ok_0.resolved,
    {
        if close_time <= now {
            return Err(MarketError::CloseTimeNotInFuture);
        }
        if market_exists {
            return Err(MarketError::MarketAlreadyExists);
        }
        Ok(
            Market {
                satellite,
                station,
                threshold_centideg,
                close_time,
                yes_pool: 0,
                no_pool: 0,
                resolved: false,
                outcome: None,
            },
        )
    }

    /// Places a bet of `amount` on `side` (`true` is YES) at ledger time
    /// `now`, given the stored market and the bettor's stored position.
    pub fn place_bet<S>(
        market: Option<Market<S>>,
        position: Option<Position>,
        side: bool,
        amount: i128,
        now: u64,
    ) -> (r: Result<BetPlaced<S>, MarketError>)
        ensures
            r == place_bet_rule(market, position, side, amount, now),
            r is Ok ==> {
                let m = market->Some_0;
                let placed = r->Ok_0;
                &&& market is Some
                &&& !m.resolved && now < m.close_time && amount > 0
                &&& placed.market.pool_on(side) == m.pool_on(side) + amount
                &&& placed.market.pool_on(!side) == m.pool_on(!side)
                &&& (m.well_formed() ==> placed.market.well_formed())
            },
    {
        if amount <= 0 {
            return Err(MarketError::AmountNotPositive);
        }
        let m = match market {
            None => {
                return Err(MarketError::MarketNotFound);
            },
            Some(m) => m,
        };
        if m.resolved {
            return Err(MarketError::MarketAlreadyResolved);
        }
        if now >= m.close_time {
            return Err(MarketError::MarketClosed);
        }
        let p = match position {
            Some(p) => p,
            None => Position::default(),
        };
        if side {
            let pool = match m.yes_pool.checked_add(amount) {
                Some(v) => v,
                None => {
                    return Err(MarketError::ArithmeticOverflow);
                },
            };
            let stake = match p.yes_amount.checked_add(amount) {
                Some(v) => v,
                None => {
                    return Err(MarketError::ArithmeticOverflow);
                },
            };
            Ok(
                BetPlaced {
                    market: Market { yes_pool: pool, ..m },
                    position: Position { yes_amount: stake, ..p },
                },
            )
        } else {
            let pool = match m.no_pool.checked_add(amount) {
                Some(v) => v,
                None => {
                    return Err(MarketError::ArithmeticOverflow);
                },
            };
            let stake = match p.no_amount.checked_add(amount) {
                Some(v) => v,
                None => {
                    return Err(MarketError::ArithmeticOverflow);
                },
            };
            Ok(
                BetPlaced {
                    market: Market { no_pool: pool, ..m },
                    position: Position { no_amount: stake, ..p },
                },
            )
        }
    }

    /// Resolves a closed market from the actual maximum elevation.
    pub fn resolve_market<S>(
        market: Option<Market<S>>,
        actual_max_elevation_centideg: u32,
        now: u64,
    ) -> (r: Result<Market<S>, MarketError>)
        ensures
            r == resolve_market_rule(market, actual_max_elevation_centideg, now),
            r is Ok ==> {
                let m = market->Some_0;
                &&& market is Some && !m.resolved && now >= m.close_time
                &&& r->Ok_0.resolved
                &&& r->Ok_0.outcome == Some(actual_max_elevation_centideg >= m.threshold_centideg)
                &&& (m.well_formed() ==> r->Ok_0.well_formed())
            },
    {
        let m = match market {
            None => {
                return Err(MarketError::MarketNotFound);
            },
            Some(m) => m,
        };
        if m.resolved {
            return Err(MarketError::MarketAlreadyResolved);
        }
        if now < m.close_time {
            return Err(MarketError::MarketNotClosed);
        }
        let outcome = actual_max_elevation_centideg >= m.threshold_centideg;
        Ok(Market { resolved: true, outcome: Some(outcome), ..m })
    }

    /// The payout of a winning stake; `None` where the arithmetic leaves
    /// `i128`.
    pub fn payout(stake: i128, winning_pool: i128, losing_pool: i128) -> (r: Option<i128>)
        requires
            winning_pool != 0,
        ensures
            r == payout_amount(stake, winning_pool, losing_pool),
    {
        let product = match stake.checked_mul(losing_pool) {
            Some(v) => v,
            None => {
                return None;
            },
        };
        let share = match product.checked_div(winning_pool) {
            Some(v) => v,
            None => {
                return None;
            },
        };
        stake.checked_add(share)
    }

    /// Settles a position in a resolved market.
    pub fn claim<S>(market: &Option<Market<S>>, position: Option<Position>) -> (r: Result<
        Claimed,
        MarketError,
    >)
        ensures
            r == claim_rule(*market, position),
    {
        let m = match market {
            None => {
                return Err(MarketError::MarketNotFound);
            },
            Some(m) => m,
        };
        if !m.resolved {
            return Err(MarketError::MarketNotResolved);
        }
        let outcome = match m.outcome {
            None => {
                return Err(MarketError::MissingOutcome);
            },
            Some(o) => o,
        };
        let p = match position {
            None => {
                return Err(MarketError::NoPosition);
            },
            Some(p) => p,
        };
        if p.claimed {
            return Err(MarketError::AlreadyClaimed);
        }
        let settled = Position { claimed: true, ..p };
        let (stake, winning_pool, losing_pool) = if outcome {
            (p.yes_amount, m.yes_pool, m.no_pool)
        } else {
            (p.no_amount, m.no_pool, m.yes_pool)
        };
        if stake == 0 || winning_pool == 0 {
            return Ok(Claimed { position: settled, payout: None });
        }
        match Self::payout(stake, winning_pool, losing_pool) {
            None => Err(MarketError::ArithmeticOverflow),
            Some(x) => Ok(Claimed { position: settled, payout: Some(x) }),
        }
    }

    /// The stored market, or `MarketNotFound`.
    pub fn get_market<S>(stored: Option<Market<S>>) -> (r: Result<Market<S>, MarketError>)
        ensures
            match stored {
                Some(m) => r == Ok::<Market<S>, MarketError>(m),
                None => r == Err::<Market<S>, MarketError>(MarketError::MarketNotFound),
            },
    {
        match stored {
            Some(m) => Ok(m),
            None => Err(MarketError::MarketNotFound),
        }
    }

    /// The stored position, or a fresh one where the bettor has none.
    pub fn get_position(stored: Option<Position>) -> (p: Position)
        ensures
            p == (match stored {
                Some(s) => s,
                None => Position::fresh(),
            }),
    {
        match stored {
            Some(s) => s,
            None => Position::default(),
        }
    }
}

} // verus!
