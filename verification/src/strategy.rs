//! Entry and exit rule for OKX long / Bybit short.
use vstd::prelude::*;

use std::time::{Duration, SystemTime, SystemTimeError, UNIX_EPOCH};

use crate::decimal::{signed_units, value, Fixed, ONE};
use crate::model::{Quote, Signal, State};

verus! {

/// A quote older than this many milliseconds is not traded on.
pub const MAX_QUOTE_AGE_MS: i64 = 300;

/// The two venues' timestamps must differ by less than this many milliseconds.
pub const MAX_SKEW_MS: i64 = 80;

/// Both legs need at least this many coins at the touch.
pub const MIN_DEPTH_COINS: u64 = 10;

pub open spec fn too_old(ts: i64, now: int) -> bool {
    now - ts > MAX_QUOTE_AGE_MS
}

/// The two timestamps lie less than `MAX_SKEW_MS` apart.
pub open spec fn in_sync(a: i64, b: i64) -> bool {
    -MAX_SKEW_MS < a - b < MAX_SKEW_MS
}

/// `(bid - ask) / ask > 0.5%`, divided as floats divide: by a zero `ask`
/// the quotient is infinite, with the sign of `bid` times that of the zero,
/// and undefined (never above anything) when `bid` is zero as well.
pub open spec fn entry_spread_reached(bid: Fixed, ask: Fixed) -> bool {
    let b = value(bid);
    let a = value(ask);
    if a > 0 {
        1000 * (b - a) > 5 * a
    } else if a < 0 {
        1000 * (b - a) < 5 * a
    } else if ask.negative {
        b < 0
    } else {
        b > 0
    }
}

/// `(ask - bid) / bid <= 0.03%`, divided as floats divide (see
/// [`entry_spread_reached`]).
pub open spec fn exit_spread_reached(ask: Fixed, bid: Fixed) -> bool {
    let k = value(ask);
    let d = value(bid);
    if d > 0 {
        10000 * (k - d) <= 3 * d
    } else if d < 0 {
        10000 * (k - d) >= 3 * d
    } else if bid.negative {
        k > 0
    } else {
        k < 0
    }
}

/// OKX offers at least ten coins (contracts times `ct_mult`) and Bybit bids
/// at least ten coins.
pub open spec fn deep_enough(okx: Quote, bybit: Quote, ct_mult: Fixed) -> bool {
    &&& value(okx.ask_sz) * value(ct_mult) >= MIN_DEPTH_COINS * ONE * ONE
    &&& value(bybit.bid_sz) >= MIN_DEPTH_COINS * ONE
}

/// The signal for two quotes seen at time `now` (milliseconds).
pub open spec fn signal_for(okx: Quote, bybit: Quote, ct_mult: Fixed, state: State, now: int) -> Option<
    Signal,
> {
    if too_old(okx.ts, now) || too_old(bybit.ts, now) || !in_sync(okx.ts, bybit.ts) {
        None
    } else {
        match state {
            State::Idle => if deep_enough(okx, bybit, ct_mult) && entry_spread_reached(
                bybit.bid_px,
                okx.ask_px,
            ) {
                Some(Signal::OpenOkxLongBybitShort)
            } else {
                None
            },
            State::Opened => if exit_spread_reached(bybit.ask_px, okx.bid_px) {
                Some(Signal::Close)
            } else {
                None
            },
        }
    }
}

/// The signal given the time `now` in milliseconds since the Unix epoch.
pub fn strategy_at(okx: &Quote, bybit: &Quote, ct_mult: Fixed, state: &State, now: u64) -> (r:
    Option<Signal>)
    ensures
        r == signal_for(*okx, *bybit, ct_mult, *state, now as int),
{
    let now_wide: i128 = now as i128;
    if now_wide - (okx.ts as i128) > MAX_QUOTE_AGE_MS as i128 {
        return None;
    }
    if now_wide - (bybit.ts as i128) > MAX_QUOTE_AGE_MS as i128 {
        return None;
    }
    let skew: i128 = (okx.ts as i128) - (bybit.ts as i128);
    if skew >= MAX_SKEW_MS as i128 || skew <= -(MAX_SKEW_MS as i128) {
        return None;
    }
    match *state {
        State::Idle => {
            let a: u128 = okx.ask_sz.units as u128;
            let m: u128 = ct_mult.units as u128;
            assert(a * m <= 0xffff_ffff_ffff_ffffu128 * 0xffff_ffff_ffff_ffffu128) by (nonlinear_arith)
                requires
                    a <= 0xffff_ffff_ffff_ffffu128,
                    m <= 0xffff_ffff_ffff_ffffu128,
            ;
            let need_okx: u128 = 10_000_000_000_000_000_000;
            let need_bybit: u64 = 10_000_000_000;
            assert(need_okx == MIN_DEPTH_COINS * ONE * ONE);
            assert(need_bybit == MIN_DEPTH_COINS * ONE);
            // the product is at least zero exactly when the signs agree
            let same_sign: bool = okx.ask_sz.negative == ct_mult.negative;
            proof {
                let va = value(okx.ask_sz);
                let vm = value(ct_mult);
                if same_sign {
                    assert(va * vm == a * m) by (nonlinear_arith)
                        requires
                            (va == a && vm == m) || (va == -a && vm == -m),
                    ;
                } else {
                    assert(va * vm == -(a * m)) by (nonlinear_arith)
                        requires
                            (va == a && vm == -m) || (va == -a && vm == m),
                    ;
                }
            }
            let okx_deep: bool = same_sign && a * m >= need_okx;
            let bybit_deep: bool = !bybit.bid_sz.negative && bybit.bid_sz.units >= need_bybit;
            let bid: i128 = signed_units(bybit.bid_px);
            let ask: i128 = signed_units(okx.ask_px);
            let spread_ok: bool = if ask > 0 {
                1000 * (bid - ask) > 5 * ask
            } else if ask < 0 {
                1000 * (bid - ask) < 5 * ask
            } else if okx.ask_px.negative {
                bid < 0
            } else {
                bid > 0
            };
            if okx_deep && bybit_deep && spread_ok {
                return Some(Signal::OpenOkxLongBybitShort);
            }
        },
        State::Opened => {
            let ask: i128 = signed_units(bybit.ask_px);
            let bid: i128 = signed_units(okx.bid_px);
            let exit_ok: bool = if bid > 0 {
                10000 * (ask - bid) <= 3 * bid
            } else if bid < 0 {
                10000 * (ask - bid) >= 3 * bid
            } else if okx.bid_px.negative {
                ask > 0
            } else {
                ask < 0
            };
            if exit_ok {
                return Some(Signal::Close);
            }
        },
    }
    None
}

/// Declares `std::time::SystemTime`, a reading of the machine's clock.
#[verifier::external_type_specification]
#[verifier::external_body]
pub struct ExSystemTime(SystemTime);

/// Declares `std::time::SystemTimeError`, a reading before the Unix epoch.
#[verifier::external_type_specification]
#[verifier::external_body]
pub struct ExSystemTimeError(SystemTimeError);

/// Calls `SystemTime::now`.
///
/// Nothing is stated of the reading: it is the machine's clock.
#[verifier::external_body]
fn system_time_now() -> SystemTime {
    SystemTime::now()
}

/// Calls `SystemTime::duration_since(UNIX_EPOCH)`.
///
/// Nothing is stated of the result: it errs when the reading lies before the
/// epoch, and otherwise carries the elapsed time, neither of which is known
/// to the caller.
#[verifier::external_body]
fn since_unix_epoch(t: SystemTime) -> Result<Duration, SystemTimeError> {
    t.duration_since(UNIX_EPOCH)
}

/// Calls `Duration::as_millis`.
///
/// Nothing is stated of the count: a `Duration` is opaque here.
#[verifier::external_body]
fn whole_millis(d: Duration) -> u128 {
    d.as_millis()
}

pub open spec fn millis_u64_of(elapsed_ms: Option<u128>) -> u64 {
    match elapsed_ms {
        Some(m) => m as u64,
        None => 0,
    }
}

/// The millisecond count of a clock reading cut to 64 bits, with 0 for a
/// reading before the Unix epoch (`None`).
pub fn millis_u64(elapsed_ms: Option<u128>) -> (r: u64)
    ensures
        r == millis_u64_of(elapsed_ms),
{
    match elapsed_ms {
        Some(m) => m as u64,
        None => 0,
    }
}

/// Milliseconds since the Unix epoch by the machine's clock, cut to 64 bits.
///
/// A clock set before the epoch reads as 0.
pub fn now_ms() -> u64 {
    let elapsed_ms: Option<u128> = match since_unix_epoch(system_time_now()) {
        Ok(elapsed) => Some(whole_millis(elapsed)),
        Err(_) => None,
    };
    millis_u64(elapsed_ms)
}

/// The signal for the two latest quotes, judged against the machine's clock.
pub fn strategy(okx: &Quote, bybit: &Quote, ct_mult: Fixed, state: &State) -> (r: Option<Signal>)
    ensures
        exists|now: u64| r == #[trigger] signal_for(*okx, *bybit, ct_mult, *state, now as int),
{
    let now: u64 = now_ms();
    strategy_at(okx, bybit, ct_mult, state, now)
}

// ---------------------------------------------------------------------------
// laws

/// Once the position is open no opening signal is given, and while flat no
/// closing signal is given.
pub proof fn lemma_no_reentry(okx: Quote, bybit: Quote, ct_mult: Fixed, now: int)
    ensures
        signal_for(okx, bybit, ct_mult, State::Opened, now) != Some(Signal::OpenOkxLongBybitShort),
        signal_for(okx, bybit, ct_mult, State::Idle, now) != Some(Signal::Close),
{
}

/// Quotes that are out of sync, or either of which is stale, give no signal.
pub proof fn lemma_stale_quotes_give_no_signal(
    okx: Quote,
    bybit: Quote,
    ct_mult: Fixed,
    state: State,
    now: int,
)
    requires
        !in_sync(okx.ts, bybit.ts) || too_old(okx.ts, now) || too_old(bybit.ts, now),
    ensures
        signal_for(okx, bybit, ct_mult, state, now) == None::<Signal>,
{
}

/// An opening signal needs the spread to reach the entry threshold, and a
/// closing signal needs it to fall to the exit threshold.
pub proof fn lemma_signal_needs_spread(
    okx: Quote,
    bybit: Quote,
    ct_mult: Fixed,
    state: State,
    now: int,
)
    ensures
        signal_for(okx, bybit, ct_mult, state, now) == Some(Signal::OpenOkxLongBybitShort)
            ==> entry_spread_reached(bybit.bid_px, okx.ask_px) && deep_enough(okx, bybit, ct_mult),
        signal_for(okx, bybit, ct_mult, state, now) == Some(Signal::Close) ==> exit_spread_reached(
            bybit.ask_px,
            okx.bid_px,
        ),
{
}

/// `(bid - ask) / ask > 0.5%` over exact numbers, as floats divide: for a
/// positive `ask` it means `200 bid > 201 ask`, for a negative one
/// `200 bid < 201 ask`; over a zero `ask` only an infinite quotient of the
/// right sign counts.
pub open spec fn entry_rule(bid: Fixed, ask: Fixed) -> bool {
    let b = value(bid);
    let a = value(ask);
    ||| a > 0 && 200 * b > 201 * a
    ||| a < 0 && 200 * b < 201 * a
    ||| a == 0 && !ask.negative && b > 0
    ||| a == 0 && ask.negative && b < 0
}

/// `(ask - bid) / bid <= 0.03%` over exact numbers, as floats divide: for a
/// positive `bid` it means `10000 ask <= 10003 bid`, for a negative one
/// `10000 ask >= 10003 bid`; over a zero `bid` only a quotient of minus
/// infinity counts.
pub open spec fn exit_rule(ask: Fixed, bid: Fixed) -> bool {
    let k = value(ask);
    let d = value(bid);
    ||| d > 0 && 10000 * k <= 10003 * d
    ||| d < 0 && 10000 * k >= 10003 * d
    ||| d == 0 && !bid.negative && k < 0
    ||| d == 0 && bid.negative && k > 0
}

/// With both quotes at most 300 ms old and less than 80 ms apart, a flat
/// position gets the opening signal exactly when OKX offers at least ten
/// coins, Bybit bids at least ten coins and the spread is above 0.5%;
/// otherwise no signal.
pub proof fn lemma_entry_signal_exactly(okx: Quote, bybit: Quote, ct_mult: Fixed, now: int)
    requires
        now - okx.ts <= 300,
        now - bybit.ts <= 300,
        -80 < okx.ts - bybit.ts < 80,
    ensures
        signal_for(okx, bybit, ct_mult, State::Idle, now) == (if value(okx.ask_sz) * value(ct_mult)
            >= 10 * ONE * ONE && value(bybit.bid_sz) >= 10 * ONE && entry_rule(
            bybit.bid_px,
            okx.ask_px,
        ) {
            Some(Signal::OpenOkxLongBybitShort)
        } else {
            None
        }),
{
}

/// With both quotes at most 300 ms old and less than 80 ms apart, an open
/// position gets the closing signal exactly when Bybit's ask exceeds OKX's
/// bid by at most 0.03% of it (or lies below it); otherwise no signal.
pub proof fn lemma_exit_signal_exactly(okx: Quote, bybit: Quote, ct_mult: Fixed, now: int)
    requires
        now - okx.ts <= 300,
        now - bybit.ts <= 300,
        -80 < okx.ts - bybit.ts < 80,
    ensures
        signal_for(okx, bybit, ct_mult, State::Opened, now) == (if exit_rule(bybit.ask_px, okx.bid_px) {
            Some(Signal::Close)
        } else {
            None
        }),
{
}

/// A quote older than 300 ms, or two quotes 80 ms or more apart, give no
/// signal at all.
pub proof fn lemma_old_or_apart_quotes_give_nothing(
    okx: Quote,
    bybit: Quote,
    ct_mult: Fixed,
    state: State,
    now: int,
)
    requires
        now - okx.ts > 300 || now - bybit.ts > 300 || okx.ts - bybit.ts >= 80 || bybit.ts - okx.ts
            >= 80,
    ensures
        signal_for(okx, bybit, ct_mult, state, now) is None,
{
}

} // verus!
