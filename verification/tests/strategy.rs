use protest::decimal::{parse_fixed, Fixed};
use protest::model::{Exchange, Quote, Signal, State};
use protest::strategy::{millis_u64, now_ms, strategy, strategy_at};

fn fx(s: &str) -> Fixed {
    parse_fixed(s).unwrap()
}

fn quote(exchange: Exchange, bid: &str, bid_sz: &str, ask: &str, ask_sz: &str, ts: i64) -> Quote {
    Quote { exchange, bid_px: fx(bid), bid_sz: fx(bid_sz), ask_px: fx(ask), ask_sz: fx(ask_sz), ts }
}

const NOW: u64 = 1_700_000_000_000;
const T: i64 = 1_700_000_000_000;

#[test]
fn opens_when_spread_and_depth_suffice() {
    // (1.0051 - 1.000) / 1.000 = 0.51%
    let okx = quote(Exchange::Okx, "0.999", "5", "1.000", "1", T);
    let bybit = quote(Exchange::Bybit, "1.0051", "10", "1.006", "10", T - 50);
    assert_eq!(strategy_at(&okx, &bybit, fx("10"), &State::Idle, NOW), Some(Signal::OpenOkxLongBybitShort));
}

#[test]
fn no_entry_below_threshold_or_depth() {
    let okx = quote(Exchange::Okx, "0.999", "5", "1.000", "1", T);
    let thin_spread = quote(Exchange::Bybit, "1.0049", "10", "1.006", "10", T);
    assert_eq!(strategy_at(&okx, &thin_spread, fx("10"), &State::Idle, NOW), None);
    // exactly 0.5% is not above the threshold
    let at_threshold = quote(Exchange::Bybit, "1.005", "10", "1.006", "10", T);
    assert_eq!(strategy_at(&okx, &at_threshold, fx("10"), &State::Idle, NOW), None);
    let bybit = quote(Exchange::Bybit, "1.0051", "9.99", "1.006", "10", T);
    assert_eq!(strategy_at(&okx, &bybit, fx("10"), &State::Idle, NOW), None);
    let bybit = quote(Exchange::Bybit, "1.0051", "10", "1.006", "10", T);
    // one contract of 9.99 coins is not ten coins
    assert_eq!(strategy_at(&okx, &bybit, fx("9.99"), &State::Idle, NOW), None);
}

#[test]
fn closes_when_spread_converges() {
    // (1.0003 - 1.0000) / 1.0000 = 0.03%
    let okx = quote(Exchange::Okx, "1.0000", "5", "1.0001", "1", T);
    let bybit = quote(Exchange::Bybit, "0.9990", "10", "1.0003", "10", T);
    assert_eq!(strategy_at(&okx, &bybit, fx("10"), &State::Opened, NOW), Some(Signal::Close));
    let wide = quote(Exchange::Bybit, "0.9990", "10", "1.0004", "10", T);
    assert_eq!(strategy_at(&okx, &wide, fx("10"), &State::Opened, NOW), None);
}

#[test]
fn no_reentry_and_no_close_while_flat() {
    let okx = quote(Exchange::Okx, "1.0000", "5", "1.000", "100", T);
    let bybit = quote(Exchange::Bybit, "1.100", "100", "1.0000", "100", T);
    // this pair would open when flat ...
    assert_eq!(strategy_at(&okx, &bybit, fx("10"), &State::Idle, NOW), Some(Signal::OpenOkxLongBybitShort));
    // ... but gives no second entry once open (and it does meet the exit rule)
    assert_eq!(strategy_at(&okx, &bybit, fx("10"), &State::Opened, NOW), Some(Signal::Close));
    let apart = quote(Exchange::Bybit, "1.100", "100", "1.2", "100", T);
    assert_eq!(strategy_at(&okx, &apart, fx("10"), &State::Opened, NOW), None);
}

#[test]
fn stale_or_unsynced_quotes_give_nothing() {
    let okx = quote(Exchange::Okx, "0.999", "5", "1.000", "1", T);
    let bybit = quote(Exchange::Bybit, "1.1", "10", "1.2", "10", T - 81);
    assert_eq!(strategy_at(&okx, &bybit, fx("10"), &State::Idle, NOW), None);
    // a gap of exactly 80 ms is already out of sync
    let bybit = quote(Exchange::Bybit, "1.1", "10", "1.2", "10", T - 80);
    assert_eq!(strategy_at(&okx, &bybit, fx("10"), &State::Idle, NOW), None);
    let bybit = quote(Exchange::Bybit, "1.1", "10", "1.2", "10", T + 80);
    assert_eq!(strategy_at(&okx, &bybit, fx("10"), &State::Idle, NOW), None);
    let bybit = quote(Exchange::Bybit, "1.1", "10", "1.2", "10", T - 79);
    assert!(strategy_at(&okx, &bybit, fx("10"), &State::Idle, NOW).is_some());
    // 301 ms old
    let okx_old = quote(Exchange::Okx, "0.999", "5", "1.000", "1", T - 301);
    let bybit_old = quote(Exchange::Bybit, "1.1", "10", "1.2", "10", T - 301);
    assert_eq!(strategy_at(&okx_old, &bybit_old, fx("10"), &State::Idle, NOW), None);
    let okx_300 = quote(Exchange::Okx, "0.999", "5", "1.000", "1", T - 300);
    let bybit_300 = quote(Exchange::Bybit, "1.1", "10", "1.2", "10", T - 300);
    assert!(strategy_at(&okx_300, &bybit_300, fx("10"), &State::Idle, NOW).is_some());
}

#[test]
fn zero_prices_follow_float_division() {
    // ask 0, bid > 0: the spread is unbounded
    let okx = quote(Exchange::Okx, "0", "5", "0", "1", T);
    let bybit = quote(Exchange::Bybit, "1", "10", "0", "10", T);
    assert_eq!(strategy_at(&okx, &bybit, fx("10"), &State::Idle, NOW), Some(Signal::OpenOkxLongBybitShort));
    // 0 / 0 is no spread
    let bybit_zero = quote(Exchange::Bybit, "0", "10", "0", "10", T);
    assert_eq!(strategy_at(&okx, &bybit_zero, fx("10"), &State::Idle, NOW), None);
    // bid 0: never an exit
    assert_eq!(strategy_at(&okx, &bybit_zero, fx("10"), &State::Opened, NOW), None);
}

#[test]
fn clock_based_strategy_judges_fresh_quotes() {
    let now = now_ms() as i64;
    assert!(now > 1_600_000_000_000);
    let okx = quote(Exchange::Okx, "0.999", "5", "1.000", "1", now + 10_000);
    let bybit = quote(Exchange::Bybit, "1.1", "10", "1.2", "10", now + 10_000);
    assert_eq!(strategy(&okx, &bybit, fx("10"), &State::Idle), Some(Signal::OpenOkxLongBybitShort));
    let old = quote(Exchange::Bybit, "1.1", "10", "1.2", "10", now - 10_000);
    let okx_old = quote(Exchange::Okx, "0.999", "5", "1.000", "1", now - 10_000);
    assert_eq!(strategy(&okx_old, &old, fx("10"), &State::Idle), None);
}

#[test]
fn clock_reading_is_cut_to_64_bits() {
    assert_eq!(millis_u64(Some(5)), 5);
    assert_eq!(millis_u64(None), 0);
    assert_eq!(millis_u64(Some((1u128 << 64) + 7)), 7);
    assert_eq!(millis_u64(Some(1_700_000_000_123)), 1_700_000_000_123);
}

#[test]
fn signed_prices_and_zeros_follow_float_division() {
    // a negative ask: (bid - ask) / ask > 0.005 flips to 1000 (bid - ask) < 5 ask
    let okx = quote(Exchange::Okx, "0.999", "5", "-1", "1", T);
    let bybit = quote(Exchange::Bybit, "-1.01", "10", "1.2", "10", T);
    assert_eq!(strategy_at(&okx, &bybit, fx("10"), &State::Idle, NOW), Some(Signal::OpenOkxLongBybitShort));
    let bybit = quote(Exchange::Bybit, "-0.99", "10", "1.2", "10", T);
    assert_eq!(strategy_at(&okx, &bybit, fx("10"), &State::Idle, NOW), None);
    // -0 as the ask: a positive bid gives -inf, a negative one +inf
    let okx = quote(Exchange::Okx, "0.999", "5", "-0", "1", T);
    let up = quote(Exchange::Bybit, "1", "10", "1.2", "10", T);
    assert_eq!(strategy_at(&okx, &up, fx("10"), &State::Idle, NOW), None);
    let down = quote(Exchange::Bybit, "-1", "10", "1.2", "10", T);
    assert_eq!(strategy_at(&okx, &down, fx("10"), &State::Idle, NOW), Some(Signal::OpenOkxLongBybitShort));
    // depth: two negative factors make a positive product; a negative bid size is too thin
    let okx = quote(Exchange::Okx, "0.999", "5", "1.000", "-1", T);
    let bybit = quote(Exchange::Bybit, "1.1", "10", "1.2", "10", T);
    assert_eq!(strategy_at(&okx, &bybit, fx("-10"), &State::Idle, NOW), Some(Signal::OpenOkxLongBybitShort));
    assert_eq!(strategy_at(&okx, &bybit, fx("10"), &State::Idle, NOW), None);
    let okx = quote(Exchange::Okx, "0.999", "5", "1.000", "1", T);
    let thin = quote(Exchange::Bybit, "1.1", "-10", "1.2", "10", T);
    assert_eq!(strategy_at(&okx, &thin, fx("10"), &State::Idle, NOW), None);
    // exit with a zero bid: only -inf is at or below the threshold
    let okx_plus = quote(Exchange::Okx, "0", "5", "1", "1", T);
    let okx_minus = quote(Exchange::Okx, "-0", "5", "1", "1", T);
    let pos_ask = quote(Exchange::Bybit, "1", "10", "1", "10", T);
    let neg_ask = quote(Exchange::Bybit, "1", "10", "-1", "10", T);
    assert_eq!(strategy_at(&okx_plus, &neg_ask, fx("10"), &State::Opened, NOW), Some(Signal::Close));
    assert_eq!(strategy_at(&okx_plus, &pos_ask, fx("10"), &State::Opened, NOW), None);
    assert_eq!(strategy_at(&okx_minus, &pos_ask, fx("10"), &State::Opened, NOW), Some(Signal::Close));
    assert_eq!(strategy_at(&okx_minus, &neg_ask, fx("10"), &State::Opened, NOW), None);
    // a negative bid: (ask - bid) / bid <= 0.0003 flips to 10000 (ask - bid) >= 3 bid
    let okx = quote(Exchange::Okx, "-1", "5", "1", "1", T);
    let near = quote(Exchange::Bybit, "1", "10", "-1.0001", "10", T);
    assert_eq!(strategy_at(&okx, &near, fx("10"), &State::Opened, NOW), Some(Signal::Close));
    let far = quote(Exchange::Bybit, "1", "10", "-1.001", "10", T);
    assert_eq!(strategy_at(&okx, &far, fx("10"), &State::Opened, NOW), None);
}
