use protest::decimal::{parse_fixed, Fixed};
use protest::engine::{Engine, EngineAction, EngineError, EngineEvent, OrderIntent, Phase, Side};
use protest::model::{Exchange, Quote, State};

fn fx(s: &str) -> Fixed {
    parse_fixed(s).unwrap()
}

const NOW: u64 = 1_700_000_000_000;
const T: i64 = 1_700_000_000_000;

fn okx(ask: &str) -> Quote {
    Quote { exchange: Exchange::Okx, bid_px: fx("1.0000"), bid_sz: fx("5"), ask_px: fx(ask), ask_sz: fx("2"), ts: T }
}

fn bybit(bid: &str, ask: &str) -> Quote {
    Quote { exchange: Exchange::Bybit, bid_px: fx(bid), bid_sz: fx("20"), ask_px: fx(ask), ask_sz: fx("20"), ts: T }
}

const OKX_BUY: EngineAction = EngineAction::Send(OrderIntent { venue: Exchange::Okx, side: Side::Buy, closing: false });
const BYBIT_SELL: EngineAction = EngineAction::Send(OrderIntent { venue: Exchange::Bybit, side: Side::Sell, closing: false });
const OKX_CLOSE: EngineAction = EngineAction::Send(OrderIntent { venue: Exchange::Okx, side: Side::Sell, closing: true });
const BYBIT_CLOSE: EngineAction = EngineAction::Send(OrderIntent { venue: Exchange::Bybit, side: Side::Buy, closing: true });

fn opened_engine() -> Engine {
    let mut e = Engine::new(fx("10"));
    assert_eq!(e.step(EngineEvent::Quote(Exchange::Okx, Some(okx("1.000"))), NOW), EngineAction::Wait);
    assert_eq!(e.step(EngineEvent::Quote(Exchange::Bybit, Some(bybit("1.010", "1.02"))), NOW), OKX_BUY);
    assert_eq!(e.state, State::Opened);
    assert_eq!(e.step(EngineEvent::OrderSent(true), NOW), BYBIT_SELL);
    assert_eq!(e.step(EngineEvent::OrderSent(true), NOW), EngineAction::Wait);
    assert_eq!(e.phase, Phase::Watching);
    e
}

#[test]
fn full_round_trip_opens_then_closes_and_finishes() {
    let mut e = opened_engine();
    // the entry condition still holds, but no second entry follows
    assert_eq!(e.step(EngineEvent::Quote(Exchange::Okx, Some(okx("1.000"))), NOW), EngineAction::Wait);
    // converged: bybit ask equals okx bid
    assert_eq!(e.step(EngineEvent::Quote(Exchange::Bybit, Some(bybit("0.99", "1.0000"))), NOW), OKX_CLOSE);
    assert_eq!(e.step(EngineEvent::OrderSent(true), NOW), BYBIT_CLOSE);
    assert_eq!(e.step(EngineEvent::OrderSent(true), NOW), EngineAction::Finish);
    assert_eq!(e.phase, Phase::Finished);
    assert_eq!(e.step(EngineEvent::Quote(Exchange::Okx, Some(okx("1.000"))), NOW), EngineAction::Finish);
}

#[test]
fn failed_leg_is_retried_once_after_relogin() {
    let mut e = Engine::new(fx("10"));
    e.step(EngineEvent::Quote(Exchange::Okx, Some(okx("1.000"))), NOW);
    assert_eq!(e.step(EngineEvent::Quote(Exchange::Bybit, Some(bybit("1.010", "1.02"))), NOW), OKX_BUY);
    assert_eq!(e.step(EngineEvent::OrderSent(false), NOW), EngineAction::Login(Exchange::Okx));
    // unrelated events change nothing while the login is outstanding
    assert_eq!(e.step(EngineEvent::Quote(Exchange::Okx, None), NOW), EngineAction::Wait);
    assert_eq!(e.step(EngineEvent::LoggedIn(Exchange::Okx, true), NOW), OKX_BUY);
    assert_eq!(e.step(EngineEvent::OrderSent(true), NOW), BYBIT_SELL);
    assert_eq!(e.step(EngineEvent::OrderSent(false), NOW), EngineAction::Login(Exchange::Bybit));
    assert_eq!(e.step(EngineEvent::LoggedIn(Exchange::Bybit, true), NOW), BYBIT_SELL);
    // the second Bybit failure leaves an unhedged OKX long: it is sold back first
    assert_eq!(e.step(EngineEvent::OrderSent(false), NOW), OKX_CLOSE);
    assert_eq!(e.state, State::Opened);
    let stop = e.step(EngineEvent::OrderSent(true), NOW);
    assert_eq!(stop, EngineAction::Abort(EngineError::OpenFailed(Exchange::Bybit)));
    assert_eq!(e.state, State::Idle);
    assert_eq!(e.step(EngineEvent::OrderSent(true), NOW), stop);
}

#[test]
fn failed_okx_opening_stops_flat() {
    let mut e = Engine::new(fx("10"));
    e.step(EngineEvent::Quote(Exchange::Okx, Some(okx("1.000"))), NOW);
    assert_eq!(e.step(EngineEvent::Quote(Exchange::Bybit, Some(bybit("1.010", "1.02"))), NOW), OKX_BUY);
    assert_eq!(e.step(EngineEvent::OrderSent(false), NOW), EngineAction::Login(Exchange::Okx));
    assert_eq!(e.step(EngineEvent::LoggedIn(Exchange::Okx, true), NOW), OKX_BUY);
    assert_eq!(e.step(EngineEvent::OrderSent(false), NOW), EngineAction::Abort(EngineError::OpenFailed(Exchange::Okx)));
    assert_eq!(e.state, State::Idle);
}

#[test]
fn failed_unwind_stops_with_the_okx_leg_open() {
    let mut e = Engine::new(fx("10"));
    e.step(EngineEvent::Quote(Exchange::Okx, Some(okx("1.000"))), NOW);
    e.step(EngineEvent::Quote(Exchange::Bybit, Some(bybit("1.010", "1.02"))), NOW);
    assert_eq!(e.step(EngineEvent::OrderSent(true), NOW), BYBIT_SELL);
    assert_eq!(e.step(EngineEvent::OrderSent(false), NOW), EngineAction::Login(Exchange::Bybit));
    assert_eq!(e.step(EngineEvent::LoggedIn(Exchange::Bybit, true), NOW), BYBIT_SELL);
    assert_eq!(e.step(EngineEvent::OrderSent(false), NOW), OKX_CLOSE);
    assert_eq!(e.step(EngineEvent::OrderSent(false), NOW), EngineAction::Login(Exchange::Okx));
    assert_eq!(e.step(EngineEvent::LoggedIn(Exchange::Okx, true), NOW), OKX_CLOSE);
    assert_eq!(e.step(EngineEvent::OrderSent(false), NOW), EngineAction::Abort(EngineError::UnwindFailed));
    assert_eq!(e.state, State::Opened);
}

#[test]
fn position_is_closed_after_the_hold_time() {
    let mut e = opened_engine();
    assert_eq!(e.opened_at, NOW);
    // just short of the limit: nothing to do
    assert_eq!(e.step(EngineEvent::Tick, NOW + 119_999), EngineAction::Wait);
    assert_eq!(e.step(EngineEvent::Quote(Exchange::Okx, Some(okx("1.000"))), NOW + 119_999), EngineAction::Wait);
    // at the limit the closing legs go out, without an exit signal
    assert_eq!(e.step(EngineEvent::Tick, NOW + 120_000), OKX_CLOSE);
    assert_eq!(e.step(EngineEvent::OrderSent(true), NOW + 120_001), BYBIT_CLOSE);
    assert_eq!(e.step(EngineEvent::OrderSent(true), NOW + 120_002), EngineAction::Finish);
}

#[test]
fn ticks_while_flat_only_run_the_strategy() {
    let mut e = Engine::new(fx("10"));
    assert_eq!(e.opened_at, 0);
    assert_eq!(e.step(EngineEvent::Tick, NOW), EngineAction::Wait);
    e.step(EngineEvent::Quote(Exchange::Okx, Some(okx("1.000"))), NOW);
    let mut late = bybit("1.010", "1.02");
    late.ts = T - 200;
    assert_eq!(e.step(EngineEvent::Quote(Exchange::Bybit, Some(late)), NOW - 200), EngineAction::Wait);
    assert_eq!(e.step(EngineEvent::Tick, NOW + 500_000), EngineAction::Wait);
    assert_eq!(e.state, State::Idle);
}

#[test]
fn failed_close_retry_stops_with_position_open() {
    let mut e = opened_engine();
    assert_eq!(e.step(EngineEvent::Quote(Exchange::Bybit, Some(bybit("0.99", "1.0000"))), NOW), OKX_CLOSE);
    assert_eq!(e.step(EngineEvent::OrderSent(false), NOW), EngineAction::Login(Exchange::Okx));
    assert_eq!(e.step(EngineEvent::LoggedIn(Exchange::Okx, true), NOW), OKX_CLOSE);
    assert_eq!(e.step(EngineEvent::OrderSent(false), NOW), EngineAction::Abort(EngineError::CloseFailed(Exchange::Okx)));
    assert_eq!(e.state, State::Opened);
}

#[test]
fn failed_relogin_stops() {
    let mut e = Engine::new(fx("10"));
    e.step(EngineEvent::Quote(Exchange::Okx, Some(okx("1.000"))), NOW);
    e.step(EngineEvent::Quote(Exchange::Bybit, Some(bybit("1.010", "1.02"))), NOW);
    e.step(EngineEvent::OrderSent(false), NOW);
    assert_eq!(e.step(EngineEvent::LoggedIn(Exchange::Okx, false), NOW), EngineAction::Abort(EngineError::LoginFailed(Exchange::Okx)));
}

#[test]
fn dropped_order_connection_is_reopened() {
    let mut e = Engine::new(fx("10"));
    assert_eq!(e.step(EngineEvent::Alive(Exchange::Bybit, false), NOW), EngineAction::Login(Exchange::Bybit));
    assert_eq!(e.phase, Phase::Reconnecting(Exchange::Bybit));
    // a login report for the other venue is not the one awaited
    assert_eq!(e.step(EngineEvent::LoggedIn(Exchange::Okx, true), NOW), EngineAction::Wait);
    assert_eq!(e.step(EngineEvent::LoggedIn(Exchange::Bybit, true), NOW), EngineAction::Wait);
    assert_eq!(e.phase, Phase::Watching);
    assert_eq!(e.step(EngineEvent::Alive(Exchange::Okx, false), NOW), EngineAction::Login(Exchange::Okx));
    assert_eq!(e.step(EngineEvent::LoggedIn(Exchange::Okx, false), NOW), EngineAction::Abort(EngineError::LoginFailed(Exchange::Okx)));
}

#[test]
fn closed_channels_stop_the_engine() {
    let mut e = Engine::new(fx("10"));
    assert_eq!(e.step(EngineEvent::FeedClosed(Exchange::Okx), NOW), EngineAction::Abort(EngineError::QuoteFeedClosed(Exchange::Okx)));
    let mut e = Engine::new(fx("10"));
    assert_eq!(e.step(EngineEvent::AliveClosed(Exchange::Bybit), NOW), EngineAction::Abort(EngineError::AliveFeedClosed(Exchange::Bybit)));
}

#[test]
fn unsynced_or_missing_quotes_send_nothing() {
    let mut e = Engine::new(fx("10"));
    e.step(EngineEvent::Quote(Exchange::Okx, Some(okx("1.000"))), NOW);
    let mut late = bybit("1.010", "1.02");
    late.ts = T - 81;
    assert_eq!(e.step(EngineEvent::Quote(Exchange::Bybit, Some(late)), NOW), EngineAction::Wait);
    assert_eq!(e.step(EngineEvent::Quote(Exchange::Okx, None), NOW), EngineAction::Wait);
    assert_eq!(e.step(EngineEvent::Quote(Exchange::Bybit, Some(bybit("1.010", "1.02"))), NOW), EngineAction::Wait);
    assert_eq!(e.state, State::Idle);
}
