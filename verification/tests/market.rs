use protest::market::{
    bybit_orderbook_topic, bybit_quote, ct_mult_from_listing, feed_step, okx_quote, BookLevel, BybitBook,
    BybitBookMsg, FeedAction, FeedEvent, InstrumentError, OkxBook, OkxBookMsg,
};
use protest::model::{Exchange, Quote};

fn level(p: &str, s: &str) -> BookLevel {
    BookLevel { price: p.to_string(), size: s.to_string() }
}

fn okx_msg(asks: Vec<BookLevel>, bids: Vec<BookLevel>, ts: &str) -> OkxBookMsg {
    OkxBookMsg { data: vec![OkxBook { asks, bids, ts: ts.to_string(), seq_id: 1 }] }
}

#[test]
fn okx_push_gives_best_bid_and_ask() {
    let msg = okx_msg(vec![level("0.6125", "300"), level("0.6126", "5")], vec![level("0.6123", "120.5")], "1700000000123");
    let q = okx_quote(&msg).unwrap();
    assert_eq!(q.exchange, Exchange::Okx);
    assert_eq!(q.bid_px.units, 612_300_000);
    assert_eq!(q.bid_sz.units, 120_500_000_000);
    assert_eq!(q.ask_px.units, 612_500_000);
    assert_eq!(q.ask_sz.units, 300_000_000_000);
    assert_eq!(q.ts, 1_700_000_000_123);
}

#[test]
fn okx_push_without_a_quote() {
    assert_eq!(okx_quote(&OkxBookMsg { data: vec![] }), None);
    assert_eq!(okx_quote(&okx_msg(vec![], vec![level("1", "1")], "1")), None);
    assert_eq!(okx_quote(&okx_msg(vec![level("1", "1")], vec![], "1")), None);
    assert_eq!(okx_quote(&okx_msg(vec![level("1", "1")], vec![level("1", "x")], "1")), None);
    assert_eq!(okx_quote(&okx_msg(vec![level("1", "1")], vec![level("1", "1")], "1.5")), None);
}

fn bybit_msg(b: Vec<BookLevel>, a: Vec<BookLevel>, cts: u64) -> BybitBookMsg {
    BybitBookMsg {
        topic: "orderbook.1.FLOWUSDT".to_string(),
        kind: "snapshot".to_string(),
        ts: cts + 3,
        cts,
        data: BybitBook { s: "FLOWUSDT".to_string(), b, a },
    }
}

#[test]
fn bybit_push_gives_best_bid_and_ask_at_cts() {
    let q: Quote = bybit_quote(&bybit_msg(vec![level("0.6150", "1000")], vec![level("0.6151", "800")], 1_700_000_000_456)).unwrap();
    assert_eq!(q.exchange, Exchange::Bybit);
    assert_eq!(q.bid_px.units, 615_000_000);
    assert_eq!(q.ask_sz.units, 800_000_000_000);
    assert_eq!(q.ts, 1_700_000_000_456);
}

#[test]
fn bybit_push_without_a_quote() {
    assert_eq!(bybit_quote(&bybit_msg(vec![], vec![level("1", "1")], 5)), None);
    assert_eq!(bybit_quote(&bybit_msg(vec![level("1", "1")], vec![], 5)), None);
    assert_eq!(bybit_quote(&bybit_msg(vec![level("1", "1")], vec![level("1", "1")], u64::MAX)), None);
    assert_eq!(bybit_quote(&bybit_msg(vec![level("1", "1")], vec![level("inf", "1")], 5)), None);
    // a negative price is still a number
    let q = bybit_quote(&bybit_msg(vec![level("-1", "1")], vec![level("1", "1")], 5)).unwrap();
    assert!(q.bid_px.negative);
    assert_eq!(q.bid_px.units, 1_000_000_000);
}

#[test]
fn contract_multiplier_from_listing() {
    assert_eq!(ct_mult_from_listing(&vec!["10".to_string(), "1".to_string()]).unwrap().units, 10_000_000_000);
    assert_eq!(ct_mult_from_listing(&vec![]), Err(InstrumentError::NoInstrument));
    assert_eq!(ct_mult_from_listing(&vec!["ten".to_string()]), Err(InstrumentError::BadNumber));
    assert_eq!(ct_mult_from_listing(&vec!["1e1".to_string()]).unwrap().units, 10_000_000_000);
    assert_eq!(ct_mult_from_listing(&vec!["0.01".to_string()]).unwrap().units, 10_000_000);
}

#[test]
fn feed_rules_per_venue() {
    assert_eq!(feed_step(Exchange::Okx, FeedEvent::ConnectFailed), FeedAction::Reconnect);
    assert_eq!(feed_step(Exchange::Bybit, FeedEvent::ConnectFailed), FeedAction::Reconnect);
    assert_eq!(feed_step(Exchange::Okx, FeedEvent::Connected), FeedAction::Subscribe);
    assert_eq!(feed_step(Exchange::Okx, FeedEvent::Text(None)), FeedAction::LogUnparsed);
    assert_eq!(feed_step(Exchange::Bybit, FeedEvent::Text(None)), FeedAction::Ignore);
    assert_eq!(feed_step(Exchange::Okx, FeedEvent::Ping), FeedAction::Pong);
    assert_eq!(feed_step(Exchange::Bybit, FeedEvent::Ping), FeedAction::Ignore);
    assert_eq!(feed_step(Exchange::Bybit, FeedEvent::Lost), FeedAction::Reconnect);
    assert_eq!(feed_step(Exchange::Okx, FeedEvent::SendFailed), FeedAction::Reconnect);
    assert_eq!(feed_step(Exchange::Bybit, FeedEvent::SendFailed), FeedAction::Reconnect);
    assert_eq!(feed_step(Exchange::Okx, FeedEvent::Lost), FeedAction::Reconnect);
    assert_eq!(feed_step(Exchange::Okx, FeedEvent::OtherFrame), FeedAction::Ignore);
    let q = okx_quote(&okx_msg(vec![level("1", "1")], vec![level("1", "1")], "1")).unwrap();
    assert_eq!(feed_step(Exchange::Okx, FeedEvent::Text(Some(q))), FeedAction::Publish(q));
}

#[test]
fn bybit_topic_names_the_symbol() {
    assert_eq!(bybit_orderbook_topic("FLOWUSDT"), "orderbook.1.FLOWUSDT");
}
