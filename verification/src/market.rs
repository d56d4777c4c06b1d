//! Public market data: order-book pushes turned into quotes, the rules of the
//! two quote feeds, and the OKX contract multiplier.
use vstd::prelude::*;

use crate::decimal::{fixed_of, parse_fixed, Fixed};
use crate::model::{Exchange, Quote};
use crate::text::{i64_of, parse_i64};

verus! {

/// One price level of a book push: price and size as sent.
#[derive(Clone, Debug)]
pub struct BookLevel {
    pub price: String,
    pub size: String,
}

/// One entry of an OKX `bbo-tbt` push.
#[derive(Clone, Debug)]
pub struct OkxBook {
    pub asks: Vec<BookLevel>,
    pub bids: Vec<BookLevel>,
    pub ts: String,
    pub seq_id: u64,
}

/// An OKX `bbo-tbt` push.
#[derive(Clone, Debug)]
pub struct OkxBookMsg {
    pub data: Vec<OkxBook>,
}

/// The book part of a Bybit `orderbook.1` push.
#[derive(Clone, Debug)]
pub struct BybitBook {
    pub s: String,
    pub b: Vec<BookLevel>,
    pub a: Vec<BookLevel>,
}

/// A Bybit `orderbook.1` push.
#[derive(Clone, Debug)]
pub struct BybitBookMsg {
    pub topic: String,
    pub kind: String,
    pub ts: u64,
    pub cts: u64,
    pub data: BybitBook,
}

/// The quote made of a best bid, a best ask and a timestamp, when all four
/// numbers read as decimals.
pub open spec fn quote_of(exchange: Exchange, bid: BookLevel, ask: BookLevel, ts: Option<i64>) -> Option<
    Quote,
> {
    match (fixed_of(bid.price@), fixed_of(bid.size@), fixed_of(ask.price@), fixed_of(ask.size@), ts) {
        (Some(bid_px), Some(bid_sz), Some(ask_px), Some(ask_sz), Some(ts)) => Some(
            Quote { exchange, bid_px, bid_sz, ask_px, ask_sz, ts },
        ),
        _ => None,
    }
}

/// First bid and first ask of the first entry, stamped with its `ts`.
pub open spec fn okx_quote_of(msg: OkxBookMsg) -> Option<Quote> {
    if msg.data@.len() == 0 || msg.data@[0].asks@.len() == 0 || msg.data@[0].bids@.len() == 0 {
        None
    } else {
        quote_of(
            Exchange::Okx,
            msg.data@[0].bids@[0],
            msg.data@[0].asks@[0],
            i64_of(msg.data@[0].ts@),
        )
    }
}

/// First bid and first ask, stamped with the matching-engine time `cts`.
pub open spec fn bybit_quote_of(msg: BybitBookMsg) -> Option<Quote> {
    if msg.data.b@.len() == 0 || msg.data.a@.len() == 0 {
        None
    } else {
        quote_of(
            Exchange::Bybit,
            msg.data.b@[0],
            msg.data.a@[0],
            if msg.cts <= i64::MAX {
                Some(msg.cts as i64)
            } else {
                None
            },
        )
    }
}

fn quote_from_levels(exchange: Exchange, bid: &BookLevel, ask: &BookLevel, ts: Option<i64>) -> (r:
    Option<Quote>)
    ensures
        r == quote_of(exchange, *bid, *ask, ts),
{
    let bid_px = parse_fixed(bid.price.as_str());
    let bid_sz = parse_fixed(bid.size.as_str());
    let ask_px = parse_fixed(ask.price.as_str());
    let ask_sz = parse_fixed(ask.size.as_str());
    match (bid_px, bid_sz, ask_px, ask_sz, ts) {
        (Some(bid_px), Some(bid_sz), Some(ask_px), Some(ask_sz), Some(ts)) => Some(
            Quote { exchange, bid_px, bid_sz, ask_px, ask_sz, ts },
        ),
        _ => None,
    }
}

/// The OKX best bid and offer carried by a `bbo-tbt` push, if it has one.
pub fn okx_quote(msg: &OkxBookMsg) -> (r: Option<Quote>)
    ensures
        r == okx_quote_of(*msg),
{
    if msg.data.len() == 0 {
        return None;
    }
    let d = &msg.data[0];
    if d.asks.len() == 0 || d.bids.len() == 0 {
        return None;
    }
    let ts = parse_i64(d.ts.as_str());
    quote_from_levels(Exchange::Okx, &d.bids[0], &d.asks[0], ts)
}

/// The Bybit best bid and offer carried by an `orderbook.1` push, if it has
/// one.
pub fn bybit_quote(msg: &BybitBookMsg) -> (r: Option<Quote>)
    ensures
        r == bybit_quote_of(*msg),
{
    if msg.data.b.len() == 0 || msg.data.a.len() == 0 {
        return None;
    }
    let ts: Option<i64> = if msg.cts <= i64::MAX as u64 {
        Some(msg.cts as i64)
    } else {
        None
    };
    quote_from_levels(Exchange::Bybit, &msg.data.b[0], &msg.data.a[0], ts)
}

/// Why no contract multiplier came out of an instrument listing.
#[derive(Clone, Copy, Debug, PartialEq, Eq, Structural)]
pub enum InstrumentError {
    /// The listing holds no instrument.
    NoInstrument,
    /// The first instrument's `ctVal` is not a decimal number.
    BadNumber,
}

/// The contract value (`ctVal`) of the first listed instrument.
pub open spec fn ct_mult_of(ct_vals: Seq<String>) -> Result<Fixed, InstrumentError> {
    if ct_vals.len() == 0 {
        Err(InstrumentError::NoInstrument)
    } else {
        match fixed_of(ct_vals[0]@) {
            Some(v) => Ok(v),
            None => Err(InstrumentError::BadNumber),
        }
    }
}

/// Coins per OKX contract, from the `ctVal` fields of an instruments reply
/// in the order listed.
pub fn ct_mult_from_listing(ct_vals: &Vec<String>) -> (r: Result<Fixed, InstrumentError>)
    ensures
        r == ct_mult_of(ct_vals@),
{
    if ct_vals.len() == 0 {
        return Err(InstrumentError::NoInstrument);
    }
    match parse_fixed(ct_vals[0].as_str()) {
        Some(v) => Ok(v),
        None => Err(InstrumentError::BadNumber),
    }
}

// ---------------------------------------------------------------------------
// feeds

/// What happened on a public market-data connection.
#[derive(Clone, Debug)]
pub enum FeedEvent {
    /// The connection could not be opened.
    ConnectFailed,
    /// The connection is open.
    Connected,
    /// A text frame arrived; `Some` when it decoded to a quote.
    Text(Option<Quote>),
    /// A ping arrived.
    Ping,
    /// Some other frame arrived.
    OtherFrame,
    /// Reading failed, or the server closed the stream.
    Lost,
    /// Writing to the connection (the subscription or a pong) failed.
    SendFailed,
}

/// What the feed does next.
#[derive(Clone, Debug, PartialEq, Eq, Structural)]
pub enum FeedAction {
    /// Send the subscription request.
    Subscribe,
    /// Publish this quote as the latest.
    Publish(Quote),
    /// Note the text frame that was not a quote.
    LogUnparsed,
    /// Answer the ping with a pong carrying its payload.
    Pong,
    /// Nothing to do; read on.
    Ignore,
    /// Publish "no quote", wait a second, then connect again.
    Reconnect,
}

/// The rule of each venue's feed: every failure leads to a reconnection, so a
/// feed never ends on its own.
pub open spec fn feed_rule(exchange: Exchange, event: FeedEvent) -> FeedAction {
    match event {
        FeedEvent::ConnectFailed => FeedAction::Reconnect,
        FeedEvent::Connected => FeedAction::Subscribe,
        FeedEvent::Text(Some(q)) => FeedAction::Publish(q),
        FeedEvent::Text(None) => match exchange {
            Exchange::Okx => FeedAction::LogUnparsed,
            Exchange::Bybit => FeedAction::Ignore,
        },
        FeedEvent::Ping => match exchange {
            Exchange::Okx => FeedAction::Pong,
            Exchange::Bybit => FeedAction::Ignore,
        },
        FeedEvent::OtherFrame => FeedAction::Ignore,
        FeedEvent::Lost => FeedAction::Reconnect,
        FeedEvent::SendFailed => FeedAction::Reconnect,
    }
}

/// Decides the next move of a quote feed.
pub fn feed_step(exchange: Exchange, event: FeedEvent) -> (r: FeedAction)
    ensures
        r == feed_rule(exchange, event),
{
    match event {
        FeedEvent::ConnectFailed => FeedAction::Reconnect,
        FeedEvent::Connected => FeedAction::Subscribe,
        FeedEvent::Text(Some(q)) => FeedAction::Publish(q),
        FeedEvent::Text(None) => match exchange {
            Exchange::Okx => FeedAction::LogUnparsed,
            Exchange::Bybit => FeedAction::Ignore,
        },
        FeedEvent::Ping => match exchange {
            Exchange::Okx => FeedAction::Pong,
            Exchange::Bybit => FeedAction::Ignore,
        },
        FeedEvent::OtherFrame => FeedAction::Ignore,
        FeedEvent::Lost => FeedAction::Reconnect,
        FeedEvent::SendFailed => FeedAction::Reconnect,
    }
}

/// The Bybit topic of the one-level order book of `symbol`.
pub fn bybit_orderbook_topic(symbol: &str) -> (r: String)
    ensures
        r@ == "orderbook.1."@ + symbol@,
{
    let mut topic = String::from_str("orderbook.1.");
    topic.append(symbol);
    topic
}

// ---------------------------------------------------------------------------
// laws

/// A decoded Bybit quote is Bybit's, stamped with `cts`, and each of its four
/// numbers is read from its own place: the bid from the first bid level, the
/// ask from the first ask level, the price from the first column and the size
/// from the second. It is decoded whenever both sides have a level, all four
/// numbers read and `cts` fits an `i64`.
pub proof fn lemma_bybit_quote_fields(msg: BybitBookMsg)
    ensures
        bybit_quote_of(msg) matches Some(q) ==> {
            &&& msg.data.b@.len() > 0
            &&& msg.data.a@.len() > 0
            &&& q.exchange == Exchange::Bybit
            &&& Some(q.bid_px) == fixed_of(msg.data.b@[0].price@)
            &&& Some(q.bid_sz) == fixed_of(msg.data.b@[0].size@)
            &&& Some(q.ask_px) == fixed_of(msg.data.a@[0].price@)
            &&& Some(q.ask_sz) == fixed_of(msg.data.a@[0].size@)
            &&& q.ts == msg.cts
        },
        msg.data.b@.len() > 0 && msg.data.a@.len() > 0 && fixed_of(msg.data.b@[0].price@) is Some
            && fixed_of(msg.data.b@[0].size@) is Some && fixed_of(msg.data.a@[0].price@) is Some
            && fixed_of(msg.data.a@[0].size@) is Some && msg.cts <= i64::MAX ==> bybit_quote_of(
            msg,
        ) is Some,
{
}

/// A decoded OKX quote is OKX's, stamped with the first entry's `ts`, and
/// each of its four numbers is read from its own place in that entry: the
/// bid from the first bid level, the ask from the first ask level, the price
/// from the first column and the size from the second. It is decoded
/// whenever there is an entry, both its sides have a level, all four numbers
/// read and `ts` is a whole `i64`.
pub proof fn lemma_okx_quote_fields(msg: OkxBookMsg)
    ensures
        okx_quote_of(msg) matches Some(q) ==> {
            &&& msg.data@.len() > 0
            &&& msg.data@[0].bids@.len() > 0
            &&& msg.data@[0].asks@.len() > 0
            &&& q.exchange == Exchange::Okx
            &&& Some(q.bid_px) == fixed_of(msg.data@[0].bids@[0].price@)
            &&& Some(q.bid_sz) == fixed_of(msg.data@[0].bids@[0].size@)
            &&& Some(q.ask_px) == fixed_of(msg.data@[0].asks@[0].price@)
            &&& Some(q.ask_sz) == fixed_of(msg.data@[0].asks@[0].size@)
            &&& Some(q.ts) == i64_of(msg.data@[0].ts@)
        },
        msg.data@.len() > 0 && msg.data@[0].bids@.len() > 0 && msg.data@[0].asks@.len() > 0
            && fixed_of(msg.data@[0].bids@[0].price@) is Some && fixed_of(
            msg.data@[0].bids@[0].size@,
        ) is Some && fixed_of(msg.data@[0].asks@[0].price@) is Some && fixed_of(
            msg.data@[0].asks@[0].size@,
        ) is Some && i64_of(msg.data@[0].ts@) is Some ==> okx_quote_of(msg) is Some,
{
}

/// On either venue: a frame that decodes to a quote publishes that quote; a
/// failed connection, a lost stream or a failed send reconnects; a new
/// connection subscribes; any other frame is passed over. OKX answers pings
/// and notes text frames that are not quotes; Bybit does neither.
pub proof fn lemma_feed_rules(exchange: Exchange, q: Quote)
    ensures
        feed_rule(exchange, FeedEvent::Text(Some(q))) == FeedAction::Publish(q),
        feed_rule(exchange, FeedEvent::ConnectFailed) == FeedAction::Reconnect,
        feed_rule(exchange, FeedEvent::Lost) == FeedAction::Reconnect,
        feed_rule(exchange, FeedEvent::SendFailed) == FeedAction::Reconnect,
        feed_rule(exchange, FeedEvent::Connected) == FeedAction::Subscribe,
        feed_rule(exchange, FeedEvent::OtherFrame) == FeedAction::Ignore,
        feed_rule(exchange, FeedEvent::Ping) == if exchange == Exchange::Okx {
            FeedAction::Pong
        } else {
            FeedAction::Ignore
        },
        feed_rule(exchange, FeedEvent::Text(None)) == if exchange == Exchange::Okx {
            FeedAction::LogUnparsed
        } else {
            FeedAction::Ignore
        },
{
}

/// The contract multiplier is the first listed `ctVal`, read as a number;
/// later entries play no part.
pub proof fn lemma_ct_mult_is_first_entry(ct_vals: Seq<String>)
    ensures
        ct_vals.len() == 0 <==> ct_mult_of(ct_vals) == Err::<Fixed, InstrumentError>(
            InstrumentError::NoInstrument,
        ),
        ct_vals.len() > 0 ==> (ct_mult_of(ct_vals) matches Ok(v) ==> Some(v) == fixed_of(ct_vals[0]@)),
        ct_vals.len() > 0 && fixed_of(ct_vals[0]@) is Some ==> ct_mult_of(ct_vals) is Ok,
{
}

} // verus!
