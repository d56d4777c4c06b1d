//! Market orders sent over the order WebSockets.
use vstd::prelude::*;

use crate::engine::Side;
use crate::model::Exchange;
use crate::text::{format_i64, int_text, str_eq};

verus! {

/// An order side that the venue does not know.
#[derive(Clone, Copy, Debug, PartialEq, Eq, Structural)]
pub enum OrderError {
    InvalidSide,
}

/// An OKX `order` request: a cross-margin market order.
#[derive(Clone, Debug)]
pub struct OkxOrder {
    pub id: String,
    pub inst_id: String,
    pub td_mode: String,
    pub side: String,
    pub ord_type: String,
    pub sz: String,
    /// `Some(true)` on closing orders; absent on opening ones.
    pub reduce_only: Option<bool>,
}

/// A Bybit `order.create` request: a linear immediate-or-cancel market order.
#[derive(Clone, Debug)]
pub struct BybitOrder {
    /// The `X-BAPI-TIMESTAMP` header, in milliseconds.
    pub timestamp: String,
    pub symbol: String,
    pub side: String,
    pub order_type: String,
    pub qty: String,
    pub category: String,
    pub time_in_force: String,
    /// `Some(true)` on closing orders; absent on opening ones.
    pub reduce_only: Option<bool>,
}

pub open spec fn okx_side_ok(side: Seq<char>) -> bool {
    side == "buy"@ || side == "sell"@
}

pub open spec fn bybit_side_ok(side: Seq<char>) -> bool {
    side == "Buy"@ || side == "Sell"@
}

/// The OKX order with request id `id`, when `side` is `buy` or `sell`.
pub open spec fn okx_order_is(
    r: Result<OkxOrder, OrderError>,
    id: Seq<char>,
    inst_id: Seq<char>,
    side: Seq<char>,
    sz: Seq<char>,
    reduce_only: Option<bool>,
) -> bool {
    if okx_side_ok(side) {
        r matches Ok(o) && {
            &&& o.id@ == id
            &&& o.inst_id@ == inst_id
            &&& o.td_mode@ == "cross"@
            &&& o.side@ == side
            &&& o.ord_type@ == "market"@
            &&& o.sz@ == sz
            &&& o.reduce_only == reduce_only
        }
    } else {
        r == Err::<OkxOrder, OrderError>(OrderError::InvalidSide)
    }
}

/// The Bybit order stamped `ts_ms`, when `side` is `Buy` or `Sell`.
pub open spec fn bybit_order_is(
    r: Result<BybitOrder, OrderError>,
    symbol: Seq<char>,
    side: Seq<char>,
    qty: Seq<char>,
    ts_ms: i64,
    reduce_only: Option<bool>,
) -> bool {
    if bybit_side_ok(side) {
        r matches Ok(o) && {
            &&& o.timestamp@ == int_text(ts_ms as int)
            &&& o.symbol@ == symbol
            &&& o.side@ == side
            &&& o.order_type@ == "Market"@
            &&& o.qty@ == qty
            &&& o.category@ == "linear"@
            &&& o.time_in_force@ == "IOC"@
            &&& o.reduce_only == reduce_only
        }
    } else {
        r == Err::<BybitOrder, OrderError>(OrderError::InvalidSide)
    }
}

fn okx_order(id: &str, inst_id: &str, side: &str, sz: &str, reduce_only: Option<bool>) -> (r: Result<
    OkxOrder,
    OrderError,
>)
    ensures
        okx_order_is(r, id@, inst_id@, side@, sz@, reduce_only),
{
    if !(str_eq(side, "buy") || str_eq(side, "sell")) {
        return Err(OrderError::InvalidSide);
    }
    Ok(
        OkxOrder {
            id: String::from_str(id),
            inst_id: String::from_str(inst_id),
            td_mode: String::from_str("cross"),
            side: String::from_str(side),
            ord_type: String::from_str("market"),
            sz: String::from_str(sz),
            reduce_only,
        },
    )
}

fn bybit_order(symbol: &str, side: &str, qty: &str, ts_ms: i64, reduce_only: Option<bool>) -> (r:
    Result<BybitOrder, OrderError>)
    ensures
        bybit_order_is(r, symbol@, side@, qty@, ts_ms, reduce_only),
{
    if !(str_eq(side, "Buy") || str_eq(side, "Sell")) {
        return Err(OrderError::InvalidSide);
    }
    Ok(
        BybitOrder {
            timestamp: format_i64(ts_ms),
            symbol: String::from_str(symbol),
            side: String::from_str(side),
            order_type: String::from_str("Market"),
            qty: String::from_str(qty),
            category: String::from_str("linear"),
            time_in_force: String::from_str("IOC"),
            reduce_only,
        },
    )
}

/// How `venue` spells `side`: `buy`/`sell` on OKX, `Buy`/`Sell` on Bybit.
pub fn side_name(venue: Exchange, side: Side) -> (r: &'static str)
    ensures
        r@ == match (venue, side) {
            (Exchange::Okx, Side::Buy) => "buy"@,
            (Exchange::Okx, Side::Sell) => "sell"@,
            (Exchange::Bybit, Side::Buy) => "Buy"@,
            (Exchange::Bybit, Side::Sell) => "Sell"@,
        },
        venue == Exchange::Okx ==> okx_side_ok(r@),
        venue == Exchange::Bybit ==> bybit_side_ok(r@),
{
    match (venue, side) {
        (Exchange::Okx, Side::Buy) => "buy",
        (Exchange::Okx, Side::Sell) => "sell",
        (Exchange::Bybit, Side::Buy) => "Buy",
        (Exchange::Bybit, Side::Sell) => "Sell",
    }
}

/// The OKX opening market order (request id `1`); `side` is `buy` or `sell`.
pub fn okx_open_order(inst_id: &str, side: &str, sz: &str) -> (r: Result<OkxOrder, OrderError>)
    ensures
        okx_order_is(r, "1"@, inst_id@, side@, sz@, None),
{
    okx_order("1", inst_id, side, sz, None)
}

/// The OKX reduce-only closing market order (request id `okx-close-1`);
/// `side` is `buy` or `sell`.
pub fn okx_close_order(inst_id: &str, side: &str, sz: &str) -> (r: Result<OkxOrder, OrderError>)
    ensures
        okx_order_is(r, "okx-close-1"@, inst_id@, side@, sz@, Some(true)),
{
    okx_order("okx-close-1", inst_id, side, sz, Some(true))
}

/// The Bybit opening market order stamped `ts_ms`; `side` is `Buy` or `Sell`.
pub fn bybit_open_order(symbol: &str, side: &str, qty: &str, ts_ms: i64) -> (r: Result<
    BybitOrder,
    OrderError,
>)
    ensures
        bybit_order_is(r, symbol@, side@, qty@, ts_ms, None),
{
    bybit_order(symbol, side, qty, ts_ms, None)
}

/// The Bybit reduce-only closing market order stamped `ts_ms`; `side` is
/// `Buy` or `Sell`.
pub fn bybit_close_order(symbol: &str, side: &str, qty: &str, ts_ms: i64) -> (r: Result<
    BybitOrder,
    OrderError,
>)
    ensures
        bybit_order_is(r, symbol@, side@, qty@, ts_ms, Some(true)),
{
    bybit_order(symbol, side, qty, ts_ms, Some(true))
}

// ---------------------------------------------------------------------------
// laws

/// An OKX order is made exactly for the sides `buy` and `sell`; it is then a
/// cross-margin market order carrying the given id, instrument, side, size
/// and reduce-only flag.
pub proof fn lemma_okx_order_shape(
    r: Result<OkxOrder, OrderError>,
    id: Seq<char>,
    inst_id: Seq<char>,
    side: Seq<char>,
    sz: Seq<char>,
    reduce_only: Option<bool>,
)
    requires
        okx_order_is(r, id, inst_id, side, sz, reduce_only),
    ensures
        r is Ok <==> (side == "buy"@ || side == "sell"@),
        r is Err ==> r == Err::<OkxOrder, OrderError>(OrderError::InvalidSide),
        r matches Ok(o) ==> o.id@ == id && o.inst_id@ == inst_id && o.td_mode@ == "cross"@
            && o.side@ == side && o.ord_type@ == "market"@ && o.sz@ == sz && o.reduce_only
            == reduce_only,
{
}

/// A Bybit order is made exactly for the sides `Buy` and `Sell`; it is then
/// a linear immediate-or-cancel market order stamped with the given time, for
/// the given symbol, side, quantity and reduce-only flag.
pub proof fn lemma_bybit_order_shape(
    r: Result<BybitOrder, OrderError>,
    symbol: Seq<char>,
    side: Seq<char>,
    qty: Seq<char>,
    ts_ms: i64,
    reduce_only: Option<bool>,
)
    requires
        bybit_order_is(r, symbol, side, qty, ts_ms, reduce_only),
    ensures
        r is Ok <==> (side == "Buy"@ || side == "Sell"@),
        r is Err ==> r == Err::<BybitOrder, OrderError>(OrderError::InvalidSide),
        r matches Ok(o) ==> o.timestamp@ == int_text(ts_ms as int) && o.symbol@ == symbol && o.side@
            == side && o.order_type@ == "Market"@ && o.qty@ == qty && o.category@ == "linear"@
            && o.time_in_force@ == "IOC"@ && o.reduce_only == reduce_only,
{
}

} // verus!
