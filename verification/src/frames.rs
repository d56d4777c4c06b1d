//! The JSON text of the subscription, login and order frames.
//!
//! Object keys stand in ascending order, the order in which `serde_json`
//! writes a map.
use vstd::prelude::*;
use vstd::string::*;

use crate::auth::{BybitAuthArgs, OkxLoginArgs};
use crate::json::{json_quoted, json_string};
use crate::market::bybit_orderbook_topic;
use crate::orders::{BybitOrder, OkxOrder};
use crate::text::{format_i64, int_text};

verus! {

/// Subscribes to the OKX `bbo-tbt` channel of `inst_id`.
pub fn okx_bbo_subscription(inst_id: &str) -> (r: String)
    ensures
        r@ == "{\"args\":[{\"channel\":\"bbo-tbt\",\"instId\":"@ + json_quoted(inst_id@)
            + "}],\"op\":\"subscribe\"}"@,
{
    let mut r = String::from_str("{\"args\":[{\"channel\":\"bbo-tbt\",\"instId\":");
    let id = json_string(inst_id);
    r.append(id.as_str());
    r.append("}],\"op\":\"subscribe\"}");
    r
}

/// Subscribes to the Bybit one-level order book of `symbol`.
pub fn bybit_orderbook_subscription(symbol: &str) -> (r: String)
    ensures
        r@ == "{\"args\":["@ + json_quoted("orderbook.1."@ + symbol@) + "],\"op\":\"subscribe\"}"@,
{
    let topic = bybit_orderbook_topic(symbol);
    let mut r = String::from_str("{\"args\":[");
    let quoted = json_string(topic.as_str());
    r.append(quoted.as_str());
    r.append("],\"op\":\"subscribe\"}");
    r
}

/// Subscribes to the OKX `account` channel.
pub fn okx_account_subscription() -> (r: String)
    ensures
        r@ == "{\"args\":[{\"channel\":\"account\"}],\"op\":\"subscribe\"}"@,
{
    String::from_str("{\"args\":[{\"channel\":\"account\"}],\"op\":\"subscribe\"}")
}

/// Subscribes to the Bybit `wallet` topic.
pub fn bybit_wallet_subscription() -> (r: String)
    ensures
        r@ == "{\"args\":[\"wallet\"],\"op\":\"subscribe\"}"@,
{
    String::from_str("{\"args\":[\"wallet\"],\"op\":\"subscribe\"}")
}

/// The OKX `login` frame carrying `args`.
pub fn okx_login_frame(args: &OkxLoginArgs) -> (r: String)
    ensures
        r@ == "{\"args\":[{\"apiKey\":"@ + json_quoted(args.api_key@) + ",\"passphrase\":"@
            + json_quoted(args.passphrase@) + ",\"sign\":"@ + json_quoted(args.sign@)
            + ",\"timestamp\":"@ + json_quoted(args.timestamp@) + "}],\"op\":\"login\"}"@,
{
    let mut r = String::from_str("{\"args\":[{\"apiKey\":");
    let key = json_string(args.api_key.as_str());
    r.append(key.as_str());
    r.append(",\"passphrase\":");
    let pass = json_string(args.passphrase.as_str());
    r.append(pass.as_str());
    r.append(",\"sign\":");
    let sign = json_string(args.sign.as_str());
    r.append(sign.as_str());
    r.append(",\"timestamp\":");
    let ts = json_string(args.timestamp.as_str());
    r.append(ts.as_str());
    r.append("}],\"op\":\"login\"}");
    r
}

/// The Bybit `auth` frame carrying `args`; the expiry is a JSON number, or
/// a JSON string when `expires_as_text` (as the private endpoint takes it).
pub fn bybit_auth_frame(args: &BybitAuthArgs, expires_as_text: bool) -> (r: String)
    ensures
        r@ == "{\"args\":["@ + json_quoted(args.api_key@) + ","@ + (if expires_as_text {
            json_quoted(int_text(args.expires as int))
        } else {
            int_text(args.expires as int)
        }) + ","@ + json_quoted(args.signature@) + "],\"op\":\"auth\"}"@,
{
    let mut r = String::from_str("{\"args\":[");
    let key = json_string(args.api_key.as_str());
    r.append(key.as_str());
    r.append(",");
    let digits = format_i64(args.expires);
    if expires_as_text {
        let quoted = json_string(digits.as_str());
        r.append(quoted.as_str());
    } else {
        r.append(digits.as_str());
    }
    r.append(",");
    let sig = json_string(args.signature.as_str());
    r.append(sig.as_str());
    r.append("],\"op\":\"auth\"}");
    r
}

/// The `reduceOnly` member of an order's arguments, with its trailing comma;
/// nothing when the order does not carry the flag.
pub open spec fn reduce_only_member(flag: Option<bool>) -> Seq<char> {
    match flag {
        Some(true) => "\"reduceOnly\":true,"@,
        Some(false) => "\"reduceOnly\":false,"@,
        None => Seq::empty(),
    }
}

fn append_reduce_only(r: &mut String, flag: Option<bool>)
    ensures
        final(r)@ == old(r)@ + reduce_only_member(flag),
{
    match flag {
        Some(true) => r.append("\"reduceOnly\":true,"),
        Some(false) => r.append("\"reduceOnly\":false,"),
        None => {
            assert(old(r)@ + reduce_only_member(flag) =~= old(r)@);
        },
    }
}

/// The OKX `order` frame carrying `order`.
pub fn okx_order_frame(order: &OkxOrder) -> (r: String)
    ensures
        r@ == "{\"args\":[{\"instId\":"@ + json_quoted(order.inst_id@) + ",\"ordType\":"@
            + json_quoted(order.ord_type@) + ","@ + reduce_only_member(order.reduce_only)
            + "\"side\":"@ + json_quoted(order.side@) + ",\"sz\":"@ + json_quoted(order.sz@)
            + ",\"tdMode\":"@ + json_quoted(order.td_mode@) + "}],\"id\":"@ + json_quoted(
            order.id@,
        ) + ",\"op\":\"order\"}"@,
{
    let mut r = String::from_str("{\"args\":[{\"instId\":");
    let inst = json_string(order.inst_id.as_str());
    r.append(inst.as_str());
    r.append(",\"ordType\":");
    let ord = json_string(order.ord_type.as_str());
    r.append(ord.as_str());
    r.append(",");
    append_reduce_only(&mut r, order.reduce_only);
    r.append("\"side\":");
    let side = json_string(order.side.as_str());
    r.append(side.as_str());
    r.append(",\"sz\":");
    let sz = json_string(order.sz.as_str());
    r.append(sz.as_str());
    r.append(",\"tdMode\":");
    let td = json_string(order.td_mode.as_str());
    r.append(td.as_str());
    r.append("}],\"id\":");
    let id = json_string(order.id.as_str());
    r.append(id.as_str());
    r.append(",\"op\":\"order\"}");
    r
}

/// The Bybit `order.create` frame carrying `order`.
pub fn bybit_order_frame(order: &BybitOrder) -> (r: String)
    ensures
        r@ == "{\"args\":[{\"category\":"@ + json_quoted(order.category@) + ",\"orderType\":"@
            + json_quoted(order.order_type@) + ",\"qty\":"@ + json_quoted(order.qty@) + ","@
            + reduce_only_member(order.reduce_only) + "\"side\":"@ + json_quoted(order.side@)
            + ",\"symbol\":"@ + json_quoted(order.symbol@) + ",\"timeInForce\":"@
            + json_quoted(order.time_in_force@) + "}],\"header\":{\"X-BAPI-TIMESTAMP\":"@
            + json_quoted(order.timestamp@) + "},\"op\":\"order.create\"}"@,
{
    let mut r = String::from_str("{\"args\":[{\"category\":");
    let category = json_string(order.category.as_str());
    r.append(category.as_str());
    r.append(",\"orderType\":");
    let kind = json_string(order.order_type.as_str());
    r.append(kind.as_str());
    r.append(",\"qty\":");
    let qty = json_string(order.qty.as_str());
    r.append(qty.as_str());
    r.append(",");
    append_reduce_only(&mut r, order.reduce_only);
    r.append("\"side\":");
    let side = json_string(order.side.as_str());
    r.append(side.as_str());
    r.append(",\"symbol\":");
    let symbol = json_string(order.symbol.as_str());
    r.append(symbol.as_str());
    r.append(",\"timeInForce\":");
    let tif = json_string(order.time_in_force.as_str());
    r.append(tif.as_str());
    r.append("}],\"header\":{\"X-BAPI-TIMESTAMP\":");
    let ts = json_string(order.timestamp.as_str());
    r.append(ts.as_str());
    r.append("},\"op\":\"order.create\"}");
    r
}

} // verus!
