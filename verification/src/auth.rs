//! Logging in to the private WebSocket endpoints: the signed login requests
//! and the handshake that reads the server's replies.
use vstd::prelude::*;
use vstd::utf8::encode_utf8;

use crate::json::{is_int, is_text, is_true, scalar_is_int, scalar_is_text, scalar_is_true, Scalar};
use crate::signing::{bybit_signature, okx_signature, sign_bybit, sign_okx};
use crate::text::{format_i64, int_text};

verus! {

// ---------------------------------------------------------------------------
// login requests

/// The path OKX signs a WebSocket login over.
pub open spec fn okx_verify_path() -> Seq<char> {
    "GET/users/self/verify"@
}

/// The path Bybit signs a WebSocket authentication over.
pub open spec fn bybit_realtime_path() -> Seq<char> {
    "GET/realtime"@
}

/// Bybit login requests stay valid for this many milliseconds.
pub const BYBIT_AUTH_WINDOW_MS: i64 = 5000;

/// The single argument of an OKX `login` request.
#[derive(Clone, Debug)]
pub struct OkxLoginArgs {
    pub api_key: String,
    pub passphrase: String,
    pub timestamp: String,
    pub sign: String,
}

/// The arguments of a Bybit `auth` request: key, expiry, signature.
#[derive(Clone, Debug)]
pub struct BybitAuthArgs {
    pub api_key: String,
    pub expires: i64,
    pub signature: String,
}

/// The OKX login arguments at `now_secs` (Unix seconds): the timestamp in
/// decimal, signed together with `GET/users/self/verify`.
pub fn okx_login_args(api_key: &str, secret: &str, passphrase: &str, now_secs: i64) -> (r:
    OkxLoginArgs)
    ensures
        r.api_key@ == api_key@,
        r.passphrase@ == passphrase@,
        r.timestamp@ == int_text(now_secs as int),
        r.sign@ == okx_signature(
            encode_utf8(secret@),
            encode_utf8(int_text(now_secs as int) + okx_verify_path()),
        ),
{
    let timestamp = format_i64(now_secs);
    let mut prehash = timestamp.clone();
    prehash.append("GET/users/self/verify");
    let sign = sign_okx(secret, prehash.as_str());
    OkxLoginArgs {
        api_key: String::from_str(api_key),
        passphrase: String::from_str(passphrase),
        timestamp,
        sign,
    }
}

/// The Bybit auth arguments at `now_ms` (Unix milliseconds): an expiry five
/// seconds ahead, signed as `GET/realtime` followed by the expiry in decimal.
pub fn bybit_auth_args(api_key: &str, secret: &str, now_ms: i64) -> (r: BybitAuthArgs)
    requires
        now_ms <= i64::MAX - BYBIT_AUTH_WINDOW_MS,
    ensures
        r.api_key@ == api_key@,
        r.expires == now_ms + BYBIT_AUTH_WINDOW_MS,
        r.signature@ == bybit_signature(
            encode_utf8(secret@),
            encode_utf8(bybit_realtime_path() + int_text(r.expires as int)),
        ),
{
    let expires: i64 = now_ms + BYBIT_AUTH_WINDOW_MS;
    let mut payload = String::from_str("GET/realtime");
    let digits = format_i64(expires);
    payload.append(digits.as_str());
    let signature = sign_bybit(secret, payload.as_str());
    BybitAuthArgs { api_key: String::from_str(api_key), expires, signature }
}

// ---------------------------------------------------------------------------
// the handshake

/// The fields of a server reply that the handshake looks at, each read at
/// its JSON path (`event`, `op`, `code`, `retCode`, `success`,
/// `arg.channel`).
#[derive(Clone, Debug)]
pub struct Reply {
    pub event: Scalar,
    pub op: Scalar,
    pub code: Scalar,
    pub ret_code: Scalar,
    pub success: Scalar,
    pub arg_channel: Scalar,
}

/// Which login is under way.
#[derive(Clone, Copy, Debug, PartialEq, Eq, Structural)]
pub enum LoginFlow {
    /// The OKX order connection: login only.
    OkxTrade,
    /// The Bybit order connection: auth only.
    BybitTrade,
    /// The OKX private connection: login, then the `account` channel.
    OkxAccount,
    /// The Bybit private connection: auth, then the `wallet` topic.
    BybitWallet,
}

/// What one reply says about the step awaited.
#[derive(Clone, Copy, Debug, PartialEq, Eq, Structural)]
pub enum Verdict {
    /// The reply is about something else.
    Ignore,
    Accepted,
    Rejected,
}

/// What a reply says about the login request.
pub open spec fn login_verdict(flow: LoginFlow, r: Reply) -> Verdict {
    match flow {
        LoginFlow::OkxTrade => if is_text(r.event, "login"@) {
            if is_text(r.code, "0"@) {
                Verdict::Accepted
            } else {
                Verdict::Rejected
            }
        } else {
            Verdict::Ignore
        },
        LoginFlow::BybitTrade => if is_text(r.op, "auth"@) {
            if is_int(r.ret_code, 0) || is_true(r.success) {
                Verdict::Accepted
            } else {
                Verdict::Rejected
            }
        } else {
            Verdict::Ignore
        },
        LoginFlow::OkxAccount => if is_text(r.event, "login"@) || is_text(r.op, "login"@) {
            if is_text(r.code, "0"@) || is_true(r.success) {
                Verdict::Accepted
            } else {
                Verdict::Rejected
            }
        } else {
            Verdict::Ignore
        },
        LoginFlow::BybitWallet => if is_text(r.op, "auth"@) {
            if is_true(r.success) {
                Verdict::Accepted
            } else {
                Verdict::Rejected
            }
        } else {
            Verdict::Ignore
        },
    }
}

/// What a reply says about the subscription request.
pub open spec fn subscribe_verdict(flow: LoginFlow, r: Reply) -> Verdict {
    match flow {
        LoginFlow::OkxAccount => if is_text(r.event, "subscribe"@) && is_text(
            r.arg_channel,
            "account"@,
        ) {
            Verdict::Accepted
        } else {
            Verdict::Ignore
        },
        LoginFlow::BybitWallet => if is_text(r.op, "subscribe"@) {
            if is_true(r.success) {
                Verdict::Accepted
            } else {
                Verdict::Rejected
            }
        } else {
            Verdict::Ignore
        },
        _ => Verdict::Ignore,
    }
}

pub fn reply_login_verdict(flow: LoginFlow, r: &Reply) -> (v: Verdict)
    ensures
        v == login_verdict(flow, *r),
{
    match flow {
        LoginFlow::OkxTrade => {
            if scalar_is_text(&r.event, "login") {
                if scalar_is_text(&r.code, "0") {
                    Verdict::Accepted
                } else {
                    Verdict::Rejected
                }
            } else {
                Verdict::Ignore
            }
        },
        LoginFlow::BybitTrade => {
            if scalar_is_text(&r.op, "auth") {
                if scalar_is_int(&r.ret_code, 0) || scalar_is_true(&r.success) {
                    Verdict::Accepted
                } else {
                    Verdict::Rejected
                }
            } else {
                Verdict::Ignore
            }
        },
        LoginFlow::OkxAccount => {
            if scalar_is_text(&r.event, "login") || scalar_is_text(&r.op, "login") {
                if scalar_is_text(&r.code, "0") || scalar_is_true(&r.success) {
                    Verdict::Accepted
                } else {
                    Verdict::Rejected
                }
            } else {
                Verdict::Ignore
            }
        },
        LoginFlow::BybitWallet => {
            if scalar_is_text(&r.op, "auth") {
                if scalar_is_true(&r.success) {
                    Verdict::Accepted
                } else {
                    Verdict::Rejected
                }
            } else {
                Verdict::Ignore
            }
        },
    }
}

pub fn reply_subscribe_verdict(flow: LoginFlow, r: &Reply) -> (v: Verdict)
    ensures
        v == subscribe_verdict(flow, *r),
{
    match flow {
        LoginFlow::OkxAccount => {
            if scalar_is_text(&r.event, "subscribe") && scalar_is_text(&r.arg_channel, "account") {
                Verdict::Accepted
            } else {
                Verdict::Ignore
            }
        },
        LoginFlow::BybitWallet => {
            if scalar_is_text(&r.op, "subscribe") {
                if scalar_is_true(&r.success) {
                    Verdict::Accepted
                } else {
                    Verdict::Rejected
                }
            } else {
                Verdict::Ignore
            }
        },
        _ => Verdict::Ignore,
    }
}

/// What the connection delivered next.
#[derive(Clone, Debug)]
pub enum Incoming {
    /// A text frame: `Some` when it is JSON, with the fields read off it.
    Text(Option<Reply>),
    /// A frame that is not text.
    OtherFrame,
    /// Reading failed.
    ReadError,
    /// The server ended the stream.
    Closed,
}

/// Why a login ended without a connection.
#[derive(Clone, Copy, Debug, PartialEq, Eq, Structural)]
pub enum LoginFailure {
    /// The server refused the login or the subscription.
    Rejected,
    /// A text frame that is not JSON arrived on an order connection.
    Malformed,
    /// Reading from the connection failed.
    ReadError,
    /// The stream ended before the order connection logged in.
    Disconnected,
}

/// Where a handshake stands.
#[derive(Clone, Copy, Debug, PartialEq, Eq, Structural)]
pub enum LoginStage {
    AwaitLogin,
    AwaitSubscription,
    Ready,
    Failed(LoginFailure),
}

/// What the caller does next.
#[derive(Clone, Copy, Debug, PartialEq, Eq, Structural)]
pub enum LoginStep {
    /// Read the next frame.
    ReadNext,
    /// Send the subscription request, then read on.
    Subscribe,
    /// The connection is ready for use.
    Ready,
    /// Give up with this reason.
    Fail(LoginFailure),
}

pub open spec fn is_order_flow(flow: LoginFlow) -> bool {
    flow == LoginFlow::OkxTrade || flow == LoginFlow::BybitTrade
}

/// The handshake: the next stage and step after `input` at `stage`.
///
/// The private (account) connections skip frames that are not JSON, and a
/// stream that ends while they wait moves them on as if the reply had come.
pub open spec fn login_transition(flow: LoginFlow, stage: LoginStage, input: Incoming) -> (
    LoginStage,
    LoginStep,
) {
    match stage {
        LoginStage::AwaitLogin => match input {
            Incoming::Text(Some(r)) => match login_verdict(flow, r) {
                Verdict::Ignore => (stage, LoginStep::ReadNext),
                Verdict::Rejected => (
                    LoginStage::Failed(LoginFailure::Rejected),
                    LoginStep::Fail(LoginFailure::Rejected),
                ),
                Verdict::Accepted => if is_order_flow(flow) {
                    (LoginStage::Ready, LoginStep::Ready)
                } else {
                    (LoginStage::AwaitSubscription, LoginStep::Subscribe)
                },
            },
            Incoming::Text(None) => if is_order_flow(flow) {
                (LoginStage::Failed(LoginFailure::Malformed), LoginStep::Fail(LoginFailure::Malformed))
            } else {
                (stage, LoginStep::ReadNext)
            },
            Incoming::OtherFrame => (stage, LoginStep::ReadNext),
            Incoming::ReadError => (
                LoginStage::Failed(LoginFailure::ReadError),
                LoginStep::Fail(LoginFailure::ReadError),
            ),
            Incoming::Closed => if is_order_flow(flow) {
                (
                    LoginStage::Failed(LoginFailure::Disconnected),
                    LoginStep::Fail(LoginFailure::Disconnected),
                )
            } else {
                (LoginStage::AwaitSubscription, LoginStep::Subscribe)
            },
        },
        LoginStage::AwaitSubscription => match input {
            Incoming::Text(Some(r)) => match subscribe_verdict(flow, r) {
                Verdict::Ignore => (stage, LoginStep::ReadNext),
                Verdict::Rejected => (
                    LoginStage::Failed(LoginFailure::Rejected),
                    LoginStep::Fail(LoginFailure::Rejected),
                ),
                Verdict::Accepted => (LoginStage::Ready, LoginStep::Ready),
            },
            Incoming::Text(None) => (stage, LoginStep::ReadNext),
            Incoming::OtherFrame => (stage, LoginStep::ReadNext),
            Incoming::ReadError => (
                LoginStage::Failed(LoginFailure::ReadError),
                LoginStep::Fail(LoginFailure::ReadError),
            ),
            Incoming::Closed => (LoginStage::Ready, LoginStep::Ready),
        },
        LoginStage::Ready => (stage, LoginStep::Ready),
        LoginStage::Failed(why) => (stage, LoginStep::Fail(why)),
    }
}

/// A login handshake in progress.
pub struct LoginSession {
    pub flow: LoginFlow,
    pub stage: LoginStage,
}

impl LoginSession {
    /// A handshake whose login request has just been sent.
    pub fn new(flow: LoginFlow) -> (r: LoginSession)
        ensures
            r.flow == flow,
            r.stage == LoginStage::AwaitLogin,
    {
        LoginSession { flow, stage: LoginStage::AwaitLogin }
    }

    /// Takes in what the connection delivered and says what to do next.
    pub fn step(&mut self, input: Incoming) -> (r: LoginStep)
        ensures
            final(self).flow == old(self).flow,
            (final(self).stage, r) == login_transition(old(self).flow, old(self).stage, input),
    {
        let flow = self.flow;
        let (stage, step) = match self.stage {
            LoginStage::AwaitLogin => match input {
                Incoming::Text(Some(r)) => match reply_login_verdict(flow, &r) {
                    Verdict::Ignore => (LoginStage::AwaitLogin, LoginStep::ReadNext),
                    Verdict::Rejected => (
                        LoginStage::Failed(LoginFailure::Rejected),
                        LoginStep::Fail(LoginFailure::Rejected),
                    ),
                    Verdict::Accepted => if flow == LoginFlow::OkxTrade || flow
                        == LoginFlow::BybitTrade {
                        (LoginStage::Ready, LoginStep::Ready)
                    } else {
                        (LoginStage::AwaitSubscription, LoginStep::Subscribe)
                    },
                },
                Incoming::Text(None) => if flow == LoginFlow::OkxTrade || flow
                    == LoginFlow::BybitTrade {
                    (
                        LoginStage::Failed(LoginFailure::Malformed),
                        LoginStep::Fail(LoginFailure::Malformed),
                    )
                } else {
                    (LoginStage::AwaitLogin, LoginStep::ReadNext)
                },
                Incoming::OtherFrame => (LoginStage::AwaitLogin, LoginStep::ReadNext),
                Incoming::ReadError => (
                    LoginStage::Failed(LoginFailure::ReadError),
                    LoginStep::Fail(LoginFailure::ReadError),
                ),
                Incoming::Closed => if flow == LoginFlow::OkxTrade || flow
                    == LoginFlow::BybitTrade {
                    (
                        LoginStage::Failed(LoginFailure::Disconnected),
                        LoginStep::Fail(LoginFailure::Disconnected),
                    )
                } else {
                    (LoginStage::AwaitSubscription, LoginStep::Subscribe)
                },
            },
            LoginStage::AwaitSubscription => match input {
                Incoming::Text(Some(r)) => match reply_subscribe_verdict(flow, &r) {
                    Verdict::Ignore => (LoginStage::AwaitSubscription, LoginStep::ReadNext),
                    Verdict::Rejected => (
                        LoginStage::Failed(LoginFailure::Rejected),
                        LoginStep::Fail(LoginFailure::Rejected),
                    ),
                    Verdict::Accepted => (LoginStage::Ready, LoginStep::Ready),
                },
                Incoming::Text(None) => (LoginStage::AwaitSubscription, LoginStep::ReadNext),
                Incoming::OtherFrame => (LoginStage::AwaitSubscription, LoginStep::ReadNext),
                Incoming::ReadError => (
                    LoginStage::Failed(LoginFailure::ReadError),
                    LoginStep::Fail(LoginFailure::ReadError),
                ),
                Incoming::Closed => (LoginStage::Ready, LoginStep::Ready),
            },
            LoginStage::Ready => (LoginStage::Ready, LoginStep::Ready),
            LoginStage::Failed(why) => (LoginStage::Failed(why), LoginStep::Fail(why)),
        };
        self.stage = stage;
        step
    }
}

// ---------------------------------------------------------------------------
// laws

/// An order connection never waits for a subscription.
pub proof fn lemma_order_login_never_subscribes(flow: LoginFlow, stage: LoginStage, input: Incoming)
    requires
        is_order_flow(flow),
        stage != LoginStage::AwaitSubscription,
    ensures
        login_transition(flow, stage, input).0 != LoginStage::AwaitSubscription,
        login_transition(flow, stage, input).1 != LoginStep::Subscribe,
{
}

/// An order connection is ready only on a reply that accepts the login.
pub proof fn lemma_order_login_needs_acceptance(flow: LoginFlow, stage: LoginStage, input: Incoming)
    requires
        is_order_flow(flow),
        stage != LoginStage::Ready,
        stage != LoginStage::AwaitSubscription,
        login_transition(flow, stage, input).0 == LoginStage::Ready,
    ensures
        stage == LoginStage::AwaitLogin,
        input matches Incoming::Text(Some(r)) && login_verdict(flow, r) == Verdict::Accepted,
{
}

/// A refused login or subscription fails the handshake.
pub proof fn lemma_rejection_fails(flow: LoginFlow, r: Reply)
    ensures
        login_verdict(flow, r) == Verdict::Rejected ==> login_transition(
            flow,
            LoginStage::AwaitLogin,
            Incoming::Text(Some(r)),
        ).1 == LoginStep::Fail(LoginFailure::Rejected),
        subscribe_verdict(flow, r) == Verdict::Rejected ==> login_transition(
            flow,
            LoginStage::AwaitSubscription,
            Incoming::Text(Some(r)),
        ).1 == LoginStep::Fail(LoginFailure::Rejected),
{
}

/// A finished handshake stays finished, whatever arrives.
pub proof fn lemma_finished_handshake_is_final(flow: LoginFlow, stage: LoginStage, input: Incoming)
    requires
        stage == LoginStage::Ready || stage is Failed,
    ensures
        login_transition(flow, stage, input).0 == stage,
{
}

/// The OKX order connection is ready on a `login` event with code `"0"`,
/// fails on any other `login` event, and reads past every other reply.
pub proof fn lemma_okx_trade_login_replies(r: Reply)
    ensures
        login_transition(LoginFlow::OkxTrade, LoginStage::AwaitLogin, Incoming::Text(Some(r))) == (
        if is_text(r.event, "login"@) {
            if is_text(r.code, "0"@) {
                (LoginStage::Ready, LoginStep::Ready)
            } else {
                (LoginStage::Failed(LoginFailure::Rejected), LoginStep::Fail(LoginFailure::Rejected))
            }
        } else {
            (LoginStage::AwaitLogin, LoginStep::ReadNext)
        }),
{
}

/// The Bybit order connection is ready on an `auth` reply with `retCode` 0
/// or `success` true, fails on any other `auth` reply, and reads past every
/// other reply.
pub proof fn lemma_bybit_trade_auth_replies(r: Reply)
    ensures
        login_transition(LoginFlow::BybitTrade, LoginStage::AwaitLogin, Incoming::Text(Some(r))) == (
        if is_text(r.op, "auth"@) {
            if is_int(r.ret_code, 0) || is_true(r.success) {
                (LoginStage::Ready, LoginStep::Ready)
            } else {
                (LoginStage::Failed(LoginFailure::Rejected), LoginStep::Fail(LoginFailure::Rejected))
            }
        } else {
            (LoginStage::AwaitLogin, LoginStep::ReadNext)
        }),
{
}

/// The OKX account connection subscribes after a `login` reply (by `event` or
/// by `op`) with code `"0"` or `success` true, fails on any other `login`
/// reply, and then is ready once the `account` channel is confirmed; every
/// other reply is read past, and no subscription reply fails it.
pub proof fn lemma_okx_account_replies(r: Reply)
    ensures
        login_transition(LoginFlow::OkxAccount, LoginStage::AwaitLogin, Incoming::Text(Some(r))) == (
        if is_text(r.event, "login"@) || is_text(r.op, "login"@) {
            if is_text(r.code, "0"@) || is_true(r.success) {
                (LoginStage::AwaitSubscription, LoginStep::Subscribe)
            } else {
                (LoginStage::Failed(LoginFailure::Rejected), LoginStep::Fail(LoginFailure::Rejected))
            }
        } else {
            (LoginStage::AwaitLogin, LoginStep::ReadNext)
        }),
        login_transition(
            LoginFlow::OkxAccount,
            LoginStage::AwaitSubscription,
            Incoming::Text(Some(r)),
        ) == (if is_text(r.event, "subscribe"@) && is_text(r.arg_channel, "account"@) {
            (LoginStage::Ready, LoginStep::Ready)
        } else {
            (LoginStage::AwaitSubscription, LoginStep::ReadNext)
        }),
{
}

/// The Bybit wallet connection subscribes after an `auth` reply with
/// `success` true, fails on any other `auth` reply, and then is ready on a
/// `subscribe` reply with `success` true and fails on any other; every other
/// reply is read past.
pub proof fn lemma_bybit_wallet_replies(r: Reply)
    ensures
        login_transition(LoginFlow::BybitWallet, LoginStage::AwaitLogin, Incoming::Text(Some(r))) == (
        if is_text(r.op, "auth"@) {
            if is_true(r.success) {
                (LoginStage::AwaitSubscription, LoginStep::Subscribe)
            } else {
                (LoginStage::Failed(LoginFailure::Rejected), LoginStep::Fail(LoginFailure::Rejected))
            }
        } else {
            (LoginStage::AwaitLogin, LoginStep::ReadNext)
        }),
        login_transition(
            LoginFlow::BybitWallet,
            LoginStage::AwaitSubscription,
            Incoming::Text(Some(r)),
        ) == (if is_text(r.op, "subscribe"@) {
            if is_true(r.success) {
                (LoginStage::Ready, LoginStep::Ready)
            } else {
                (LoginStage::Failed(LoginFailure::Rejected), LoginStep::Fail(LoginFailure::Rejected))
            }
        } else {
            (LoginStage::AwaitSubscription, LoginStep::ReadNext)
        }),
{
}

/// Frames other than JSON replies: a read error fails every handshake; a
/// non-text frame is read past; a text frame that is not JSON fails an order
/// login and is read past otherwise; a stream that ends fails an order login
/// and moves an account login on (to the subscription, then to ready).
pub proof fn lemma_other_frames(flow: LoginFlow)
    ensures
        login_transition(flow, LoginStage::AwaitLogin, Incoming::ReadError) == (
            LoginStage::Failed(LoginFailure::ReadError),
            LoginStep::Fail(LoginFailure::ReadError),
        ),
        login_transition(flow, LoginStage::AwaitSubscription, Incoming::ReadError) == (
            LoginStage::Failed(LoginFailure::ReadError),
            LoginStep::Fail(LoginFailure::ReadError),
        ),
        login_transition(flow, LoginStage::AwaitLogin, Incoming::OtherFrame) == (
            LoginStage::AwaitLogin,
            LoginStep::ReadNext,
        ),
        login_transition(flow, LoginStage::AwaitSubscription, Incoming::OtherFrame) == (
            LoginStage::AwaitSubscription,
            LoginStep::ReadNext,
        ),
        login_transition(flow, LoginStage::AwaitSubscription, Incoming::Text(None)) == (
            LoginStage::AwaitSubscription,
            LoginStep::ReadNext,
        ),
        login_transition(flow, LoginStage::AwaitSubscription, Incoming::Closed) == (
            LoginStage::Ready,
            LoginStep::Ready,
        ),
        flow == LoginFlow::OkxTrade || flow == LoginFlow::BybitTrade ==> login_transition(
            flow,
            LoginStage::AwaitLogin,
            Incoming::Text(None),
        ) == (LoginStage::Failed(LoginFailure::Malformed), LoginStep::Fail(LoginFailure::Malformed))
            && login_transition(flow, LoginStage::AwaitLogin, Incoming::Closed) == (
            LoginStage::Failed(LoginFailure::Disconnected),
            LoginStep::Fail(LoginFailure::Disconnected),
        ),
        flow == LoginFlow::OkxAccount || flow == LoginFlow::BybitWallet ==> login_transition(
            flow,
            LoginStage::AwaitLogin,
            Incoming::Text(None),
        ) == (LoginStage::AwaitLogin, LoginStep::ReadNext) && login_transition(
            flow,
            LoginStage::AwaitLogin,
            Incoming::Closed,
        ) == (LoginStage::AwaitSubscription, LoginStep::Subscribe),
{
}

/// OKX signs its login over the decimal timestamp followed by
/// `GET/users/self/verify`; Bybit over `GET/realtime` followed by the
/// decimal expiry, which lies five seconds ahead.
pub proof fn lemma_signed_texts()
    ensures
        okx_verify_path() == "GET/users/self/verify"@,
        bybit_realtime_path() == "GET/realtime"@,
        BYBIT_AUTH_WINDOW_MS == 5000,
{
}

} // verus!
