use protest::auth::{
    bybit_auth_args, okx_login_args, Incoming, LoginFailure, LoginFlow, LoginSession, LoginStage, LoginStep, Reply,
};
use protest::json::Scalar;
use protest::monitor::{bybit_mm_rate, okx_margin_ratio, MarginRatioError, WalletPush};
use protest::signing::{sign_bybit, sign_okx};

fn s(x: &str) -> Scalar {
    Scalar::Str(x.to_string())
}

fn reply() -> Reply {
    Reply {
        event: Scalar::Null,
        op: Scalar::Null,
        code: Scalar::Null,
        ret_code: Scalar::Null,
        success: Scalar::Null,
        arg_channel: Scalar::Null,
    }
}

#[test]
fn okx_login_request_is_signed_over_timestamp_and_path() {
    let a = okx_login_args("key", "secret", "pass", 1_700_000_000);
    assert_eq!(a.api_key, "key");
    assert_eq!(a.passphrase, "pass");
    assert_eq!(a.timestamp, "1700000000");
    assert_eq!(a.sign, "lhmJXK08fk9SI1ZwFXKFRrPtzfbNOwC+D1xMJJ/1KZg=");
    assert_eq!(a.sign, sign_okx("secret", "1700000000GET/users/self/verify"));
}

#[test]
fn bybit_auth_request_expires_five_seconds_ahead() {
    let a = bybit_auth_args("key", "secret", 1_700_000_000_000);
    assert_eq!(a.api_key, "key");
    assert_eq!(a.expires, 1_700_000_005_000);
    assert_eq!(a.signature, "870a92b7592554e69a02b26e07d3cd0f25689e17ef588149eaf04b9c1358a6fa");
    assert_eq!(a.signature, sign_bybit("secret", "GET/realtime1700000005000"));
}

#[test]
fn okx_order_login_handshake() {
    let mut session = LoginSession::new(LoginFlow::OkxTrade);
    let mut other = reply();
    other.event = s("error");
    assert_eq!(session.step(Incoming::Text(Some(other))), LoginStep::ReadNext);
    assert_eq!(session.step(Incoming::OtherFrame), LoginStep::ReadNext);
    let mut ok = reply();
    ok.event = s("login");
    ok.code = s("0");
    assert_eq!(session.step(Incoming::Text(Some(ok))), LoginStep::Ready);
    assert_eq!(session.stage, LoginStage::Ready);

    let mut session = LoginSession::new(LoginFlow::OkxTrade);
    let mut refused = reply();
    refused.event = s("login");
    refused.code = s("60009");
    assert_eq!(session.step(Incoming::Text(Some(refused))), LoginStep::Fail(LoginFailure::Rejected));

    let mut session = LoginSession::new(LoginFlow::OkxTrade);
    assert_eq!(session.step(Incoming::Text(None)), LoginStep::Fail(LoginFailure::Malformed));
    let mut session = LoginSession::new(LoginFlow::OkxTrade);
    assert_eq!(session.step(Incoming::Closed), LoginStep::Fail(LoginFailure::Disconnected));
    assert_eq!(session.step(Incoming::Text(None)), LoginStep::Fail(LoginFailure::Disconnected));
    let mut session = LoginSession::new(LoginFlow::BybitTrade);
    assert_eq!(session.step(Incoming::ReadError), LoginStep::Fail(LoginFailure::ReadError));
}

#[test]
fn bybit_order_auth_accepts_ret_code_zero_or_success() {
    let mut by_code = reply();
    by_code.op = s("auth");
    by_code.ret_code = Scalar::Int(0);
    let mut session = LoginSession::new(LoginFlow::BybitTrade);
    assert_eq!(session.step(Incoming::Text(Some(by_code))), LoginStep::Ready);

    let mut by_flag = reply();
    by_flag.op = s("auth");
    by_flag.success = Scalar::Bool(true);
    let mut session = LoginSession::new(LoginFlow::BybitTrade);
    assert_eq!(session.step(Incoming::Text(Some(by_flag))), LoginStep::Ready);

    let mut refused = reply();
    refused.op = s("auth");
    refused.ret_code = Scalar::Int(10004);
    refused.success = Scalar::Bool(false);
    let mut session = LoginSession::new(LoginFlow::BybitTrade);
    assert_eq!(session.step(Incoming::Text(Some(refused))), LoginStep::Fail(LoginFailure::Rejected));
}

#[test]
fn account_logins_subscribe_after_login() {
    let mut session = LoginSession::new(LoginFlow::OkxAccount);
    assert_eq!(session.step(Incoming::Text(None)), LoginStep::ReadNext);
    let mut ok = reply();
    ok.op = s("login");
    ok.success = Scalar::Bool(true);
    assert_eq!(session.step(Incoming::Text(Some(ok))), LoginStep::Subscribe);
    let mut wrong_channel = reply();
    wrong_channel.event = s("subscribe");
    wrong_channel.arg_channel = s("positions");
    assert_eq!(session.step(Incoming::Text(Some(wrong_channel))), LoginStep::ReadNext);
    let mut sub = reply();
    sub.event = s("subscribe");
    sub.arg_channel = s("account");
    assert_eq!(session.step(Incoming::Text(Some(sub))), LoginStep::Ready);

    let mut session = LoginSession::new(LoginFlow::BybitWallet);
    let mut auth = reply();
    auth.op = s("auth");
    auth.success = Scalar::Bool(true);
    assert_eq!(session.step(Incoming::Text(Some(auth))), LoginStep::Subscribe);
    let mut refused = reply();
    refused.op = s("subscribe");
    refused.success = Scalar::Bool(false);
    assert_eq!(session.step(Incoming::Text(Some(refused))), LoginStep::Fail(LoginFailure::Rejected));

    // a stream that ends moves an account login on
    let mut session = LoginSession::new(LoginFlow::BybitWallet);
    assert_eq!(session.step(Incoming::Closed), LoginStep::Subscribe);
    assert_eq!(session.step(Incoming::Closed), LoginStep::Ready);
}

#[test]
fn bybit_wallet_rate() {
    let push = WalletPush { topic: s("wallet"), account_mm_rates: Some(vec![s("0.0123"), s("9")]) };
    assert_eq!(bybit_mm_rate(&push).unwrap().units, 12_300_000);
    let other = WalletPush { topic: s("position"), account_mm_rates: Some(vec![s("0.0123")]) };
    assert_eq!(bybit_mm_rate(&other), None);
    assert_eq!(bybit_mm_rate(&WalletPush { topic: s("wallet"), account_mm_rates: None }), None);
    assert_eq!(bybit_mm_rate(&WalletPush { topic: s("wallet"), account_mm_rates: Some(vec![]) }), None);
    assert_eq!(bybit_mm_rate(&WalletPush { topic: s("wallet"), account_mm_rates: Some(vec![Scalar::Int(1)]) }), None);
    assert_eq!(bybit_mm_rate(&WalletPush { topic: s("wallet"), account_mm_rates: Some(vec![s("")]) }), None);
    let exp = WalletPush { topic: s("wallet"), account_mm_rates: Some(vec![s("1e-3")]) };
    assert_eq!(bybit_mm_rate(&exp).unwrap().units, 1_000_000);
}

#[test]
fn okx_margin_ratio_reading() {
    assert_eq!(okx_margin_ratio(&s("11.7303226589447477")).unwrap().unwrap().units, 11_730_322_658);
    assert_eq!(okx_margin_ratio(&s("")), Ok(None));
    assert_eq!(okx_margin_ratio(&Scalar::Null), Ok(None));
    assert_eq!(okx_margin_ratio(&Scalar::Int(3)), Ok(None));
    assert_eq!(okx_margin_ratio(&s("n/a")), Err(MarginRatioError::BadNumber));
    assert_eq!(okx_margin_ratio(&s("1e-3")).unwrap().unwrap().units, 1_000_000);
    assert_eq!(okx_margin_ratio(&s("2.5E1")).unwrap().unwrap().units, 25_000_000_000);
    let negative = okx_margin_ratio(&s("-0.5")).unwrap().unwrap();
    assert!(negative.negative);
    assert_eq!(negative.units, 500_000_000);
    assert_eq!(okx_margin_ratio(&s("inf")), Err(MarginRatioError::BadNumber));
}
