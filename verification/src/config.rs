//! Venue endpoints, credentials and arbitrage parameters.
use vstd::prelude::*;

use crate::decimal::Fixed;
use crate::text::str_eq;

verus! {

/// Credentials, endpoints and instrument of one venue.
#[derive(Clone, Debug)]
pub struct ExchangeConfig {
    pub api_key: String,
    pub api_secret: String,
    /// OKX only; empty for Bybit.
    pub passphrase: String,
    /// Market-data WebSocket.
    pub ws_public_url: String,
    /// Private WebSocket.
    pub ws_private_url: String,
    pub inst_id: String,
}

/// Both venues and the arbitrage rules.
#[derive(Clone, Debug)]
pub struct Config {
    pub okx: ExchangeConfig,
    pub bybit: ExchangeConfig,
    /// Largest tolerated delay, in milliseconds.
    pub max_delay_ms: i64,
    /// Smallest tradable depth.
    pub min_depth_qty: Fixed,
    /// Fees of both legs together.
    pub total_fee: Fixed,
    /// Slippage allowance.
    pub slippage_padding: Fixed,
    /// Margin level that raises a warning.
    pub margin_warning_rate: Fixed,
    /// Demo trading (OKX) / testnet (Bybit) instead of live trading.
    pub testnet: bool,
}

/// Testnet unless the `TESTNET` setting is present and other than `true`.
pub open spec fn testnet_setting(value: Option<String>) -> bool {
    match value {
        Some(v) => v@ == "true"@,
        None => true,
    }
}

/// Reads the `TESTNET` setting: absent means testnet.
pub fn testnet_flag(value: Option<String>) -> (r: bool)
    ensures
        r == testnet_setting(value),
{
    match value {
        Some(v) => str_eq(v.as_str(), "true"),
        None => true,
    }
}

pub open spec fn okx_public_url(testnet: bool) -> Seq<char> {
    if testnet {
        "wss://wspap.okx.com:8443/ws/v5/public?brokerId=9999"@
    } else {
        "wss://ws.okx.com:8443/ws/v5/public"@
    }
}

pub open spec fn okx_private_url(testnet: bool) -> Seq<char> {
    if testnet {
        "wss://wspap.okx.com:8443/ws/v5/private?brokerId=9999"@
    } else {
        "wss://ws.okx.com:8443/ws/v5/private"@
    }
}

pub open spec fn bybit_public_url(testnet: bool) -> Seq<char> {
    if testnet {
        "wss://stream-testnet.bybit.com/v5/public/linear"@
    } else {
        "wss://stream.bybit.com/v5/public/linear"@
    }
}

pub open spec fn bybit_private_url(testnet: bool) -> Seq<char> {
    if testnet {
        "wss://stream-testnet.bybit.com/v5/private/linear"@
    } else {
        "wss://stream.bybit.com/v5/private/linear"@
    }
}

impl Config {
    /// The configuration for demo/testnet (`testnet`) or live trading, with
    /// the given credentials: BTC perpetuals on both venues, a 10 ms delay
    /// bound, 0.001 minimum depth, 0.21% total fees, 0.05% slippage padding
    /// and a 20% margin warning.
    pub fn new(
        testnet: bool,
        okx_api_key: String,
        okx_api_secret: String,
        okx_passphrase: String,
        bybit_api_key: String,
        bybit_api_secret: String,
    ) -> (r: Config)
        ensures
            r.testnet == testnet,
            r.okx.api_key == okx_api_key,
            r.okx.api_secret == okx_api_secret,
            r.okx.passphrase == okx_passphrase,
            r.okx.ws_public_url@ == okx_public_url(testnet),
            r.okx.ws_private_url@ == okx_private_url(testnet),
            r.okx.inst_id@ == "BTC-USDT-SWAP"@,
            r.bybit.api_key == bybit_api_key,
            r.bybit.api_secret == bybit_api_secret,
            r.bybit.passphrase@ == ""@,
            r.bybit.ws_public_url@ == bybit_public_url(testnet),
            r.bybit.ws_private_url@ == bybit_private_url(testnet),
            r.bybit.inst_id@ == "BTCUSDT"@,
            r.max_delay_ms == 10,
            r.min_depth_qty == (Fixed { negative: false, units: 1_000_000 }),
            r.total_fee == (Fixed { negative: false, units: 2_100_000 }),
            r.slippage_padding == (Fixed { negative: false, units: 500_000 }),
            r.margin_warning_rate == (Fixed { negative: false, units: 200_000_000 }),
    {
        let okx = ExchangeConfig {
            api_key: okx_api_key,
            api_secret: okx_api_secret,
            passphrase: okx_passphrase,
            ws_public_url: if testnet {
                String::from_str("wss://wspap.okx.com:8443/ws/v5/public?brokerId=9999")
            } else {
                String::from_str("wss://ws.okx.com:8443/ws/v5/public")
            },
            ws_private_url: if testnet {
                String::from_str("wss://wspap.okx.com:8443/ws/v5/private?brokerId=9999")
            } else {
                String::from_str("wss://ws.okx.com:8443/ws/v5/private")
            },
            inst_id: String::from_str("BTC-USDT-SWAP"),
        };
        let bybit = ExchangeConfig {
            api_key: bybit_api_key,
            api_secret: bybit_api_secret,
            passphrase: String::from_str(""),
            ws_public_url: if testnet {
                String::from_str("wss://stream-testnet.bybit.com/v5/public/linear")
            } else {
                String::from_str("wss://stream.bybit.com/v5/public/linear")
            },
            ws_private_url: if testnet {
                String::from_str("wss://stream-testnet.bybit.com/v5/private/linear")
            } else {
                String::from_str("wss://stream.bybit.com/v5/private/linear")
            },
            inst_id: String::from_str("BTCUSDT"),
        };
        Config {
            okx,
            bybit,
            max_delay_ms: 10,
            min_depth_qty: Fixed { negative: false, units: 1_000_000 },
            total_fee: Fixed { negative: false, units: 2_100_000 },
            slippage_padding: Fixed { negative: false, units: 500_000 },
            margin_warning_rate: Fixed { negative: false, units: 200_000_000 },
            testnet,
        }
    }
}

// ---------------------------------------------------------------------------
// laws

/// The endpoints: OKX demo trading (broker 9999) or OKX live, Bybit testnet
/// or Bybit live; the public ones serve market data, the private ones
/// orders and accounts.
pub proof fn lemma_endpoints()
    ensures
        okx_public_url(true) == "wss://wspap.okx.com:8443/ws/v5/public?brokerId=9999"@,
        okx_public_url(false) == "wss://ws.okx.com:8443/ws/v5/public"@,
        okx_private_url(true) == "wss://wspap.okx.com:8443/ws/v5/private?brokerId=9999"@,
        okx_private_url(false) == "wss://ws.okx.com:8443/ws/v5/private"@,
        bybit_public_url(true) == "wss://stream-testnet.bybit.com/v5/public/linear"@,
        bybit_public_url(false) == "wss://stream.bybit.com/v5/public/linear"@,
        bybit_private_url(true) == "wss://stream-testnet.bybit.com/v5/private/linear"@,
        bybit_private_url(false) == "wss://stream.bybit.com/v5/private/linear"@,
{
}

/// Testnet is the default: only a `TESTNET` setting other than `true`
/// selects live trading.
pub proof fn lemma_testnet_by_default(v: String)
    ensures
        testnet_setting(None),
        testnet_setting(Some(v)) <==> v@ == "true"@,
{
}

} // verus!
