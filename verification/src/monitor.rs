//! Margin figures read from the private account pushes.
use vstd::prelude::*;

use crate::decimal::{fixed_of, parse_fixed, Fixed};
use crate::json::{is_text, scalar_is_text, Scalar};

verus! {

/// A Bybit private push: its `topic`, and, when `data` is an array, the
/// `accountMMRate` of each entry.
#[derive(Clone, Debug)]
pub struct WalletPush {
    pub topic: Scalar,
    pub account_mm_rates: Option<Vec<Scalar>>,
}

/// The maintenance-margin rate of a `wallet` push: the first entry's
/// `accountMMRate`, when it is a decimal string.
pub open spec fn mm_rate_of(push: WalletPush) -> Option<Fixed> {
    if !is_text(push.topic, "wallet"@) {
        None
    } else {
        match push.account_mm_rates {
            Some(rates) => if rates@.len() == 0 {
                None
            } else {
                match rates@[0] {
                    Scalar::Str(s) => fixed_of(s@),
                    _ => None,
                }
            },
            None => None,
        }
    }
}

/// The Bybit account maintenance-margin rate carried by a push; `None` for
/// pushes that carry none, which are skipped.
pub fn bybit_mm_rate(push: &WalletPush) -> (r: Option<Fixed>)
    ensures
        r == mm_rate_of(*push),
{
    if !scalar_is_text(&push.topic, "wallet") {
        return None;
    }
    match &push.account_mm_rates {
        Some(rates) => {
            if rates.len() == 0 {
                return None;
            }
            match &rates[0] {
                Scalar::Str(s) => parse_fixed(s.as_str()),
                _ => None,
            }
        },
        None => None,
    }
}

/// An OKX margin ratio that is not a number a [`Fixed`] holds.
#[derive(Clone, Copy, Debug, PartialEq, Eq, Structural)]
pub enum MarginRatioError {
    BadNumber,
}

/// Reading of `data[0].details[0].mgnRatio`: a missing, non-string or empty
/// value carries no ratio; any other string must be a decimal.
pub open spec fn margin_ratio_of(field: Scalar) -> Result<Option<Fixed>, MarginRatioError> {
    match field {
        Scalar::Str(s) => if s@.len() == 0 {
            Ok(None)
        } else {
            match fixed_of(s@) {
                Some(v) => Ok(Some(v)),
                None => Err(MarginRatioError::BadNumber),
            }
        },
        _ => Ok(None),
    }
}

/// The OKX account margin ratio carried by an `account` push, given the
/// value at `data[0].details[0].mgnRatio`.
pub fn okx_margin_ratio(field: &Scalar) -> (r: Result<Option<Fixed>, MarginRatioError>)
    ensures
        r == margin_ratio_of(*field),
{
    match field {
        Scalar::Str(s) => {
            if s.as_str().is_empty() {
                return Ok(None);
            }
            match parse_fixed(s.as_str()) {
                Some(v) => Ok(Some(v)),
                None => Err(MarginRatioError::BadNumber),
            }
        },
        _ => Ok(None),
    }
}

// ---------------------------------------------------------------------------
// laws

/// A Bybit rate comes only from a `wallet` push, and it is the number in the
/// first entry's `accountMMRate` string; every such push whose first rate
/// reads as a number gives it.
pub proof fn lemma_mm_rate_is_first_wallet_entry(push: WalletPush)
    ensures
        mm_rate_of(push) matches Some(v) ==> is_text(push.topic, "wallet"@) && (
        push.account_mm_rates matches Some(rates) && rates@.len() > 0 && (rates@[0] matches Scalar::Str(
            s,
        ) && fixed_of(s@) == Some(v))),
        is_text(push.topic, "wallet"@) && (push.account_mm_rates matches Some(rates) && rates@.len()
            > 0 && (rates@[0] matches Scalar::Str(s) && fixed_of(s@) is Some)) ==> mm_rate_of(
            push,
        ) is Some,
{
}

/// An OKX ratio field that is not a string, or is empty, carries no ratio;
/// any other string gives its number, or an error when it is not one.
pub proof fn lemma_margin_ratio_reading(field: Scalar)
    ensures
        !(field is Str) ==> margin_ratio_of(field) == Ok::<Option<Fixed>, MarginRatioError>(None),
        field matches Scalar::Str(s) ==> (s@.len() == 0 ==> margin_ratio_of(field) == Ok::<
            Option<Fixed>,
            MarginRatioError,
        >(None)) && (s@.len() > 0 ==> margin_ratio_of(field) == match fixed_of(s@) {
            Some(v) => Ok(Some(v)),
            None => Err(MarginRatioError::BadNumber),
        }),
{
}

} // verus!
