//! Top-of-book quotes and the trading signals and positions built on them.
use vstd::prelude::*;

use crate::decimal::Fixed;

verus! {

/// The venue a quote or an order belongs to.
#[derive(Clone, Copy, Debug, PartialEq, Eq, Structural)]
pub enum Exchange {
    Okx,
    Bybit,
}

/// Best bid and ask of one venue, with the venue's timestamp in milliseconds.
///
/// OKX sizes count contracts; Bybit sizes count coins.
#[derive(Clone, Copy, Debug, PartialEq, Eq, Structural)]
pub struct Quote {
    pub exchange: Exchange,
    pub bid_px: Fixed,
    pub bid_sz: Fixed,
    pub ask_px: Fixed,
    pub ask_sz: Fixed,
    pub ts: i64,
}

/// What the strategy asks the engine to do.
#[derive(Clone, Copy, Debug, PartialEq, Eq, Structural)]
pub enum Signal {
    /// Buy on OKX and sell on Bybit.
    OpenOkxLongBybitShort,
    /// Unwind both legs.
    Close,
}

/// Whether the hedged position is open.
#[derive(Clone, Copy, Debug, PartialEq, Eq, Structural)]
pub enum State {
    Idle,
    Opened,
}

} // verus!
