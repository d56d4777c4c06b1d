//! The trading engine: from the latest quotes and the outcome of each order
//! and login to the next thing to do. The caller owns the connections; it
//! reports what happened as an [`EngineEvent`] and carries out the returned
//! [`EngineAction`].
use vstd::prelude::*;

use crate::decimal::Fixed;
use crate::model::{Exchange, Quote, Signal, State};
use crate::strategy::{signal_for, strategy_at};

verus! {

/// Buy or sell.
#[derive(Clone, Copy, Debug, PartialEq, Eq, Structural)]
pub enum Side {
    Buy,
    Sell,
}

/// One leg of opening or closing the hedge, in the order they are sent.
#[derive(Clone, Copy, Debug, PartialEq, Eq, Structural)]
pub enum Leg {
    /// Buy on OKX.
    OpenOkx,
    /// Sell on Bybit.
    OpenBybit,
    /// Sell the OKX long, reduce-only.
    CloseOkx,
    /// Buy back the Bybit short, reduce-only.
    CloseBybit,
    /// Sell the OKX long, reduce-only, after the Bybit leg could not be opened.
    UnwindOkx,
}

/// A market order to send.
#[derive(Clone, Copy, Debug, PartialEq, Eq, Structural)]
pub struct OrderIntent {
    pub venue: Exchange,
    pub side: Side,
    /// Reduce-only order that unwinds the position.
    pub closing: bool,
}

/// Why the engine stopped.
#[derive(Clone, Copy, Debug, PartialEq, Eq, Structural)]
pub enum EngineError {
    /// The venue's quote feed ended.
    QuoteFeedClosed(Exchange),
    /// The venue's order-connection watch ended.
    AliveFeedClosed(Exchange),
    /// Logging in to the venue's order connection failed.
    LoginFailed(Exchange),
    /// An opening order failed again after logging in anew; a filled OKX leg
    /// has been sold back.
    OpenFailed(Exchange),
    /// A closing order failed again after logging in anew.
    CloseFailed(Exchange),
    /// Selling back the lone OKX leg failed again after logging in anew.
    UnwindFailed,
}

/// What the engine is waiting for.
#[derive(Clone, Copy, Debug, PartialEq, Eq, Structural)]
pub enum Phase {
    /// Watching quotes, connections and the clock.
    Watching,
    /// The leg's order was handed over; `retry` on the second attempt.
    Sending { leg: Leg, retry: bool },
    /// The leg's order failed; logging in anew before the second attempt.
    Relogin { leg: Leg },
    /// The venue's order connection dropped; logging in anew.
    Reconnecting(Exchange),
    /// Both legs are closed.
    Finished,
    /// Stopped with an error.
    Failed(EngineError),
}

/// Something that happened outside.
#[derive(Clone, Copy, Debug, PartialEq, Eq, Structural)]
pub enum EngineEvent {
    /// The venue's latest quote changed (`None`: its feed is reconnecting).
    Quote(Exchange, Option<Quote>),
    /// The venue's order connection went up (`true`) or down (`false`).
    Alive(Exchange, bool),
    /// The venue's quote feed ended.
    FeedClosed(Exchange),
    /// The venue's order-connection watch ended.
    AliveClosed(Exchange),
    /// The requested login to the venue succeeded or failed.
    LoggedIn(Exchange, bool),
    /// The requested order was sent (`true`) or failed (`false`).
    OrderSent(bool),
    /// Time passed.
    Tick,
}

/// What the caller does next.
#[derive(Clone, Copy, Debug, PartialEq, Eq, Structural)]
pub enum EngineAction {
    /// Nothing new: keep waiting.
    Wait,
    /// Log in to the venue's order connection anew and watch the new one.
    Login(Exchange),
    /// Send this order and report how it went.
    Send(OrderIntent),
    /// Stop: the position is closed.
    Finish,
    /// Stop with this error.
    Abort(EngineError),
}

/// A position is held at most this long (milliseconds) before it is closed.
pub const MAX_HOLD_MS: u64 = 120_000;

/// The engine's whole state.
#[derive(Clone, Copy, Debug)]
pub struct Engine {
    /// Coins per OKX contract.
    pub ct_mult: Fixed,
    pub state: State,
    pub phase: Phase,
    pub last_okx: Option<Quote>,
    pub last_bybit: Option<Quote>,
    /// When the position was opened (milliseconds since the Unix epoch).
    pub opened_at: u64,
}

pub open spec fn leg_venue(leg: Leg) -> Exchange {
    match leg {
        Leg::OpenOkx | Leg::CloseOkx | Leg::UnwindOkx => Exchange::Okx,
        Leg::OpenBybit | Leg::CloseBybit => Exchange::Bybit,
    }
}

pub open spec fn is_opening(leg: Leg) -> bool {
    leg == Leg::OpenOkx || leg == Leg::OpenBybit
}

/// OKX long and Bybit short on the way in; the reverse on the way out.
pub open spec fn leg_order(leg: Leg) -> OrderIntent {
    match leg {
        Leg::OpenOkx => OrderIntent { venue: Exchange::Okx, side: Side::Buy, closing: false },
        Leg::OpenBybit => OrderIntent { venue: Exchange::Bybit, side: Side::Sell, closing: false },
        Leg::CloseOkx | Leg::UnwindOkx => OrderIntent {
            venue: Exchange::Okx,
            side: Side::Sell,
            closing: true,
        },
        Leg::CloseBybit => OrderIntent { venue: Exchange::Bybit, side: Side::Buy, closing: true },
    }
}

pub open spec fn fail(e: Engine, why: EngineError) -> (Engine, EngineAction) {
    (Engine { phase: Phase::Failed(why), ..e }, EngineAction::Abort(why))
}

pub open spec fn start_leg(e: Engine, leg: Leg, retry: bool) -> (Engine, EngineAction) {
    (Engine { phase: Phase::Sending { leg, retry }, ..e }, EngineAction::Send(leg_order(leg)))
}

/// The open position has been held for `MAX_HOLD_MS` or longer at `now`.
pub open spec fn hold_expired(e: Engine, now: u64) -> bool {
    e.state == State::Opened && now - e.opened_at >= MAX_HOLD_MS
}

/// While watching: close a position held too long; otherwise run the
/// strategy on the latest quotes.
pub open spec fn evaluate(e: Engine, now: u64) -> (Engine, EngineAction) {
    if hold_expired(e, now) {
        start_leg(e, Leg::CloseOkx, false)
    } else {
        match (e.last_okx, e.last_bybit) {
            (Some(okx), Some(bybit)) => match signal_for(okx, bybit, e.ct_mult, e.state, now as int) {
                Some(Signal::OpenOkxLongBybitShort) => start_leg(
                    Engine { state: State::Opened, opened_at: now, ..e },
                    Leg::OpenOkx,
                    false,
                ),
                Some(Signal::Close) => start_leg(e, Leg::CloseOkx, false),
                None => (e, EngineAction::Wait),
            },
            _ => (e, EngineAction::Wait),
        }
    }
}

/// After a leg's order went out.
pub open spec fn leg_done(e: Engine, leg: Leg) -> (Engine, EngineAction) {
    match leg {
        Leg::OpenOkx => start_leg(e, Leg::OpenBybit, false),
        Leg::OpenBybit => (Engine { phase: Phase::Watching, ..e }, EngineAction::Wait),
        Leg::CloseOkx => start_leg(e, Leg::CloseBybit, false),
        Leg::CloseBybit => (Engine { phase: Phase::Finished, ..e }, EngineAction::Finish),
        Leg::UnwindOkx => fail(
            Engine { state: State::Idle, ..e },
            EngineError::OpenFailed(Exchange::Bybit),
        ),
    }
}

/// After a leg's order failed: log in anew and try once more. A second
/// failure of the OKX opening leaves the position flat and stops; a second
/// failure of the Bybit opening sells the lone OKX leg back first; any other
/// second failure stops with the position as it is.
pub open spec fn leg_failed(e: Engine, leg: Leg, retry: bool) -> (Engine, EngineAction) {
    if !retry {
        (Engine { phase: Phase::Relogin { leg }, ..e }, EngineAction::Login(leg_venue(leg)))
    } else {
        match leg {
            Leg::OpenOkx => fail(
                Engine { state: State::Idle, ..e },
                EngineError::OpenFailed(Exchange::Okx),
            ),
            Leg::OpenBybit => start_leg(e, Leg::UnwindOkx, false),
            Leg::UnwindOkx => fail(e, EngineError::UnwindFailed),
            _ => fail(e, EngineError::CloseFailed(leg_venue(leg))),
        }
    }
}

/// The engine after `ev` at time `now` (milliseconds), and what to do.
///
/// While an order or a login is outstanding, events other than its outcome
/// change nothing.
pub open spec fn engine_next(e: Engine, ev: EngineEvent, now: u64) -> (Engine, EngineAction) {
    match e.phase {
        Phase::Watching => match ev {
            EngineEvent::Quote(Exchange::Okx, q) => evaluate(Engine { last_okx: q, ..e }, now),
            EngineEvent::Quote(Exchange::Bybit, q) => evaluate(Engine { last_bybit: q, ..e }, now),
            EngineEvent::Alive(venue, up) => if up {
                evaluate(e, now)
            } else {
                (Engine { phase: Phase::Reconnecting(venue), ..e }, EngineAction::Login(venue))
            },
            EngineEvent::Tick => evaluate(e, now),
            EngineEvent::FeedClosed(venue) => fail(e, EngineError::QuoteFeedClosed(venue)),
            EngineEvent::AliveClosed(venue) => fail(e, EngineError::AliveFeedClosed(venue)),
            _ => (e, EngineAction::Wait),
        },
        Phase::Reconnecting(venue) => match ev {
            EngineEvent::LoggedIn(v, ok) => if v != venue {
                (e, EngineAction::Wait)
            } else if ok {
                evaluate(Engine { phase: Phase::Watching, ..e }, now)
            } else {
                fail(e, EngineError::LoginFailed(venue))
            },
            _ => (e, EngineAction::Wait),
        },
        Phase::Sending { leg, retry } => match ev {
            EngineEvent::OrderSent(ok) => if ok {
                leg_done(e, leg)
            } else {
                leg_failed(e, leg, retry)
            },
            _ => (e, EngineAction::Wait),
        },
        Phase::Relogin { leg } => match ev {
            EngineEvent::LoggedIn(v, ok) => if v != leg_venue(leg) {
                (e, EngineAction::Wait)
            } else if ok {
                start_leg(e, leg, true)
            } else {
                fail(e, EngineError::LoginFailed(v))
            },
            _ => (e, EngineAction::Wait),
        },
        Phase::Finished => (e, EngineAction::Finish),
        Phase::Failed(why) => (e, EngineAction::Abort(why)),
    }
}

/// Every leg under way belongs to an open position.
pub open spec fn well_formed(e: Engine) -> bool {
    match e.phase {
        Phase::Sending { leg, retry } => e.state == State::Opened,
        Phase::Relogin { leg } => e.state == State::Opened,
        _ => true,
    }
}

fn order_for(leg: Leg) -> (r: OrderIntent)
    ensures
        r == leg_order(leg),
{
    match leg {
        Leg::OpenOkx => OrderIntent { venue: Exchange::Okx, side: Side::Buy, closing: false },
        Leg::OpenBybit => OrderIntent { venue: Exchange::Bybit, side: Side::Sell, closing: false },
        Leg::CloseOkx | Leg::UnwindOkx => OrderIntent {
            venue: Exchange::Okx,
            side: Side::Sell,
            closing: true,
        },
        Leg::CloseBybit => OrderIntent { venue: Exchange::Bybit, side: Side::Buy, closing: true },
    }
}

fn venue_of(leg: Leg) -> (r: Exchange)
    ensures
        r == leg_venue(leg),
{
    match leg {
        Leg::OpenOkx | Leg::CloseOkx | Leg::UnwindOkx => Exchange::Okx,
        Leg::OpenBybit | Leg::CloseBybit => Exchange::Bybit,
    }
}

impl Engine {
    /// A flat engine watching the market, for an OKX contract of `ct_mult`
    /// coins.
    pub fn new(ct_mult: Fixed) -> (r: Engine)
        ensures
            r.ct_mult == ct_mult,
            r.state == State::Idle,
            r.phase == Phase::Watching,
            r.last_okx.is_none(),
            r.last_bybit.is_none(),
            r.opened_at == 0,
    {
        Engine {
            ct_mult,
            state: State::Idle,
            phase: Phase::Watching,
            last_okx: None,
            last_bybit: None,
            opened_at: 0,
        }
    }

    fn abort(&mut self, why: EngineError) -> (r: EngineAction)
        ensures
            (*final(self), r) == fail(*old(self), why),
    {
        self.phase = Phase::Failed(why);
        EngineAction::Abort(why)
    }

    fn send_leg(&mut self, leg: Leg, retry: bool) -> (r: EngineAction)
        ensures
            (*final(self), r) == start_leg(*old(self), leg, retry),
    {
        self.phase = Phase::Sending { leg, retry };
        EngineAction::Send(order_for(leg))
    }

    fn evaluate(&mut self, now: u64) -> (r: EngineAction)
        ensures
            (*final(self), r) == evaluate(*old(self), now),
    {
        if self.state == State::Opened && now >= self.opened_at && now - self.opened_at
            >= MAX_HOLD_MS {
            return self.send_leg(Leg::CloseOkx, false);
        }
        match (self.last_okx, self.last_bybit) {
            (Some(okx), Some(bybit)) => match strategy_at(&okx, &bybit, self.ct_mult, &self.state, now) {
                Some(Signal::OpenOkxLongBybitShort) => {
                    self.state = State::Opened;
                    self.opened_at = now;
                    self.send_leg(Leg::OpenOkx, false)
                },
                Some(Signal::Close) => self.send_leg(Leg::CloseOkx, false),
                None => EngineAction::Wait,
            },
            _ => EngineAction::Wait,
        }
    }

    /// Takes in one event at time `now` (milliseconds since the Unix epoch)
    /// and says what to do next.
    pub fn step(&mut self, ev: EngineEvent, now: u64) -> (r: EngineAction)
        ensures
            (*final(self), r) == engine_next(*old(self), ev, now),
    {
        match self.phase {
            Phase::Watching => match ev {
                EngineEvent::Quote(venue, q) => {
                    match venue {
                        Exchange::Okx => self.last_okx = q,
                        Exchange::Bybit => self.last_bybit = q,
                    }
                    self.evaluate(now)
                },
                EngineEvent::Alive(venue, up) => {
                    if up {
                        self.evaluate(now)
                    } else {
                        self.phase = Phase::Reconnecting(venue);
                        EngineAction::Login(venue)
                    }
                },
                EngineEvent::Tick => self.evaluate(now),
                EngineEvent::FeedClosed(venue) => self.abort(EngineError::QuoteFeedClosed(venue)),
                EngineEvent::AliveClosed(venue) => self.abort(EngineError::AliveFeedClosed(venue)),
                _ => EngineAction::Wait,
            },
            Phase::Reconnecting(venue) => match ev {
                EngineEvent::LoggedIn(v, ok) => {
                    if v != venue {
                        EngineAction::Wait
                    } else if ok {
                        self.phase = Phase::Watching;
                        self.evaluate(now)
                    } else {
                        self.abort(EngineError::LoginFailed(venue))
                    }
                },
                _ => EngineAction::Wait,
            },
            Phase::Sending { leg, retry } => match ev {
                EngineEvent::OrderSent(ok) => {
                    if ok {
                        match leg {
                            Leg::OpenOkx => self.send_leg(Leg::OpenBybit, false),
                            Leg::OpenBybit => {
                                self.phase = Phase::Watching;
                                EngineAction::Wait
                            },
                            Leg::CloseOkx => self.send_leg(Leg::CloseBybit, false),
                            Leg::CloseBybit => {
                                self.phase = Phase::Finished;
                                EngineAction::Finish
                            },
                            Leg::UnwindOkx => {
                                self.state = State::Idle;
                                self.abort(EngineError::OpenFailed(Exchange::Bybit))
                            },
                        }
                    } else if !retry {
                        self.phase = Phase::Relogin { leg };
                        EngineAction::Login(venue_of(leg))
                    } else {
                        match leg {
                            Leg::OpenOkx => {
                                self.state = State::Idle;
                                self.abort(EngineError::OpenFailed(Exchange::Okx))
                            },
                            Leg::OpenBybit => self.send_leg(Leg::UnwindOkx, false),
                            Leg::UnwindOkx => self.abort(EngineError::UnwindFailed),
                            _ => self.abort(EngineError::CloseFailed(venue_of(leg))),
                        }
                    }
                },
                _ => EngineAction::Wait,
            },
            Phase::Relogin { leg } => match ev {
                EngineEvent::LoggedIn(v, ok) => {
                    if v != venue_of(leg) {
                        EngineAction::Wait
                    } else if ok {
                        self.send_leg(leg, true)
                    } else {
                        self.abort(EngineError::LoginFailed(v))
                    }
                },
                _ => EngineAction::Wait,
            },
            Phase::Finished => EngineAction::Finish,
            Phase::Failed(why) => EngineAction::Abort(why),
        }
    }
}

// ---------------------------------------------------------------------------
// laws

/// Every step keeps the engine well formed.
pub proof fn lemma_step_keeps_well_formed(e: Engine, ev: EngineEvent, now: u64)
    requires
        well_formed(e),
    ensures
        well_formed(engine_next(e, ev, now).0),
{
}

/// A new entry starts only from a flat position, and marks it open: while
/// the position is open, no further entry can begin.
pub proof fn lemma_entry_only_when_flat(e: Engine, ev: EngineEvent, now: u64)
    ensures
        engine_next(e, ev, now).0.phase == (Phase::Sending { leg: Leg::OpenOkx, retry: false })
            && e.phase != engine_next(e, ev, now).0.phase ==> e.state == State::Idle
            && engine_next(e, ev, now).0.state == State::Opened,
        e.state == State::Opened && (e.phase == Phase::Watching || e.phase is Reconnecting)
            ==> !(engine_next(e, ev, now).1 matches EngineAction::Send(o) && !o.closing),
{
}

/// The OKX leg goes first: the Bybit order of a leg pair is sent only after
/// the OKX order of that pair went out, or on its own retry.
pub proof fn lemma_okx_leg_first(e: Engine, ev: EngineEvent, now: u64)
    ensures
        engine_next(e, ev, now).1 == EngineAction::Send(leg_order(Leg::OpenBybit)) ==> (
        e.phase matches Phase::Sending { leg: Leg::OpenOkx, .. } && ev == EngineEvent::OrderSent(
            true,
        )) || e.phase == (Phase::Relogin { leg: Leg::OpenBybit }),
        engine_next(e, ev, now).1 == EngineAction::Send(leg_order(Leg::CloseBybit)) ==> (
        e.phase matches Phase::Sending { leg: Leg::CloseOkx, .. } && ev == EngineEvent::OrderSent(
            true,
        )) || e.phase == (Phase::Relogin { leg: Leg::CloseBybit }),
{
}

/// A leg is tried at most twice. A second failure of the Bybit opening sells
/// the OKX leg back; any other second failure stops the engine, and a failed
/// OKX opening leaves the position flat.
pub proof fn lemma_second_failure(e: Engine, leg: Leg, now: u64)
    requires
        e.phase == (Phase::Sending { leg, retry: true }),
    ensures
        leg == Leg::OpenBybit ==> engine_next(e, EngineEvent::OrderSent(false), now).1
            == EngineAction::Send(leg_order(Leg::UnwindOkx)),
        leg != Leg::OpenBybit ==> engine_next(e, EngineEvent::OrderSent(false), now).1 is Abort,
        leg == Leg::OpenOkx ==> engine_next(e, EngineEvent::OrderSent(false), now).0.state
            == State::Idle,
{
}

/// A lone OKX leg is never left behind silently: once it is sold back the
/// position is flat, and the engine stops.
pub proof fn lemma_unwind_flattens(e: Engine, now: u64)
    requires
        e.phase matches Phase::Sending { leg: Leg::UnwindOkx, .. },
    ensures
        engine_next(e, EngineEvent::OrderSent(true), now).0.state == State::Idle,
        engine_next(e, EngineEvent::OrderSent(true), now).1 == EngineAction::Abort(
            EngineError::OpenFailed(Exchange::Bybit),
        ),
{
}

/// A position held `MAX_HOLD_MS` or longer is closed at the next event seen
/// while watching, whatever the quotes say.
pub proof fn lemma_hold_time_exit(e: Engine, ev: EngineEvent, now: u64)
    requires
        e.phase == Phase::Watching,
        e.state == State::Opened,
        now - e.opened_at >= MAX_HOLD_MS,
        ev is Quote || ev == EngineEvent::Tick || ev == EngineEvent::Alive(Exchange::Okx, true)
            || ev == EngineEvent::Alive(Exchange::Bybit, true),
    ensures
        engine_next(e, ev, now).1 == EngineAction::Send(leg_order(Leg::CloseOkx)),
{
}

/// Quotes out of sync never lead to an order while the position is young.
pub proof fn lemma_unsynced_quotes_send_nothing(e: Engine, venue: Exchange, q: Option<Quote>, now: u64)
    requires
        e.phase == Phase::Watching,
        !hold_expired(e, now),
        ({
            let e2 = match venue {
                Exchange::Okx => Engine { last_okx: q, ..e },
                Exchange::Bybit => Engine { last_bybit: q, ..e },
            };
            e2.last_okx matches Some(o) && e2.last_bybit matches Some(b) && !crate::strategy::in_sync(
                o.ts,
                b.ts,
            )
        }),
    ensures
        engine_next(e, EngineEvent::Quote(venue, q), now).1 == EngineAction::Wait,
{
}

/// The run finishes only once the Bybit closing order went out, and a
/// finished or failed engine stays so.
pub proof fn lemma_finish_and_stop_are_final(e: Engine, ev: EngineEvent, now: u64)
    ensures
        engine_next(e, ev, now).1 == EngineAction::Finish ==> e.phase == Phase::Finished || (
        e.phase matches Phase::Sending { leg: Leg::CloseBybit, .. } && ev == EngineEvent::OrderSent(
            true,
        )),
        e.phase == Phase::Finished || e.phase is Failed ==> engine_next(e, ev, now).0 == e,
{
}

/// The order each leg sends: OKX buy to open, Bybit sell to open, and the
/// reduce-only reverse of each to close; the OKX leg is sold back, reduce-only,
/// to unwind. OKX legs go to OKX and Bybit legs to Bybit.
pub proof fn lemma_leg_orders()
    ensures
        leg_order(Leg::OpenOkx) == (OrderIntent { venue: Exchange::Okx, side: Side::Buy, closing: false }),
        leg_order(Leg::OpenBybit) == (OrderIntent {
            venue: Exchange::Bybit,
            side: Side::Sell,
            closing: false,
        }),
        leg_order(Leg::CloseOkx) == (OrderIntent { venue: Exchange::Okx, side: Side::Sell, closing: true }),
        leg_order(Leg::CloseBybit) == (OrderIntent {
            venue: Exchange::Bybit,
            side: Side::Buy,
            closing: true,
        }),
        leg_order(Leg::UnwindOkx) == (OrderIntent { venue: Exchange::Okx, side: Side::Sell, closing: true }),
        forall|leg: Leg| #[trigger] leg_venue(leg) == leg_order(leg).venue,
{
}

/// A leg's first failed send, whichever leg it is, leads to a new login to
/// that leg's venue and nothing else changes; the leg is then awaited.
pub proof fn lemma_first_failure_relogs_in(e: Engine, leg: Leg, now: u64)
    requires
        e.phase == (Phase::Sending { leg, retry: false }),
    ensures
        engine_next(e, EngineEvent::OrderSent(false), now) == (
            Engine { phase: Phase::Relogin { leg }, ..e },
            EngineAction::Login(
                if leg == Leg::OpenBybit || leg == Leg::CloseBybit {
                    Exchange::Bybit
                } else {
                    Exchange::Okx
                },
            ),
        ),
{
}

/// After the new login of a failed leg: success sends the same order once
/// more, as the second attempt; failure stops; a report about the other venue
/// changes nothing.
pub proof fn lemma_relogin_outcome(e: Engine, leg: Leg, venue: Exchange, ok: bool, now: u64)
    requires
        e.phase == (Phase::Relogin { leg }),
    ensures
        venue == leg_order(leg).venue && ok ==> engine_next(e, EngineEvent::LoggedIn(venue, ok), now)
            == (Engine { phase: Phase::Sending { leg, retry: true }, ..e }, EngineAction::Send(
            leg_order(leg),
        )),
        venue == leg_order(leg).venue && !ok ==> engine_next(
            e,
            EngineEvent::LoggedIn(venue, ok),
            now,
        ) == (Engine { phase: Phase::Failed(EngineError::LoginFailed(venue)), ..e },
        EngineAction::Abort(EngineError::LoginFailed(venue))),
        venue != leg_order(leg).venue ==> engine_next(e, EngineEvent::LoggedIn(venue, ok), now) == (
            e,
            EngineAction::Wait,
        ),
{
}

/// After a leg's order went out: the OKX opening is followed by the Bybit
/// opening, the Bybit opening by watching the open position, the OKX close by
/// the Bybit close, and the Bybit close by the end of the run.
pub proof fn lemma_sent_leg_moves_on(e: Engine, leg: Leg, retry: bool, now: u64)
    requires
        e.phase == (Phase::Sending { leg, retry }),
    ensures
        leg == Leg::OpenOkx ==> engine_next(e, EngineEvent::OrderSent(true), now) == (
            Engine { phase: Phase::Sending { leg: Leg::OpenBybit, retry: false }, ..e },
            EngineAction::Send(leg_order(Leg::OpenBybit)),
        ),
        leg == Leg::OpenBybit ==> engine_next(e, EngineEvent::OrderSent(true), now) == (
            Engine { phase: Phase::Watching, ..e },
            EngineAction::Wait,
        ),
        leg == Leg::CloseOkx ==> engine_next(e, EngineEvent::OrderSent(true), now) == (
            Engine { phase: Phase::Sending { leg: Leg::CloseBybit, retry: false }, ..e },
            EngineAction::Send(leg_order(Leg::CloseBybit)),
        ),
        leg == Leg::CloseBybit ==> engine_next(e, EngineEvent::OrderSent(true), now) == (
            Engine { phase: Phase::Finished, ..e },
            EngineAction::Finish,
        ),
{
}

/// While an order or a login is outstanding, no other event changes the
/// engine or sends anything.
pub proof fn lemma_outstanding_work_waits(e: Engine, ev: EngineEvent, now: u64)
    requires
        (e.phase is Sending && !(ev is OrderSent)) || (e.phase is Relogin && !(ev is LoggedIn)) || (
        e.phase is Reconnecting && !(ev is LoggedIn)),
    ensures
        engine_next(e, ev, now) == (e, EngineAction::Wait),
{
}

/// While watching a young position or a flat one, with both quotes known,
/// the strategy's verdict decides: an entry marks the position open at `now`
/// and sends the OKX buy, an exit sends the OKX close, and no signal changes
/// nothing but the stored quote.
pub proof fn lemma_watching_follows_the_signal(e: Engine, ev: EngineEvent, now: u64)
    requires
        e.phase == Phase::Watching,
        ev is Quote || ev == EngineEvent::Tick,
        ({
            let e2 = match ev {
                EngineEvent::Quote(Exchange::Okx, q) => Engine { last_okx: q, ..e },
                EngineEvent::Quote(Exchange::Bybit, q) => Engine { last_bybit: q, ..e },
                _ => e,
            };
            &&& !(e2.state == State::Opened && now - e2.opened_at >= MAX_HOLD_MS)
            &&& e2.last_okx is Some
            &&& e2.last_bybit is Some
        }),
    ensures
        ({
            let e2 = match ev {
                EngineEvent::Quote(Exchange::Okx, q) => Engine { last_okx: q, ..e },
                EngineEvent::Quote(Exchange::Bybit, q) => Engine { last_bybit: q, ..e },
                _ => e,
            };
            let sig = signal_for(
                e2.last_okx.unwrap(),
                e2.last_bybit.unwrap(),
                e2.ct_mult,
                e2.state,
                now as int,
            );
            &&& sig == Some(Signal::OpenOkxLongBybitShort) ==> engine_next(e, ev, now) == (
                Engine {
                    state: State::Opened,
                    opened_at: now,
                    phase: Phase::Sending { leg: Leg::OpenOkx, retry: false },
                    ..e2
                },
                EngineAction::Send(leg_order(Leg::OpenOkx)),
            )
            &&& sig == Some(Signal::Close) ==> engine_next(e, ev, now) == (
                Engine { phase: Phase::Sending { leg: Leg::CloseOkx, retry: false }, ..e2 },
                EngineAction::Send(leg_order(Leg::CloseOkx)),
            )
            &&& sig is None ==> engine_next(e, ev, now) == (e2, EngineAction::Wait)
        }),
{
}

/// The reason a second failure gives: the OKX opening leaves the position
/// flat and reports OKX; the Bybit opening first sells the OKX leg back (as
/// a first attempt of that sale); a failed sale reports the unwind; a failed
/// close reports its venue with the position still open.
pub proof fn lemma_second_failure_reasons(e: Engine, leg: Leg, now: u64)
    requires
        e.phase == (Phase::Sending { leg, retry: true }),
    ensures
        leg == Leg::OpenOkx ==> engine_next(e, EngineEvent::OrderSent(false), now) == (
            Engine { state: State::Idle, phase: Phase::Failed(EngineError::OpenFailed(Exchange::Okx)), ..e },
            EngineAction::Abort(EngineError::OpenFailed(Exchange::Okx)),
        ),
        leg == Leg::OpenBybit ==> engine_next(e, EngineEvent::OrderSent(false), now) == (
            Engine { phase: Phase::Sending { leg: Leg::UnwindOkx, retry: false }, ..e },
            EngineAction::Send(leg_order(Leg::UnwindOkx)),
        ),
        leg == Leg::UnwindOkx ==> engine_next(e, EngineEvent::OrderSent(false), now) == (
            Engine { phase: Phase::Failed(EngineError::UnwindFailed), ..e },
            EngineAction::Abort(EngineError::UnwindFailed),
        ),
        leg == Leg::CloseOkx ==> engine_next(e, EngineEvent::OrderSent(false), now) == (
            Engine { phase: Phase::Failed(EngineError::CloseFailed(Exchange::Okx)), ..e },
            EngineAction::Abort(EngineError::CloseFailed(Exchange::Okx)),
        ),
        leg == Leg::CloseBybit ==> engine_next(e, EngineEvent::OrderSent(false), now) == (
            Engine { phase: Phase::Failed(EngineError::CloseFailed(Exchange::Bybit)), ..e },
            EngineAction::Abort(EngineError::CloseFailed(Exchange::Bybit)),
        ),
{
}

/// A position is held for at most two minutes.
pub proof fn lemma_hold_limit_is_two_minutes()
    ensures
        MAX_HOLD_MS == 120_000,
{
}

/// While watching: a dropped order connection is logged in anew, and the
/// end of a quote feed or of a connection watch stops the engine with that
/// reason. While reconnecting, the awaited login's failure stops the engine
/// and a report about the other venue changes nothing.
pub proof fn lemma_connection_events(e: Engine, venue: Exchange, ok: bool, now: u64)
    ensures
        e.phase == Phase::Watching ==> engine_next(e, EngineEvent::Alive(venue, false), now) == (
            Engine { phase: Phase::Reconnecting(venue), ..e },
            EngineAction::Login(venue),
        ),
        e.phase == Phase::Watching ==> engine_next(e, EngineEvent::FeedClosed(venue), now) == (
            Engine { phase: Phase::Failed(EngineError::QuoteFeedClosed(venue)), ..e },
            EngineAction::Abort(EngineError::QuoteFeedClosed(venue)),
        ),
        e.phase == Phase::Watching ==> engine_next(e, EngineEvent::AliveClosed(venue), now) == (
            Engine { phase: Phase::Failed(EngineError::AliveFeedClosed(venue)), ..e },
            EngineAction::Abort(EngineError::AliveFeedClosed(venue)),
        ),
        e.phase == Phase::Reconnecting(venue) ==> engine_next(
            e,
            EngineEvent::LoggedIn(venue, false),
            now,
        ) == (Engine { phase: Phase::Failed(EngineError::LoginFailed(venue)), ..e },
        EngineAction::Abort(EngineError::LoginFailed(venue))),
        e.phase == Phase::Reconnecting(venue) ==> engine_next(
            e,
            EngineEvent::LoggedIn(
                if venue == Exchange::Okx {
                    Exchange::Bybit
                } else {
                    Exchange::Okx
                },
                ok,
            ),
            now,
        ) == (e, EngineAction::Wait),
        e.phase == Phase::Reconnecting(venue) ==> engine_next(e, EngineEvent::LoggedIn(venue, true), now)
            == evaluate(Engine { phase: Phase::Watching, ..e }, now),
{
}

// ---------------------------------------------------------------------------
// whole runs

/// The engine after a run of timed events, and the orders it sent, in order.
pub open spec fn run(e: Engine, evs: Seq<(EngineEvent, u64)>) -> (Engine, Seq<OrderIntent>)
    decreases evs.len(),
{
    if evs.len() == 0 {
        (e, Seq::empty())
    } else {
        let (before, sent) = run(e, evs.drop_last());
        let (after, action) = engine_next(before, evs.last().0, evs.last().1);
        (
            after,
            match action {
                EngineAction::Send(o) => sent.push(o),
                _ => sent,
            },
        )
    }
}

/// Place of an order in the sequence OKX open, Bybit open, OKX close, Bybit
/// close; -1 for any other order.
pub open spec fn order_rank(o: OrderIntent) -> int {
    if o == leg_order(Leg::OpenOkx) {
        0
    } else if o == leg_order(Leg::OpenBybit) {
        1
    } else if o == leg_order(Leg::CloseOkx) {
        2
    } else if o == leg_order(Leg::CloseBybit) {
        3
    } else {
        -1
    }
}

/// The orders follow OKX open, Bybit open, OKX close, Bybit close, in that
/// order, starting from the first, each sent at most twice in a row (the
/// second time after one failed attempt).
pub open spec fn orderly(s: Seq<OrderIntent>) -> bool {
    &&& forall|i: int| 0 <= i < s.len() ==> 0 <= #[trigger] order_rank(s[i])
    &&& s.len() > 0 ==> order_rank(s[0]) == 0
    &&& forall|i: int|
        0 <= i < s.len() - 1 ==> #[trigger] order_rank(s[i + 1]) == order_rank(s[i])
            || order_rank(s[i + 1]) == order_rank(s[i]) + 1
    &&& forall|i: int|
        0 <= i < s.len() - 2 ==> !(s[i] == s[i + 1] && #[trigger] s[i + 1] == s[i + 2])
}

/// Whether the last order of `sent` repeats the one before it.
pub open spec fn last_repeated(sent: Seq<OrderIntent>) -> bool {
    sent.len() >= 2 && sent[sent.len() - 2] == sent.last()
}

/// What an engine's state says about the orders sent so far.
pub open spec fn run_invariant(e: Engine, sent: Seq<OrderIntent>) -> bool {
    &&& orderly(sent)
    &&& match e.phase {
        Phase::Watching | Phase::Reconnecting(_) => if e.state == State::Idle {
            sent.len() == 0
        } else {
            sent.len() > 0 && sent.last() == leg_order(Leg::OpenBybit)
        },
        Phase::Sending { leg, retry } => {
            &&& e.state == State::Opened
            &&& sent.len() > 0
            &&& sent.last() == leg_order(leg)
            &&& retry == last_repeated(sent)
        },
        Phase::Relogin { leg } => {
            &&& e.state == State::Opened
            &&& sent.len() > 0
            &&& sent.last() == leg_order(leg)
            &&& !last_repeated(sent)
        },
        _ => true,
    }
}

proof fn lemma_orderly_push(s: Seq<OrderIntent>, o: OrderIntent)
    requires
        orderly(s),
        0 <= order_rank(o),
        s.len() == 0 ==> order_rank(o) == 0,
        s.len() > 0 ==> order_rank(o) == order_rank(s.last()) || order_rank(o) == order_rank(
            s.last(),
        ) + 1,
        !(last_repeated(s) && s.last() == o),
    ensures
        orderly(s.push(o)),
{
    let t = s.push(o);
    assert forall|i: int| 0 <= i < t.len() implies 0 <= #[trigger] order_rank(t[i]) by {
        if i < s.len() {
            assert(t[i] == s[i]);
        }
    }
    assert forall|i: int| 0 <= i < t.len() - 1 implies #[trigger] order_rank(t[i + 1]) == order_rank(
        t[i],
    ) || order_rank(t[i + 1]) == order_rank(t[i]) + 1 by {
        if i < s.len() - 1 {
            assert(t[i] == s[i] && t[i + 1] == s[i + 1]);
            assert(order_rank(s[i + 1]) == order_rank(s[i]) || order_rank(s[i + 1]) == order_rank(
                s[i],
            ) + 1);
        }
    }
    assert forall|i: int| 0 <= i < t.len() - 2 implies !(t[i] == t[i + 1] && #[trigger] t[i + 1]
        == t[i + 2]) by {
        if i < s.len() - 2 {
            assert(t[i] == s[i] && t[i + 1] == s[i + 1] && t[i + 2] == s[i + 2]);
        }
    }
}

proof fn lemma_step_keeps_run_invariant(e: Engine, sent: Seq<OrderIntent>, ev: EngineEvent, now: u64)
    requires
        run_invariant(e, sent),
    ensures
        ({
            let (e2, action) = engine_next(e, ev, now);
            run_invariant(
                e2,
                match action {
                    EngineAction::Send(o) => sent.push(o),
                    _ => sent,
                },
            )
        }),
{
    let (e2, action) = engine_next(e, ev, now);
    if let EngineAction::Send(o) = action {
        lemma_orderly_push(sent, o);
        let t = sent.push(o);
        assert(t.last() == o);
        if sent.len() > 0 {
            assert(t[t.len() - 2] == sent.last());
        }
    }
}

/// Over any run from a flat engine, the orders sent follow OKX open, Bybit
/// open, OKX close, Bybit close in that order, each at most twice in a row:
/// after an entry no second entry is ever sent.
pub proof fn lemma_run_is_orderly(e: Engine, evs: Seq<(EngineEvent, u64)>)
    requires
        e.phase == Phase::Watching,
        e.state == State::Idle,
    ensures
        orderly(run(e, evs).1),
        run_invariant(run(e, evs).0, run(e, evs).1),
    decreases evs.len(),
{
    if evs.len() > 0 {
        lemma_run_is_orderly(e, evs.drop_last());
        let (before, sent) = run(e, evs.drop_last());
        lemma_step_keeps_run_invariant(before, sent, evs.last().0, evs.last().1);
    }
}

} // verus!
