//! The life of one connected sensor, as a state machine:
//! `Subscribing`, then `Streaming`, then `Closed`.
//!
//! The caller subscribes to the measurement characteristic when it creates
//! the session, reports what happens as [`SessionEvent`]s and carries out the
//! [`SessionAction`] that each one calls for. Reconnecting is not the
//! session's business.

use crate::measurement::{decodable, decode, decoded, DecodeError, HeartRateMeasurement, Measurement};
use crate::osc::{result_view, sent_bundle, BridgeError, BundleView, OscBundle, VRCOSCClient};
use vstd::prelude::*;

verus! {

#[derive(Clone, Copy, Debug, PartialEq, Eq)]
pub enum SessionState {
    /// The subscription has been asked for and not yet answered.
    Subscribing,
    /// Notifications are being consumed.
    Streaming,
    /// Terminal: the stream ended or the subscription failed.
    Closed,
}

/// What happened on the connection.
#[derive(Debug, PartialEq, Eq)]
pub enum SessionEvent {
    /// The subscription was accepted.
    Subscribed,
    /// The subscription was refused.
    SubscribeFailed,
    /// A notification arrived, at `unix_millis` milliseconds since
    /// 1970-01-01 by the caller's clock.
    Notification { payload: Vec<u8>, unix_millis: u128 },
    /// The notification stream ended: the device is gone.
    StreamEnded,
}

/// The mathematical value of a [`SessionEvent`].
pub enum SessionEventView {
    Subscribed,
    SubscribeFailed,
    Notification { payload: Seq<u8>, unix_millis: u128 },
    StreamEnded,
}

impl View for SessionEvent {
    type V = SessionEventView;

    open spec fn view(&self) -> SessionEventView {
        match *self {
            SessionEvent::Subscribed => SessionEventView::Subscribed,
            SessionEvent::SubscribeFailed => SessionEventView::SubscribeFailed,
            SessionEvent::Notification { payload, unix_millis } => SessionEventView::Notification {
                payload: payload@,
                unix_millis,
            },
            SessionEvent::StreamEnded => SessionEventView::StreamEnded,
        }
    }
}

/// What the caller is to do next.
#[derive(Debug, PartialEq, Eq)]
pub enum SessionAction {
    /// Nothing; wait for the next event.
    Idle,
    /// Report upward that the subscription failed. The session is closed.
    ReportSubscribeFailure,
    /// The notification could not be decoded: note the error and drop it.
    /// The stream goes on.
    Skip(DecodeError),
    /// Hand the measurement to the event sink, whatever becomes of the
    /// bundle. Where `bundle` is `Ok`, send it; where it is an error, or
    /// sending fails, note that and go on. Nothing is sent again.
    Deliver { measurement: HeartRateMeasurement, bundle: Result<OscBundle, BridgeError> },
}

/// The mathematical value of a [`SessionAction`].
pub enum SessionActionView {
    Idle,
    ReportSubscribeFailure,
    Skip(DecodeError),
    Deliver { measurement: Measurement, bundle: Result<BundleView, BridgeError> },
}

impl View for SessionAction {
    type V = SessionActionView;

    open spec fn view(&self) -> SessionActionView {
        match *self {
            SessionAction::Idle => SessionActionView::Idle,
            SessionAction::ReportSubscribeFailure => SessionActionView::ReportSubscribeFailure,
            SessionAction::Skip(error) => SessionActionView::Skip(error),
            SessionAction::Deliver { measurement, bundle } => SessionActionView::Deliver {
                measurement: measurement@,
                bundle: result_view(bundle),
            },
        }
    }
}

/// The mathematical value of a [`DeviceSession`].
pub struct SessionView {
    pub state: SessionState,
    /// The heartbeat toggle that the latest bundle carried; `false` before
    /// the first.
    pub toggle: bool,
}

/// The session's transition function: the state after `event` and the
/// action that it calls for.
///
/// - The answer to the subscription moves a `Subscribing` session to
///   `Streaming` or, on refusal, to `Closed`.
/// - A notification that reaches a `Streaming` session is decoded. What
///   decodes is delivered together with the bundle for it, and flips the
///   heartbeat toggle; what does not is skipped.
/// - The end of the stream closes the session.
/// - Everything else, and everything that reaches a `Closed` session,
///   changes nothing.
pub open spec fn session_step(session: SessionView, event: SessionEventView) -> (
    SessionView,
    SessionActionView,
) {
    match (session.state, event) {
        (SessionState::Subscribing, SessionEventView::Subscribed) => (
            SessionView { state: SessionState::Streaming, toggle: session.toggle },
            SessionActionView::Idle,
        ),
        (SessionState::Subscribing, SessionEventView::SubscribeFailed) => (
            SessionView { state: SessionState::Closed, toggle: session.toggle },
            SessionActionView::ReportSubscribeFailure,
        ),
        (SessionState::Streaming, SessionEventView::Notification { payload, unix_millis }) => {
            if decodable(payload) {
                (
                    SessionView { state: SessionState::Streaming, toggle: !session.toggle },
                    SessionActionView::Deliver {
                        measurement: decoded(payload),
                        bundle: sent_bundle(decoded(payload), !session.toggle, unix_millis),
                    },
                )
            } else {
                (session, SessionActionView::Skip(DecodeError::MalformedPayload))
            }
        },
        (SessionState::Subscribing, SessionEventView::StreamEnded) => (
            SessionView { state: SessionState::Closed, toggle: session.toggle },
            SessionActionView::Idle,
        ),
        (SessionState::Streaming, SessionEventView::StreamEnded) => (
            SessionView { state: SessionState::Closed, toggle: session.toggle },
            SessionActionView::Idle,
        ),
        _ => (session, SessionActionView::Idle),
    }
}

/// `Closed` is terminal: a closed session stays closed and asks for nothing,
/// whatever arrives.
pub proof fn lemma_closed_is_terminal(session: SessionView, event: SessionEventView)
    requires
        session.state is Closed,
    ensures
        session_step(session, event) == (session, SessionActionView::Idle),
{
}

/// Only a notification that reaches a streaming session and decodes is
/// delivered, and it is delivered whether or not a bundle could be built for
/// it. One that does not decode is skipped and leaves the session as it was.
/// Neither ends the stream. The heartbeat toggle flips with every delivery
/// and at no other time.
pub proof fn lemma_delivery(session: SessionView, event: SessionEventView)
    ensures
        session_step(session, event).1 is Deliver <==> session.state is Streaming && (
        event matches SessionEventView::Notification { payload, .. } && decodable(payload)),
        session_step(session, event).1 is Skip ==> session_step(session, event).0 == session
            && session.state is Streaming,
        session.state is Streaming && event is Notification ==> session_step(
            session,
            event,
        ).0.state is Streaming,
        session_step(session, event).0.toggle == if session_step(session, event).1 is Deliver {
            !session.toggle
        } else {
            session.toggle
        },
{
}

/// One sensor's session, with the sending side it feeds.
#[derive(Debug)]
pub struct DeviceSession {
    state: SessionState,
    client: VRCOSCClient,
}

impl View for DeviceSession {
    type V = SessionView;

    closed spec fn view(&self) -> SessionView {
        SessionView { state: self.state, toggle: self.client.flip_flop() }
    }
}

impl DeviceSession {
    /// A session that waits for its subscription to be answered.
    pub fn new() -> (session: Self)
        ensures
            session@ == (SessionView { state: SessionState::Subscribing, toggle: false }),
    {
        DeviceSession { state: SessionState::Subscribing, client: VRCOSCClient::new() }
    }

    pub fn state(&self) -> (state: SessionState)
        ensures
            state == self@.state,
    {
        self.state
    }

    /// Takes one event and answers with the action it calls for, as
    /// [`session_step`] defines.
    pub fn step(&mut self, event: &SessionEvent) -> (action: SessionAction)
        ensures
            (final(self)@, action@) == session_step(old(self)@, event@),
    {
        match self.state {
            SessionState::Subscribing => match event {
                SessionEvent::Subscribed => {
                    self.state = SessionState::Streaming;
                    SessionAction::Idle
                },
                SessionEvent::SubscribeFailed => {
                    self.state = SessionState::Closed;
                    SessionAction::ReportSubscribeFailure
                },
                SessionEvent::StreamEnded => {
                    self.state = SessionState::Closed;
                    SessionAction::Idle
                },
                SessionEvent::Notification { .. } => SessionAction::Idle,
            },
            SessionState::Streaming => match event {
                SessionEvent::Notification { payload, unix_millis } => {
                    match decode(payload.as_slice()) {
                        Ok(measurement) => {
                            let bundle = self.client.send_heartrate(&measurement, *unix_millis);
                            SessionAction::Deliver { measurement, bundle }
                        },
                        Err(error) => SessionAction::Skip(error),
                    }
                },
                SessionEvent::StreamEnded => {
                    self.state = SessionState::Closed;
                    SessionAction::Idle
                },
                _ => SessionAction::Idle,
            },
            SessionState::Closed => SessionAction::Idle,
        }
    }
}

} // verus!
