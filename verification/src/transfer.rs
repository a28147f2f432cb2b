use vstd::prelude::*;

use crate::errors::HttpError;
use crate::status::is_server_error_status;
use crate::status::is_success_status;
use crate::status::spec_is_server_error_status;
use crate::status::spec_is_success_status;

verus! {

/// The phase of one request/response exchange. Each call is a single
/// logical unit of work — one request, one response — that moves from
/// `Idle` through `Connecting`, `AwaitingResponse` and `ReadingBody` to
/// `Done` or `Failed`; nothing is persisted across calls.
#[derive(Clone, Copy, Debug, PartialEq, Eq, Structural)]
pub enum Phase {
    Idle,
    Connecting,
    AwaitingResponse,
    ReadingBody,
    Done,
    Failed,
}

/// One observation handed in by the I/O shell that drives an exchange.
#[derive(Debug)]
pub enum TransferEvent {
    /// The call began and the connection is being opened.
    Started,
    /// The connection was established and the request was sent.
    ConnectionOpened,
    /// The connection or send failed for a reason other than the deadline;
    /// carries the underlying error text.
    TransportFailed(String),
    /// The overall timeout elapsed before the in-flight work finished.
    TimedOut,
    /// The response headers arrived with this status code.
    HeadersReceived(u16),
    /// The whole response body was read into memory.
    BodyReceived(Vec<u8>),
    /// The body read failed; carries the stream's error text.
    BodyFailed(String),
}

/// Whether `event` belongs to an exchange standing in `phase`: exactly the
/// transitions of the per-call state machine. Any other pair — a terminal
/// phase, or an event out of order — leaves the exchange unchanged.
pub open spec fn spec_event_applies(phase: Phase, event: TransferEvent) -> bool {
    ||| phase is Idle && event is Started
    ||| phase is Connecting && (event is ConnectionOpened || event is TimedOut
        || event is TransportFailed)
    ||| phase is AwaitingResponse && (event is HeadersReceived || event is TimedOut
        || event is TransportFailed)
    ||| phase is ReadingBody && (event is BodyReceived || event is BodyFailed
        || event is TimedOut)
}

/// One timeout-bounded request/response exchange.
///
/// The unverified I/O shell performs the network work and reports each
/// outcome through `step`; every decision — when the exchange fails, with
/// which error, and when the body is owed — is taken here. The overall
/// timeout covers connect, send and body read together: `TimedOut` fails
/// the exchange from any in-flight phase.
#[derive(Debug)]
pub struct Exchange {
    pub phase: Phase,
    pub check_status_code: bool,
    pub body: Option<Vec<u8>>,
    pub error: Option<HttpError>,
}

impl Exchange {
    /// Well-formedness: the body is held exactly in `Done`, an error
    /// exactly in `Failed`.
    pub open spec fn wf(self) -> bool {
        &&& self.body is Some <==> self.phase is Done
        &&& self.error is Some <==> self.phase is Failed
    }

    /// Whether network work is in flight, so the overall deadline can
    /// still fail the exchange.
    pub open spec fn in_flight(self) -> bool {
        self.phase is Connecting || self.phase is AwaitingResponse || self.phase is ReadingBody
    }

    /// A fresh exchange, not yet started.
    pub fn new(check_status_code: bool) -> (r: Exchange)
        ensures
            r.wf(),
            r.phase is Idle,
            r.check_status_code == check_status_code,
    {
        Exchange { phase: Phase::Idle, check_status_code, body: None, error: None }
    }

    /// Advances the exchange by one observation.
    ///
    /// The clauses below are the whole transition relation: start, connect,
    /// the deadline racing every in-flight phase, transport failure, the
    /// status-code policy on arrival of the headers, and the body read
    /// ending the exchange one way or the other. A pair of phase and event
    /// outside the relation changes nothing.
    pub fn step(&mut self, event: TransferEvent)
        requires
            old(self).wf(),
        ensures
            final(self).wf(),
            final(self).check_status_code == old(self).check_status_code,
            old(self).phase is Idle && event is Started
                ==> final(self).phase is Connecting,
            old(self).phase is Connecting && event is ConnectionOpened
                ==> final(self).phase is AwaitingResponse,
            old(self).in_flight() && event is TimedOut
                ==> final(self).phase is Failed
                    && final(self).error == Some(HttpError::Timeout),
            event is TransportFailed
                && (old(self).phase is Connecting || old(self).phase is AwaitingResponse)
                ==> final(self).phase is Failed
                    && final(self).error is Some
                    && final(self).error->Some_0 is Transport
                    && final(self).error->Some_0->Transport_0@ == event->TransportFailed_0@,
            event is HeadersReceived
                && old(self).phase is AwaitingResponse
                && (spec_is_success_status(event->HeadersReceived_0)
                    || !old(self).check_status_code)
                ==> final(self).phase is ReadingBody,
            event is HeadersReceived
                && old(self).phase is AwaitingResponse
                && !spec_is_success_status(event->HeadersReceived_0)
                && old(self).check_status_code
                ==> final(self).phase is Failed
                    && final(self).error is Some
                    && final(self).error->Some_0 is UnexpectedStatus
                    && final(self).error->Some_0->code == event->HeadersReceived_0
                    && final(self).error->Some_0->is_server_error
                        == spec_is_server_error_status(event->HeadersReceived_0),
            event is BodyReceived && old(self).phase is ReadingBody
                ==> final(self).phase is Done
                    && final(self).body == Some(event->BodyReceived_0),
            event is BodyFailed && old(self).phase is ReadingBody
                ==> final(self).phase is Failed
                    && final(self).error is Some
                    && final(self).error->Some_0 is BodyRead
                    && final(self).error->Some_0->BodyRead_0@ == event->BodyFailed_0@,
            !spec_event_applies(old(self).phase, event) ==> *final(self) == *old(self),
    {
        let phase = self.phase;
        match event {
            TransferEvent::Started => {
                if phase == Phase::Idle {
                    self.phase = Phase::Connecting;
                }
            },
            TransferEvent::ConnectionOpened => {
                if phase == Phase::Connecting {
                    self.phase = Phase::AwaitingResponse;
                }
            },
            TransferEvent::TimedOut => {
                if phase == Phase::Connecting || phase == Phase::AwaitingResponse || phase
                    == Phase::ReadingBody {
                    self.phase = Phase::Failed;
                    self.error = Some(HttpError::Timeout);
                }
            },
            TransferEvent::TransportFailed(m) => {
                if phase == Phase::Connecting || phase == Phase::AwaitingResponse {
                    self.phase = Phase::Failed;
                    self.error = Some(HttpError::Transport(m));
                }
            },
            TransferEvent::HeadersReceived(code) => {
                if phase == Phase::AwaitingResponse {
                    if !is_success_status(code) && self.check_status_code {
                        self.phase = Phase::Failed;
                        self.error = Some(
                            HttpError::UnexpectedStatus {
                                code,
                                is_server_error: is_server_error_status(code),
                            },
                        );
                    } else {
                        self.phase = Phase::ReadingBody;
                    }
                }
            },
            TransferEvent::BodyReceived(b) => {
                if phase == Phase::ReadingBody {
                    self.phase = Phase::Done;
                    self.body = Some(b);
                }
            },
            TransferEvent::BodyFailed(m) => {
                if phase == Phase::ReadingBody {
                    self.phase = Phase::Failed;
                    self.error = Some(HttpError::BodyRead(m));
                }
            },
        }
    }

    /// Hands the finished exchange's outcome to the caller: the owned body
    /// bytes of a `Done` exchange, the error of a `Failed` one.
    pub fn outcome(self) -> (r: Result<Vec<u8>, HttpError>)
        requires
            self.wf(),
            self.phase is Done || self.phase is Failed,
        ensures
            self.phase is Done ==> r == Ok::<Vec<u8>, HttpError>(self.body->Some_0),
            self.phase is Failed ==> r == Err::<Vec<u8>, HttpError>(self.error->Some_0),
    {
        let Exchange { phase: _, check_status_code: _, body, error } = self;
        match (body, error) {
            (Some(b), _) => Ok(b),
            (None, Some(e)) => Err(e),
            (None, None) => vstd::pervasive::unreached(),
        }
    }
}

} // verus!
