//! The hardware driver: one request/response exchange at a time on the
//! serial channel.
//!
//! The driver decides; its caller performs the I/O. `begin` hands back the
//! frame to write, and `step` takes the outcome of each write, read or timer
//! and answers with the next thing to do, until the exchange finishes with a
//! response or an error. While an exchange is in flight the driver refuses to
//! begin another, so requests and responses alternate on the wire.
use vstd::prelude::*;
use crate::frame::{
    Request, RequestKind, Response, ResponseKind, encode_request, decode_response,
    has_whole_frame, holds_whole_frame, parse_response, request_frame,
};

verus! {

/// Why an exchange failed.
#[derive(Clone, Copy, Debug, PartialEq, Eq, Structural)]
pub enum DriverError {
    /// The channel could not be written to or read from.
    Transport,
    /// The bytes read were no valid frame, a frame of the wrong kind or
    /// token, or an explicit rejection by the device.
    Protocol,
    /// No whole frame arrived within the allotted time.
    Timeout,
}

/// What the caller observed since the last action.
pub enum Event {
    /// The request frame was written.
    Sent,
    /// A read returned these bytes; none means the channel reached its end.
    Received(Vec<u8>),
    /// A write or read failed.
    TransportFailed,
    /// The allotted time ran out before a whole frame arrived.
    TimedOut,
}

/// What the caller is to do next.
pub enum Action {
    /// Write `frame` to the channel; first drop whatever input is waiting
    /// when `discard_input` is set.
    Send { frame: Vec<u8>, discard_input: bool },
    /// Read more bytes from the channel.
    Read,
    /// The exchange is over, with this outcome.
    Finish(Result<Response, DriverError>),
}

/// The view of an `Event`.
pub enum EventModel {
    Sent,
    Received(Seq<u8>),
    TransportFailed,
    TimedOut,
}

/// The view of an `Action`: a frame to send and whether to drop pending
/// input first, a read, or the outcome.
pub enum ActionModel {
    Send(Seq<u8>, bool),
    Read,
    Finish(Result<Response, DriverError>),
}

impl View for Event {
    type V = EventModel;

    open spec fn view(&self) -> EventModel {
        match self {
            Event::Sent => EventModel::Sent,
            Event::Received(b) => EventModel::Received(b@),
            Event::TransportFailed => EventModel::TransportFailed,
            Event::TimedOut => EventModel::TimedOut,
        }
    }
}

impl View for Action {
    type V = ActionModel;

    open spec fn view(&self) -> ActionModel {
        match self {
            Action::Send { frame, discard_input } => ActionModel::Send(frame@, *discard_input),
            Action::Read => ActionModel::Read,
            Action::Finish(o) => ActionModel::Finish(*o),
        }
    }
}

/// The state of a driver: the request in flight, if any, the bytes of its
/// reply read so far, and whether stray input may wait on the channel.
pub struct DriverModel {
    pub in_flight: Option<Request>,
    pub received: Seq<u8>,
    pub stale_input: bool,
}

/// The driver of the serial channel; its view is a `DriverModel`.
pub struct Driver {
    in_flight: Option<Request>,
    received: Vec<u8>,
    stale_input: bool,
}

impl View for Driver {
    type V = DriverModel;

    closed spec fn view(&self) -> DriverModel {
        DriverModel {
            in_flight: self.in_flight,
            received: self.received@,
            stale_input: self.stale_input,
        }
    }
}

/// Whether `data` is the payload that a request of kind `k` asks for.
pub open spec fn payload_fits(k: RequestKind, data: Option<ResponseKind>) -> bool {
    match k {
        RequestKind::GetKinematicArmPose => data matches Some(ResponseKind::KinematicArmPose(_)),
    }
}

/// The outcome of an exchange for `req` whose reply frame is `bytes`.
pub open spec fn outcome(req: Request, bytes: Seq<u8>) -> Result<Response, DriverError> {
    match parse_response(bytes) {
        Some(r) => if r.token == req.token && payload_fits(req.kind, r.data) {
            Ok(r)
        } else {
            Err(DriverError::Protocol)
        },
        None => Err(DriverError::Protocol),
    }
}

/// The idle state that an exchange ends in; `stale` when it failed.
pub open spec fn settled(stale: bool) -> DriverModel {
    DriverModel { in_flight: None, received: Seq::empty(), stale_input: stale }
}

/// What `begin` does: from an idle state, put `req` in flight and send its
/// frame; while another request is in flight, nothing.
pub open spec fn begin_model(d: DriverModel, req: Request) -> (DriverModel, Option<ActionModel>) {
    if d.in_flight is Some {
        (d, None)
    } else {
        (
            DriverModel { in_flight: Some(req), received: Seq::empty(), stale_input: false },
            Some(ActionModel::Send(request_frame(req), d.stale_input)),
        )
    }
}

/// What `step` does on event `e`.
pub open spec fn step_model(d: DriverModel, e: EventModel) -> (DriverModel, Option<ActionModel>) {
    match d.in_flight {
        None => (d, None),
        Some(req) => match e {
            EventModel::Sent => (d, Some(ActionModel::Read)),
            EventModel::TransportFailed => (
                settled(true),
                Some(ActionModel::Finish(Err(DriverError::Transport))),
            ),
            EventModel::TimedOut => (
                settled(true),
                Some(ActionModel::Finish(Err(DriverError::Timeout))),
            ),
            EventModel::Received(chunk) => if chunk.len() == 0 {
                (settled(true), Some(ActionModel::Finish(Err(DriverError::Protocol))))
            } else {
                let all = d.received + chunk;
                if holds_whole_frame(all) {
                    let o = outcome(req, all);
                    (settled(o is Err), Some(ActionModel::Finish(o)))
                } else {
                    (
                        DriverModel { in_flight: d.in_flight, received: all, stale_input: d.stale_input },
                        Some(ActionModel::Read),
                    )
                }
            },
        },
    }
}

/// Whether an action's view is the same as a spec-level action.
pub open spec fn action_is(a: Option<Action>, m: Option<ActionModel>) -> bool {
    match a {
        None => m is None,
        Some(x) => m == Some(x@),
    }
}

/// A successful exchange returns a response to the request in flight whose
/// payload is the one that request asks for: a pose for a pose request.
pub proof fn lemma_success_fits_request(d: DriverModel, e: EventModel, req: Request, r: Response)
    requires
        d.in_flight == Some(req),
        step_model(d, e).1 == Some(ActionModel::Finish(Ok(r))),
    ensures
        r.token == req.token,
        payload_fits(req.kind, r.data),
        req.kind == RequestKind::GetKinematicArmPose ==> r.data matches Some(
            ResponseKind::KinematicArmPose(_),
        ),
{
}

/// An empty read, or a whole frame that is no valid response, ends the
/// exchange with a protocol error and never with a response.
pub proof fn lemma_empty_or_malformed_is_protocol_error(d: DriverModel, chunk: Seq<u8>)
    requires
        d.in_flight is Some,
        chunk.len() == 0 || (holds_whole_frame(d.received + chunk) && parse_response(
            d.received + chunk,
        ) is None),
    ensures
        step_model(d, EventModel::Received(chunk)).1 == Some(
            ActionModel::Finish(Err(DriverError::Protocol)),
        ),
        step_model(d, EventModel::Received(chunk)).0.in_flight is None,
{
}

/// A timeout ends the exchange with `Timeout` and frees the channel: the
/// next request is sent at once, after the stray input of the late reply is
/// dropped.
pub proof fn lemma_timeout_frees_channel(d: DriverModel, next: Request)
    requires
        d.in_flight is Some,
    ensures
        step_model(d, EventModel::TimedOut).1 == Some(
            ActionModel::Finish(Err(DriverError::Timeout)),
        ),
        begin_model(step_model(d, EventModel::TimedOut).0, next).1 == Some(
            ActionModel::Send(request_frame(next), true),
        ),
{
}

/// While a request is in flight nothing else is written: a second request
/// is refused, no event leads to a write, and the exchange stays in flight
/// until it finishes.
pub proof fn lemma_no_interleaving(d: DriverModel, e: EventModel, other: Request)
    requires
        d.in_flight is Some,
    ensures
        begin_model(d, other) == (d, None::<ActionModel>),
        !(step_model(d, e).1 matches Some(ActionModel::Send(_, _))),
        step_model(d, e).1 == Some(ActionModel::Read) ==> step_model(d, e).0.in_flight
            == d.in_flight,
        step_model(d, e).0.in_flight is None <==> step_model(d, e).1 matches Some(
            ActionModel::Finish(_),
        ),
{
}

impl Driver {
    /// A driver with nothing in flight and a clean channel.
    pub fn new() -> (d: Driver)
        ensures
            d@ == settled(false),
    {
        Driver { in_flight: None, received: Vec::new(), stale_input: false }
    }

    /// Whether a request is in flight.
    pub fn is_busy(&self) -> (r: bool)
        ensures
            r == self@.in_flight is Some,
    {
        self.in_flight.is_some()
    }

    /// Starts an exchange for `req`: returns the frame to send, or `None`
    /// while another exchange is in flight.
    pub fn begin(&mut self, req: Request) -> (a: Option<Action>)
        ensures
            final(self)@ == begin_model(old(self)@, req).0,
            action_is(a, begin_model(old(self)@, req).1),
    {
        if self.in_flight.is_some() {
            return None;
        }
        let discard_input = self.stale_input;
        self.in_flight = Some(req);
        self.received = Vec::new();
        self.stale_input = false;
        Some(Action::Send { frame: encode_request(&req), discard_input })
    }

    /// Advances the exchange in flight by what the caller observed; `None`
    /// when nothing is in flight.
    pub fn step(&mut self, event: Event) -> (a: Option<Action>)
        ensures
            final(self)@ == step_model(old(self)@, event@).0,
            action_is(a, step_model(old(self)@, event@).1),
    {
        match self.in_flight {
            None => None,
            Some(req) => Some(self.advance(req, event)),
        }
    }

    fn advance(&mut self, req: Request, event: Event) -> (a: Action)
        requires
            old(self)@.in_flight == Some(req),
        ensures
            final(self)@ == step_model(old(self)@, event@).0,
            step_model(old(self)@, event@).1 == Some(a@),
    {
        match event {
            Event::Sent => Action::Read,
            Event::TransportFailed => {
                self.finish(true);
                Action::Finish(Err(DriverError::Transport))
            },
            Event::TimedOut => {
                self.finish(true);
                Action::Finish(Err(DriverError::Timeout))
            },
            Event::Received(chunk) => {
                if chunk.len() == 0 {
                    self.finish(true);
                    return Action::Finish(Err(DriverError::Protocol));
                }
                let ghost before = self.received@;
                let mut i: usize = 0;
                while i < chunk.len()
                    invariant
                        i <= chunk@.len(),
                        self.in_flight == Some(req),
                        self.stale_input == old(self).stale_input,
                        self.received@ == before + chunk@.subrange(0, i as int),
                    decreases chunk@.len() - i,
                {
                    self.received.push(chunk[i]);
                    i = i + 1;
                    assert(self.received@ =~= before + chunk@.subrange(0, i as int));
                }
                assert(chunk@.subrange(0, chunk@.len() as int) =~= chunk@);
                if has_whole_frame(self.received.as_slice()) {
                    let o = resolve(&req, self.received.as_slice());
                    self.finish(o.is_err());
                    Action::Finish(o)
                } else {
                    Action::Read
                }
            },
        }
    }

    fn finish(&mut self, stale: bool)
        ensures
            final(self)@ == settled(stale),
    {
        self.in_flight = None;
        self.received = Vec::new();
        self.stale_input = stale;
    }
}

/// The outcome of an exchange for `req` whose reply frame is `bytes`: the
/// decoded response where it answers `req` with the payload that `req` asks
/// for, and a protocol error otherwise.
pub fn resolve(req: &Request, bytes: &[u8]) -> (r: Result<Response, DriverError>)
    ensures
        r == outcome(*req, bytes@),
{
    match decode_response(bytes) {
        None => Err(DriverError::Protocol),
        Some(resp) => {
            let fits = match req.kind {
                RequestKind::GetKinematicArmPose => match resp.data {
                    Some(ResponseKind::KinematicArmPose(_)) => true,
                    None => false,
                },
            };
            if resp.token == req.token && fits {
                Ok(resp)
            } else {
                Err(DriverError::Protocol)
            }
        },
    }
}

} // verus!
