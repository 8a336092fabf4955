//! The lifecycle of one stream session: exactly one request sent, inbound
//! frames drained in arrival order, deterministic termination.

use vstd::prelude::*;

use crate::protocol::frame_events;
use crate::protocol::matching_ack;
use crate::protocol::mismatched_ack;
use crate::protocol::request_valid;
use crate::protocol::translate_frame;
use crate::protocol::PubSubEvent;
use crate::protocol::Request;
use crate::protocol::ResponseFrame;
use crate::protocol::StreamError;

verus! {

/// Where a session stands in its lifecycle: `Open` (request not yet
/// flushed), `HalfClosed` (request flushed and the outbound half closed),
/// `Draining` (reading remaining frames after the send side finished),
/// `Closed` (terminated, cleanly or by an error).
#[derive(Clone, Copy, Debug, PartialEq, Eq, Structural)]
pub enum SessionState {
    Open,
    HalfClosed,
    Draining,
    Closed,
}

/// How the inbound side of a stream ended: a clean end-of-stream, or a
/// transport-level error with its detail.
#[derive(Clone, Debug, PartialEq, Eq)]
pub enum StreamEnd {
    EndOfStream,
    TransportError { detail: String },
}

/// One duplex stream session. It owns the single outbound request and
/// tracks where the session stands in its lifecycle; the transport halves
/// themselves live with the caller, which reports what happened on them
/// through the methods below.
pub struct Session {
    /// The one request this session sends.
    pub request: Request,
    /// Where the session stands in its lifecycle.
    pub state: SessionState,
    /// Whether the request has been flushed to the transport.
    pub sent: bool,
}

/// The state a session moves to when a frame arrives and carries no error:
/// a half-closed session starts draining; an open or draining session stays
/// where it is.
pub open spec fn state_after_frame(st: SessionState) -> SessionState {
    if st is HalfClosed {
        SessionState::Draining
    } else {
        st
    }
}

impl Session {
    /// A session is well formed when its request is valid and its lifecycle
    /// and send flag agree: the request is unsent exactly as long as the
    /// session is `Open`, and both post-send states imply it went out. This
    /// is what makes a second send impossible: only `mark_sent` sets the
    /// flag, it requires `Open`, and no transition leads back to `Open`.
    pub open spec fn wf(self) -> bool {
        &&& request_valid(self.request)
        &&& (self.state is Open ==> !self.sent)
        &&& (self.state is HalfClosed ==> self.sent)
        &&& (self.state is Draining ==> self.sent)
    }

    /// Opens a session for one request. Establishing the duplex channel is
    /// the transport collaborator's work; the session starts `Open` with
    /// the request not yet sent.
    pub fn open(request: Request) -> (s: Session)
        requires
            request_valid(request),
        ensures
            s.wf(),
            s.state is Open,
            !s.sent,
            s.request == request,
    {
        Session { request, state: SessionState::Open, sent: false }
    }

    /// Records that the one request was flushed and the outbound half
    /// closed. Only an `Open` session may send, and the session never
    /// returns to `Open`, so no session sends twice.
    pub fn mark_sent(&mut self)
        requires
            old(self).wf(),
            old(self).state is Open,
        ensures
            final(self).wf(),
            final(self).state is HalfClosed,
            final(self).sent,
            final(self).request == old(self).request,
    {
        self.state = SessionState::HalfClosed;
        self.sent = true;
    }

    /// Consumes one inbound frame: returns the events it carries, in frame
    /// order, or closes the session on the error it signals. Each frame is
    /// fully translated before the caller asks the transport for the next.
    pub fn on_frame(&mut self, frame: ResponseFrame) -> (r: Result<Vec<PubSubEvent>, StreamError>)
        requires
            old(self).wf(),
            !(old(self).state is Closed),
        ensures
            final(self).wf(),
            final(self).request == old(self).request,
            final(self).sent == old(self).sent,
            frame_events(frame) matches Ok(evs) ==> r matches Ok(v) && v@ == evs
                && final(self).state == state_after_frame(old(self).state),
            frame_events(frame) matches Err(e) ==> r == Result::<Vec<PubSubEvent>, StreamError>::Err(e)
                && final(self).state is Closed,
    {
        match translate_frame(frame) {
            Ok(events) => {
                if let SessionState::HalfClosed = self.state {
                    self.state = SessionState::Draining;
                }
                Ok(events)
            },
            Err(e) => {
                self.state = SessionState::Closed;
                Err(e)
            },
        }
    }

    /// Records a clean end-of-stream: the session closes with no error.
    pub fn on_end_of_stream(&mut self)
        requires
            old(self).wf(),
        ensures
            final(self).wf(),
            final(self).state is Closed,
            final(self).sent == old(self).sent,
            final(self).request == old(self).request,
    {
        self.state = SessionState::Closed;
    }

    /// Records a failed frame read or stream reset: the session closes at
    /// once, abandoning further reads, and the transport's detail is
    /// carried in the error.
    pub fn on_receive_failure(&mut self, detail: String) -> (e: StreamError)
        requires
            old(self).wf(),
        ensures
            final(self).wf(),
            final(self).state is Closed,
            final(self).sent == old(self).sent,
            final(self).request == old(self).request,
            e == (StreamError::ReceiveFailure { detail }),
    {
        self.state = SessionState::Closed;
        StreamError::ReceiveFailure { detail }
    }

    /// Records that the request could not be flushed or half-closed. Fatal
    /// to the whole session and never retried here: retry means opening a
    /// new session.
    pub fn on_send_failure(&mut self, detail: String) -> (e: StreamError)
        requires
            old(self).wf(),
        ensures
            final(self).wf(),
            final(self).state is Closed,
            final(self).sent == old(self).sent,
            final(self).request == old(self).request,
            e == (StreamError::SendFailure { detail }),
    {
        self.state = SessionState::Closed;
        StreamError::SendFailure { detail }
    }

    /// Cancels the session from any state: it closes immediately. Closing
    /// the underlying channel, which releases both the send and the receive
    /// activity, is the transport collaborator's side of cancellation.
    pub fn cancel(&mut self)
        requires
            old(self).wf(),
        ensures
            final(self).wf(),
            final(self).state is Closed,
            final(self).sent == old(self).sent,
            final(self).request == old(self).request,
    {
        self.state = SessionState::Closed;
    }

    /// Whether the session has terminated.
    pub fn is_closed(&self) -> (r: bool)
        ensures
            r <==> self.state is Closed,
    {
        match self.state {
            SessionState::Closed => true,
            _ => false,
        }
    }
}

/// The error a failed channel establishment surfaces: the session never
/// came into being, so this stands apart from the session methods.
pub fn open_failure(detail: String) -> (e: StreamError)
    ensures
        e == (StreamError::TransportUnavailable { detail }),
{
    StreamError::TransportUnavailable { detail }
}

/// Every event a session delivers for the inbound frames `frames`, in
/// arrival order: each frame's events in full before the next frame's, and
/// nothing past the first frame that signals an error.
pub open spec fn session_events(frames: Seq<ResponseFrame>) -> Seq<PubSubEvent>
    decreases frames.len(),
{
    if frames.len() == 0 {
        Seq::empty()
    } else {
        match frame_events(frames.first()) {
            Ok(evs) => evs + session_events(frames.drop_first()),
            Err(_) => Seq::empty(),
        }
    }
}

/// How a session ends for the inbound frames `frames` followed by the
/// stream ending `end`: the error of the first erroneous frame if there is
/// one; otherwise clean success on end-of-stream, or a receive failure
/// carrying the transport's detail.
pub open spec fn session_outcome(frames: Seq<ResponseFrame>, end: StreamEnd) -> Result<
    (),
    StreamError,
>
    decreases frames.len(),
{
    if frames.len() == 0 {
        match end {
            StreamEnd::EndOfStream => Ok(()),
            StreamEnd::TransportError { detail } => Err(StreamError::ReceiveFailure { detail }),
        }
    } else {
        match frame_events(frames.first()) {
            Ok(_) => session_outcome(frames.drop_first(), end),
            Err(e) => Err(e),
        }
    }
}

/// Runs one session to completion over the inbound side of its stream:
/// marks the single request sent, consumes the frames in arrival order
/// (each translated in full before the next is taken), and closes on the
/// first error, on end-of-stream, or on the transport's failure. Returns
/// every event delivered before termination together with the outcome:
/// either a complete event sequence and success, or a partial one and the
/// one terminal error.
pub fn run_session(session: &mut Session, replies: Vec<ResponseFrame>, end: StreamEnd) -> (r: (
    Vec<PubSubEvent>,
    Result<(), StreamError>,
))
    requires
        old(session).wf(),
        old(session).state is Open,
    ensures
        final(session).wf(),
        final(session).state is Closed,
        final(session).sent,
        final(session).request == old(session).request,
        r.0@ == session_events(replies@),
        r.1 == session_outcome(replies@, end),
{
    session.mark_sent();
    let ghost all: Seq<ResponseFrame> = replies@;
    let mut rest = replies;
    let mut events: Vec<PubSubEvent> = Vec::new();
    while rest.len() > 0
        invariant
            all == replies@,
            session.wf(),
            !(session.state is Closed),
            session.sent,
            session.request == old(session).request,
            session_events(all) == events@ + session_events(rest@),
            session_outcome(all, end) == session_outcome(rest@, end),
        decreases rest@.len(),
    {
        let ghost before: Seq<ResponseFrame> = rest@;
        let frame = rest.remove(0);
        proof {
            assert(before.remove(0) =~= before.drop_first());
        }
        match session.on_frame(frame) {
            Ok(mut evs) => {
                proof {
                    assert(events@ + (evs@ + session_events(before.drop_first())) =~= (events@
                        + evs@) + session_events(before.drop_first()));
                }
                events.append(&mut evs);
            },
            Err(e) => {
                proof {
                    assert(session_events(before) =~= Seq::<PubSubEvent>::empty());
                    assert(events@ + Seq::<PubSubEvent>::empty() =~= events@);
                }
                return (events, Err(e));
            },
        }
    }
    proof {
        assert(events@ + Seq::<PubSubEvent>::empty() =~= events@);
    }
    match end {
        StreamEnd::EndOfStream => {
            session.on_end_of_stream();
            (events, Ok(()))
        },
        StreamEnd::TransportError { detail } => {
            let e = session.on_receive_failure(detail);
            (events, Err(e))
        },
    }
}

/// No session sends a second request: a well-formed session whose one
/// request has gone out is never `Open` again, and `mark_sent`, the only
/// transition that sends, requires `Open`.
pub proof fn lemma_no_second_send(s: Session)
    requires
        s.wf(),
        s.sent,
    ensures
        !(s.state is Open),
{
}

/// Events keep frame arrival order: every event of the first frame comes
/// before every event of the frames after it, and a frame's events are
/// complete before the next frame contributes any.
pub proof fn lemma_events_frame_order(frames: Seq<ResponseFrame>)
    requires
        frames.len() > 0,
        frame_events(frames.first()) is Ok,
    ensures
        session_events(frames) == frame_events(frames.first())->Ok_0 + session_events(
            frames.drop_first(),
        ),
{
}

/// Without a publish acknowledgment echoing `Publish` among the frames, a
/// run delivers no `PublishConfirmed` event.
pub proof fn lemma_no_confirm_without_matching_ack(frames: Seq<ResponseFrame>)
    requires
        forall|i: int| 0 <= i < frames.len() ==> !matching_ack(#[trigger] frames[i]),
    ensures
        forall|j: int|
            0 <= j < session_events(frames).len() ==> #[trigger] session_events(frames)[j]
                != PubSubEvent::PublishConfirmed,
    decreases frames.len(),
{
    if frames.len() > 0 {
        let first = frames.first();
        assert(!matching_ack(frames[0]));
        match frame_events(first) {
            Ok(evs) => {
                assert forall|j: int| 0 <= j < evs.len() implies evs[j]
                    != PubSubEvent::PublishConfirmed by {
                    match first {
                        ResponseFrame::MessageBatch { messages } => {
                            assert(evs[j] == PubSubEvent::Message(messages@[j]));
                        },
                        ResponseFrame::PublishAck { kind } => {
                            assert(matching_ack(frames[0]));
                        },
                        ResponseFrame::PeerList { peers } => {
                            assert(evs[j] == PubSubEvent::PeerDiscovered(peers@[j]));
                        },
                    }
                }
                let tail = frames.drop_first();
                assert forall|i: int| 0 <= i < tail.len() implies !matching_ack(
                    #[trigger] tail[i],
                ) by {
                    assert(tail[i] == frames[i + 1]);
                }
                lemma_no_confirm_without_matching_ack(tail);
                assert forall|j: int| 0 <= j < session_events(frames).len() implies #[trigger] session_events(
                    frames,
                )[j] != PubSubEvent::PublishConfirmed by {
                    if j < evs.len() {
                        assert(session_events(frames)[j] == evs[j]);
                    } else {
                        assert(session_events(frames)[j] == session_events(tail)[j - evs.len()]);
                    }
                }
            },
            Err(_) => {},
        }
    }
}

/// A publish acknowledgment echoing a kind other than `Publish` among the
/// frames makes the run fail, and the terminal error is a
/// `ProtocolMismatch`.
pub proof fn lemma_mismatched_ack_fails(frames: Seq<ResponseFrame>, end: StreamEnd)
    requires
        exists|i: int| 0 <= i < frames.len() && mismatched_ack(#[trigger] frames[i]),
    ensures
        session_outcome(frames, end) matches Err(e) && e matches StreamError::ProtocolMismatch {
            ..
        },
    decreases frames.len(),
{
    let i = choose|i: int| 0 <= i < frames.len() && mismatched_ack(#[trigger] frames[i]);
    let first = frames.first();
    if mismatched_ack(first) {
        assert(frame_events(first) is Err);
    } else {
        crate::protocol::lemma_frame_error_iff_mismatch(first);
        assert(i >= 1) by {
            assert(frames[0] == first);
        }
        let tail = frames.drop_first();
        assert(0 <= i - 1 < tail.len() && mismatched_ack(tail[i - 1])) by {
            assert(tail[i - 1] == frames[i]);
        }
        lemma_mismatched_ack_fails(tail, end);
    }
}

/// With no erroneous frame, the outcome is decided by how the stream
/// ended: end-of-stream means clean success, and a transport error
/// surfaces as a receive failure carrying the transport's detail.
pub proof fn lemma_outcome_from_end(frames: Seq<ResponseFrame>, end: StreamEnd)
    requires
        forall|i: int| 0 <= i < frames.len() ==> frame_events(#[trigger] frames[i]) is Ok,
    ensures
        session_outcome(frames, end) == (match end {
            StreamEnd::EndOfStream => Ok::<(), StreamError>(()),
            StreamEnd::TransportError { detail } => Err(StreamError::ReceiveFailure { detail }),
        }),
    decreases frames.len(),
{
    if frames.len() > 0 {
        assert(frame_events(frames[0]) is Ok);
        let tail = frames.drop_first();
        assert forall|i: int| 0 <= i < tail.len() implies frame_events(#[trigger] tail[i]) is Ok by {
            assert(tail[i] == frames[i + 1]);
        }
        lemma_outcome_from_end(tail, end);
    }
}

/// A session ends in clean success exactly when no inbound frame signals
/// an error and the stream ends with end-of-stream; every other run ends
/// in one terminal error.
pub proof fn lemma_success_iff(frames: Seq<ResponseFrame>, end: StreamEnd)
    ensures
        session_outcome(frames, end) is Ok <==> (end is EndOfStream && (forall|i: int|
            0 <= i < frames.len() ==> frame_events(#[trigger] frames[i]) is Ok)),
    decreases frames.len(),
{
    if end is EndOfStream && (forall|i: int|
        0 <= i < frames.len() ==> frame_events(#[trigger] frames[i]) is Ok) {
        lemma_outcome_from_end(frames, end);
    }
    if session_outcome(frames, end) is Ok && frames.len() > 0 {
        match frame_events(frames.first()) {
            Ok(_) => {
                lemma_success_iff(frames.drop_first(), end);
                assert forall|i: int| 0 <= i < frames.len() implies frame_events(
                    #[trigger] frames[i],
                ) is Ok by {
                    if i == 0 {
                        assert(frames[0] == frames.first());
                    } else {
                        assert(frames[i] == frames.drop_first()[i - 1]);
                    }
                }
            },
            Err(_) => {},
        }
    }
}

/// The law for a publish whose remote acknowledged a different operation:
/// if every publish acknowledgment among the frames echoes a kind other
/// than `Publish` and at least one such acknowledgment arrives, the run
/// fails with `ProtocolMismatch` and delivers no `PublishConfirmed` event.
pub proof fn lemma_publish_mismatch(frames: Seq<ResponseFrame>, end: StreamEnd)
    requires
        forall|i: int| 0 <= i < frames.len() ==> !matching_ack(#[trigger] frames[i]),
        exists|i: int| 0 <= i < frames.len() && mismatched_ack(#[trigger] frames[i]),
    ensures
        session_outcome(frames, end) matches Err(e) && e matches StreamError::ProtocolMismatch {
            ..
        },
        forall|j: int|
            0 <= j < session_events(frames).len() ==> #[trigger] session_events(frames)[j]
                != PubSubEvent::PublishConfirmed,
{
    lemma_no_confirm_without_matching_ack(frames);
    lemma_mismatched_ack_fails(frames, end);
}

/// Subscribes to `topics`: sends exactly one `Subscribe` request on a fresh
/// session — never a second on the same session — then drains the replies.
/// Returns the closed session, the events delivered in arrival order, and
/// the outcome.
pub fn ps_sub(topics: Vec<String>, replies: Vec<ResponseFrame>, end: StreamEnd) -> (r: (
    Session,
    Vec<PubSubEvent>,
    Result<(), StreamError>,
))
    requires
        topics@.len() > 0,
    ensures
        r.0.wf(),
        r.0.state is Closed,
        r.0.sent,
        r.0.request == (Request::Subscribe { topics }),
        r.1@ == session_events(replies@),
        r.2 == session_outcome(replies@, end),
{
    let mut session = Session::open(Request::Subscribe { topics });
    let (events, outcome) = run_session(&mut session, replies, end);
    (session, events, outcome)
}

/// Publishes `data` on `topics` (the one request kind whose topic list may
/// be empty): sends exactly one `Publish` request on a fresh session, then
/// drains the replies. A `PublishAck` echoing any kind but `Publish` ends
/// the run with `ProtocolMismatch`.
pub fn ps_pub(topics: Vec<String>, data: Vec<u8>, replies: Vec<ResponseFrame>, end: StreamEnd) -> (r:
    (Session, Vec<PubSubEvent>, Result<(), StreamError>))
    ensures
        r.0.wf(),
        r.0.state is Closed,
        r.0.sent,
        r.0.request == (Request::Publish { topics, payload: data }),
        r.1@ == session_events(replies@),
        r.2 == session_outcome(replies@, end),
{
    let mut session = Session::open(Request::Publish { topics, payload: data });
    let (events, outcome) = run_session(&mut session, replies, end);
    (session, events, outcome)
}

/// Lists the peers on `topics`: sends exactly one `ListPeers` request on a
/// fresh session, then drains the replies into `PeerDiscovered` events in
/// listed order.
pub fn ps_peers(topics: Vec<String>, replies: Vec<ResponseFrame>, end: StreamEnd) -> (r: (
    Session,
    Vec<PubSubEvent>,
    Result<(), StreamError>,
))
    requires
        topics@.len() > 0,
    ensures
        r.0.wf(),
        r.0.state is Closed,
        r.0.sent,
        r.0.request == (Request::ListPeers { topics }),
        r.1@ == session_events(replies@),
        r.2 == session_outcome(replies@, end),
{
    let mut session = Session::open(Request::ListPeers { topics });
    let (events, outcome) = run_session(&mut session, replies, end);
    (session, events, outcome)
}

} // verus!
