//! The wire-facing data model: requests, response frames, domain events,
//! the error taxonomy, and the translation of one inbound frame into the
//! events it carries.

use vstd::prelude::*;

verus! {

/// One pub/sub message, fully self-describing: sender identity, payload,
/// sequence number, the topics it was published on, and its signature
/// material, all as plain values.
#[derive(Clone, Debug, PartialEq, Eq)]
pub struct Msg {
    pub from: Vec<u8>,
    pub data: Vec<u8>,
    pub seqno: Vec<u8>,
    pub topics: Vec<String>,
    pub signature: Vec<u8>,
    pub key: Vec<u8>,
}

/// An opaque peer identity record, surfaced verbatim from the transport.
#[derive(Clone, Debug, PartialEq, Eq)]
pub struct Peer {
    pub id: Vec<u8>,
}

/// The kind of request a session sends, as echoed back by the remote in
/// publish acknowledgments.
#[derive(Clone, Copy, Debug, PartialEq, Eq, Structural)]
pub enum RequestKind {
    Subscribe,
    Publish,
    ListPeers,
}

/// The single outbound request of a session.
#[derive(Clone, Debug, PartialEq, Eq)]
pub enum Request {
    Subscribe { topics: Vec<String> },
    Publish { topics: Vec<String>, payload: Vec<u8> },
    ListPeers { topics: Vec<String> },
}

/// One inbound frame from the remote service.
#[derive(Clone, Debug, PartialEq, Eq)]
pub enum ResponseFrame {
    MessageBatch { messages: Vec<Msg> },
    PublishAck { kind: RequestKind },
    PeerList { peers: Vec<Peer> },
}

/// A typed domain event, the caller-facing projection of a frame.
#[derive(Clone, Debug, PartialEq, Eq)]
pub enum PubSubEvent {
    /// A message was received on a subscribed topic.
    Message(Msg),
    /// A peer was reported by a list-peers request.
    PeerDiscovered(Peer),
    /// The remote acknowledged the published request.
    PublishConfirmed,
}

/// Why a session ended without clean termination. Every variant is terminal
/// for its session; none is retried internally.
#[derive(Clone, Debug, PartialEq, Eq)]
pub enum StreamError {
    /// The duplex channel could not be opened.
    TransportUnavailable { detail: String },
    /// The outbound request could not be flushed or half-closed.
    SendFailure { detail: String },
    /// A frame read failed or the stream was reset.
    ReceiveFailure { detail: String },
    /// The remote acknowledged a different operation than a publish.
    ProtocolMismatch { echoed: RequestKind },
}

/// The kind of a request.
pub open spec fn request_kind(r: Request) -> RequestKind {
    match r {
        Request::Subscribe { .. } => RequestKind::Subscribe,
        Request::Publish { .. } => RequestKind::Publish,
        Request::ListPeers { .. } => RequestKind::ListPeers,
    }
}

/// A request is valid when its topic list is empty only for a publish.
pub open spec fn request_valid(r: Request) -> bool {
    match r {
        Request::Subscribe { topics } => topics@.len() > 0,
        Request::Publish { .. } => true,
        Request::ListPeers { topics } => topics@.len() > 0,
    }
}

/// The events one frame carries, or the error it signals: a message batch
/// yields one `Message` event per contained message, in batch order; a
/// publish acknowledgment yields one `PublishConfirmed` event when it echoes
/// `Publish` and signals `ProtocolMismatch` otherwise; a peer list yields
/// one `PeerDiscovered` event per peer, in listed order.
pub open spec fn frame_events(f: ResponseFrame) -> Result<Seq<PubSubEvent>, StreamError> {
    match f {
        ResponseFrame::MessageBatch { messages } => Ok(
            messages@.map_values(|m: Msg| PubSubEvent::Message(m)),
        ),
        ResponseFrame::PublishAck { kind } => if kind is Publish {
            Ok(seq![PubSubEvent::PublishConfirmed])
        } else {
            Err(StreamError::ProtocolMismatch { echoed: kind })
        },
        ResponseFrame::PeerList { peers } => Ok(
            peers@.map_values(|p: Peer| PubSubEvent::PeerDiscovered(p)),
        ),
    }
}

/// Whether a frame is a publish acknowledgment echoing `Publish`.
pub open spec fn matching_ack(f: ResponseFrame) -> bool {
    f matches ResponseFrame::PublishAck { kind } && kind is Publish
}

/// Whether a frame is a publish acknowledgment echoing some other kind:
/// the remote acknowledged a different operation than a publish.
pub open spec fn mismatched_ack(f: ResponseFrame) -> bool {
    f matches ResponseFrame::PublishAck { kind } && !(kind is Publish)
}

/// A batch of N messages carries exactly N `Message` events, the i-th
/// carrying the i-th message of the batch.
pub proof fn lemma_batch_events(frame: ResponseFrame)
    requires
        frame is MessageBatch,
    ensures
        frame_events(frame) matches Ok(evs) && evs.len() == frame->messages@.len() && (forall|
            i: int,
        |
            0 <= i < evs.len() ==> evs[i] == PubSubEvent::Message(frame->messages@[i])),
{
}

/// A peer list of N peers carries exactly N `PeerDiscovered` events, the
/// i-th carrying the i-th listed peer.
pub proof fn lemma_peer_list_events(frame: ResponseFrame)
    requires
        frame is PeerList,
    ensures
        frame_events(frame) matches Ok(evs) && evs.len() == frame->peers@.len() && (forall|i: int|
            0 <= i < evs.len() ==> evs[i] == PubSubEvent::PeerDiscovered(frame->peers@[i])),
{
}

/// A publish acknowledgment confirms only a publish: echoing `Publish`
/// carries exactly one `PublishConfirmed` event, and echoing any other
/// kind carries no event and signals `ProtocolMismatch` with that kind.
pub proof fn lemma_ack_events(frame: ResponseFrame)
    requires
        frame is PublishAck,
    ensures
        matching_ack(frame) ==> frame_events(frame) == Ok::<Seq<PubSubEvent>, StreamError>(
            seq![PubSubEvent::PublishConfirmed],
        ),
        mismatched_ack(frame) ==> frame_events(frame) == Err::<Seq<PubSubEvent>, StreamError>(
            StreamError::ProtocolMismatch { echoed: frame->kind },
        ),
{
}

/// A frame carries no error exactly when it is not a mismatched publish
/// acknowledgment.
pub proof fn lemma_frame_error_iff_mismatch(frame: ResponseFrame)
    ensures
        frame_events(frame) is Ok <==> !mismatched_ack(frame),
{
}

impl Request {
    /// The kind of this request.
    pub fn kind(&self) -> (k: RequestKind)
        ensures
            k == request_kind(*self),
    {
        match self {
            Request::Subscribe { .. } => RequestKind::Subscribe,
            Request::Publish { .. } => RequestKind::Publish,
            Request::ListPeers { .. } => RequestKind::ListPeers,
        }
    }
}

/// Translates one inbound frame into the events it carries, consuming the
/// frame: ownership transfers frame by frame and no frame is retained after
/// processing.
pub fn translate_frame(frame: ResponseFrame) -> (r: Result<Vec<PubSubEvent>, StreamError>)
    ensures
        frame_events(frame) matches Ok(evs) ==> r matches Ok(v) && v@ == evs,
        frame_events(frame) matches Err(e) ==> r == Result::<Vec<PubSubEvent>, StreamError>::Err(e),
{
    match frame {
        ResponseFrame::MessageBatch { messages } => {
            let ghost orig: Seq<Msg> = messages@;
            let mut rest = messages;
            let mut events: Vec<PubSubEvent> = Vec::new();
            while rest.len() > 0
                invariant
                    rest@.len() <= orig.len(),
                    rest@ == orig.skip(orig.len() - rest@.len()),
                    events@ == orig.take(orig.len() - rest@.len()).map_values(
                        |m: Msg| PubSubEvent::Message(m),
                    ),
                decreases rest@.len(),
            {
                let ghost done: int = orig.len() - rest@.len();
                let m = rest.remove(0);
                events.push(PubSubEvent::Message(m));
                proof {
                    assert(orig.skip(done).remove(0) =~= orig.skip(done + 1));
                    assert(orig.take(done + 1) =~= orig.take(done).push(orig[done]));
                    assert(orig.take(done + 1).map_values(|m: Msg| PubSubEvent::Message(m))
                        =~= orig.take(done).map_values(|m: Msg| PubSubEvent::Message(m)).push(
                        PubSubEvent::Message(orig[done]),
                    ));
                }
            }
            proof {
                assert(orig.take(orig.len() as int) =~= orig);
            }
            Ok(events)
        },
        ResponseFrame::PublishAck { kind } => {
            match kind {
                RequestKind::Publish => Ok(vec![PubSubEvent::PublishConfirmed]),
                _ => Err(StreamError::ProtocolMismatch { echoed: kind }),
            }
        },
        ResponseFrame::PeerList { peers } => {
            let ghost orig: Seq<Peer> = peers@;
            let mut rest = peers;
            let mut events: Vec<PubSubEvent> = Vec::new();
            while rest.len() > 0
                invariant
                    rest@.len() <= orig.len(),
                    rest@ == orig.skip(orig.len() - rest@.len()),
                    events@ == orig.take(orig.len() - rest@.len()).map_values(
                        |p: Peer| PubSubEvent::PeerDiscovered(p),
                    ),
                decreases rest@.len(),
            {
                let ghost done: int = orig.len() - rest@.len();
                let p = rest.remove(0);
                events.push(PubSubEvent::PeerDiscovered(p));
                proof {
                    assert(orig.skip(done).remove(0) =~= orig.skip(done + 1));
                    assert(orig.take(done + 1) =~= orig.take(done).push(orig[done]));
                    assert(orig.take(done + 1).map_values(|p: Peer| PubSubEvent::PeerDiscovered(p))
                        =~= orig.take(done).map_values(
                        |p: Peer| PubSubEvent::PeerDiscovered(p),
                    ).push(PubSubEvent::PeerDiscovered(orig[done])));
                }
            }
            proof {
                assert(orig.take(orig.len() as int) =~= orig);
            }
            Ok(events)
        },
    }
}

} // verus!
