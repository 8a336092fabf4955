use pubsub_session::protocol::Msg;
use pubsub_session::protocol::Peer;
use pubsub_session::protocol::PubSubEvent;
use pubsub_session::protocol::Request;
use pubsub_session::protocol::RequestKind;
use pubsub_session::protocol::ResponseFrame;
use pubsub_session::protocol::StreamError;
use pubsub_session::session::open_failure;
use pubsub_session::session::ps_peers;
use pubsub_session::session::ps_pub;
use pubsub_session::session::ps_sub;
use pubsub_session::session::run_session;
use pubsub_session::session::Session;
use pubsub_session::session::SessionState;
use pubsub_session::session::StreamEnd;

fn topic_a() -> Vec<String> {
    vec!["topic-a".to_string()]
}

fn sample_msg() -> Msg {
    Msg {
        from: vec![1],
        data: vec![2, 3],
        seqno: vec![0],
        topics: topic_a(),
        signature: vec![],
        key: vec![],
    }
}

#[test]
fn subscribe_single_message_batch() {
    let replies = vec![ResponseFrame::MessageBatch { messages: vec![sample_msg()] }];
    let (session, events, outcome) = ps_sub(topic_a(), replies, StreamEnd::EndOfStream);
    assert_eq!(events, vec![PubSubEvent::Message(sample_msg())]);
    assert_eq!(outcome, Ok(()));
    assert_eq!(session.state, SessionState::Closed);
    assert!(session.sent);
    assert_eq!(session.request, Request::Subscribe { topics: topic_a() });
}

#[test]
fn publish_mismatched_ack_yields_no_events() {
    let replies = vec![ResponseFrame::PublishAck { kind: RequestKind::Subscribe }];
    let (session, events, outcome) = ps_pub(topic_a(), vec![9, 9], replies, StreamEnd::EndOfStream);
    assert!(events.is_empty());
    assert_eq!(
        outcome,
        Err(StreamError::ProtocolMismatch { echoed: RequestKind::Subscribe })
    );
    assert_eq!(session.state, SessionState::Closed);
    assert_eq!(
        session.request,
        Request::Publish { topics: topic_a(), payload: vec![9, 9] }
    );
}

#[test]
fn publish_matching_ack_confirms() {
    let replies = vec![ResponseFrame::PublishAck { kind: RequestKind::Publish }];
    let (_, events, outcome) = ps_pub(topic_a(), vec![7], replies, StreamEnd::EndOfStream);
    assert_eq!(events, vec![PubSubEvent::PublishConfirmed]);
    assert_eq!(outcome, Ok(()));
}

#[test]
fn list_peers_three_in_order() {
    let peers = vec![Peer { id: vec![10] }, Peer { id: vec![11] }, Peer { id: vec![12] }];
    let replies = vec![ResponseFrame::PeerList { peers: peers.clone() }];
    let (session, events, outcome) = ps_peers(topic_a(), replies, StreamEnd::EndOfStream);
    assert_eq!(
        events,
        vec![
            PubSubEvent::PeerDiscovered(Peer { id: vec![10] }),
            PubSubEvent::PeerDiscovered(Peer { id: vec![11] }),
            PubSubEvent::PeerDiscovered(Peer { id: vec![12] }),
        ]
    );
    assert_eq!(outcome, Ok(()));
    assert_eq!(session.request, Request::ListPeers { topics: topic_a() });
}

#[test]
fn events_keep_frame_arrival_order() {
    let m1 = Msg { data: vec![1], ..sample_msg() };
    let m2 = Msg { data: vec![2], ..sample_msg() };
    let m3 = Msg { data: vec![3], ..sample_msg() };
    let replies = vec![
        ResponseFrame::MessageBatch { messages: vec![m1.clone(), m2.clone()] },
        ResponseFrame::PeerList { peers: vec![Peer { id: vec![9] }] },
        ResponseFrame::MessageBatch { messages: vec![m3.clone()] },
    ];
    let (_, events, outcome) = ps_sub(topic_a(), replies, StreamEnd::EndOfStream);
    assert_eq!(
        events,
        vec![
            PubSubEvent::Message(m1),
            PubSubEvent::Message(m2),
            PubSubEvent::PeerDiscovered(Peer { id: vec![9] }),
            PubSubEvent::Message(m3),
        ]
    );
    assert_eq!(outcome, Ok(()));
}

#[test]
fn partial_events_then_terminal_error() {
    let replies = vec![
        ResponseFrame::MessageBatch { messages: vec![sample_msg()] },
        ResponseFrame::PublishAck { kind: RequestKind::ListPeers },
        ResponseFrame::MessageBatch { messages: vec![sample_msg()] },
    ];
    let (_, events, outcome) = ps_pub(topic_a(), vec![9], replies, StreamEnd::EndOfStream);
    assert_eq!(events, vec![PubSubEvent::Message(sample_msg())]);
    assert_eq!(
        outcome,
        Err(StreamError::ProtocolMismatch { echoed: RequestKind::ListPeers })
    );
}

#[test]
fn empty_reply_stream_terminates_cleanly() {
    let (session, events, outcome) = ps_sub(topic_a(), vec![], StreamEnd::EndOfStream);
    assert!(events.is_empty());
    assert_eq!(outcome, Ok(()));
    assert!(session.sent);
    assert_eq!(session.state, SessionState::Closed);
}

#[test]
fn transport_error_surfaces_as_receive_failure() {
    let replies = vec![ResponseFrame::MessageBatch { messages: vec![sample_msg()] }];
    let end = StreamEnd::TransportError { detail: "stream reset".to_string() };
    let (_, events, outcome) = ps_sub(topic_a(), replies, end);
    assert_eq!(events, vec![PubSubEvent::Message(sample_msg())]);
    assert_eq!(
        outcome,
        Err(StreamError::ReceiveFailure { detail: "stream reset".to_string() })
    );
}

#[test]
fn publish_topics_may_be_empty() {
    let (session, events, outcome) = ps_pub(vec![], vec![5], vec![], StreamEnd::EndOfStream);
    assert!(events.is_empty());
    assert_eq!(outcome, Ok(()));
    assert_eq!(
        session.request,
        Request::Publish { topics: vec![], payload: vec![5] }
    );
}

#[test]
fn session_sends_exactly_once() {
    let mut session = Session::open(Request::Subscribe { topics: topic_a() });
    assert!(!session.sent);
    assert_eq!(session.state, SessionState::Open);
    session.mark_sent();
    assert!(session.sent);
    assert_eq!(session.state, SessionState::HalfClosed);
    let (closed, _, _) = ps_sub(topic_a(), vec![], StreamEnd::EndOfStream);
    assert!(closed.sent);
    assert_eq!(closed.state, SessionState::Closed);
}

#[test]
fn session_lifecycle_half_closed_to_draining() {
    let mut session = Session::open(Request::ListPeers { topics: topic_a() });
    session.mark_sent();
    let events = session
        .on_frame(ResponseFrame::PeerList { peers: vec![Peer { id: vec![1] }] })
        .unwrap();
    assert_eq!(events, vec![PubSubEvent::PeerDiscovered(Peer { id: vec![1] })]);
    assert_eq!(session.state, SessionState::Draining);
    session.on_end_of_stream();
    assert_eq!(session.state, SessionState::Closed);
    assert!(session.is_closed());
}

#[test]
fn erroneous_frame_closes_session() {
    let mut session = Session::open(Request::Publish { topics: vec![], payload: vec![1] });
    session.mark_sent();
    let err = session
        .on_frame(ResponseFrame::PublishAck { kind: RequestKind::ListPeers })
        .unwrap_err();
    assert_eq!(err, StreamError::ProtocolMismatch { echoed: RequestKind::ListPeers });
    assert!(session.is_closed());
}

#[test]
fn cancel_closes_from_any_state() {
    let mut open_session = Session::open(Request::Subscribe { topics: topic_a() });
    open_session.cancel();
    assert!(open_session.is_closed());
    assert!(!open_session.sent);

    let mut draining = Session::open(Request::Subscribe { topics: topic_a() });
    draining.mark_sent();
    draining.cancel();
    assert!(draining.is_closed());
    assert!(draining.sent);
}

#[test]
fn send_failure_is_fatal() {
    let mut session = Session::open(Request::Subscribe { topics: topic_a() });
    let err = session.on_send_failure("flush refused".to_string());
    assert_eq!(err, StreamError::SendFailure { detail: "flush refused".to_string() });
    assert!(session.is_closed());
}

#[test]
fn receive_failure_carries_detail() {
    let mut session = Session::open(Request::Subscribe { topics: topic_a() });
    session.mark_sent();
    let err = session.on_receive_failure("connection dropped".to_string());
    assert_eq!(
        err,
        StreamError::ReceiveFailure { detail: "connection dropped".to_string() }
    );
    assert!(session.is_closed());
}

#[test]
fn open_failure_is_transport_unavailable() {
    let err = open_failure("no route to service".to_string());
    assert_eq!(
        err,
        StreamError::TransportUnavailable { detail: "no route to service".to_string() }
    );
}

#[test]
fn run_session_on_open_session() {
    let mut session = Session::open(Request::Subscribe { topics: topic_a() });
    let replies = vec![ResponseFrame::MessageBatch { messages: vec![sample_msg()] }];
    let (events, outcome) = run_session(&mut session, replies, StreamEnd::EndOfStream);
    assert_eq!(events, vec![PubSubEvent::Message(sample_msg())]);
    assert_eq!(outcome, Ok(()));
    assert!(session.sent);
    assert!(session.is_closed());
}
