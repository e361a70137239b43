use pinaivu_node::bidder::{BidConfig, InferenceRequest};
use pinaivu_node::completion::CompletionAck;
use pinaivu_node::http::{DispatchToken, ErrorResponse, InferenceResp, SessionKeyError};
use pinaivu_node::inflight::Inflight;
use pinaivu_node::mesh::{
    coordinator_peer, dispatch_reply, peer_id_from_multiaddr, run_dispatch, take_dispatch, AckOutcome,
    Command, EventLoop, InferenceDispatch, MeshAction, MeshEvent, Node, Protocol,
};

fn node() -> Node {
    Node {
        bids: BidConfig {
            model: "llama3".into(),
            node_peer_id: "me".into(),
            price_per_1k_nanox: 50,
            latency_ms: 120,
            reputation_percent: 75,
            http_endpoint: "http://me".into(),
            payout_address: "0x1".into(),
        },
        coordinator: "coordinator".into(),
        requests_topic: "inference/any".into(),
    }
}

fn dispatch(session_key: &str) -> InferenceDispatch {
    InferenceDispatch {
        dispatch_token: DispatchToken {
            request_id: 1,
            session_id: 2,
            client_pubkey: [3; 32],
            coordinator_pubkey: [4; 32],
        },
        session_key: session_key.into(),
        new_user_message: "hi".into(),
        memwal_context: Some("m".into()),
    }
}

fn ack(request_id: u128) -> CompletionAck {
    CompletionAck {
        request_id,
        proofs: vec![],
        aggregated_output_hash: [0; 32],
        primary_pubkey: [0; 32],
        signature: vec![],
    }
}

fn gossip(topic: &str, request: Option<(u128, &str)>) -> MeshEvent {
    MeshEvent::Gossip {
        topic: topic.into(),
        request: request.map(|(request_id, model)| InferenceRequest { request_id, model: model.into() }),
    }
}

#[test]
fn coordinator_address_must_name_a_peer() {
    let direct = [Protocol::Other, Protocol::Other, Protocol::P2p("c".into())];
    assert_eq!(peer_id_from_multiaddr(&direct).as_deref(), Some("c"));
    assert_eq!(coordinator_peer(&direct), Ok("c".into()));
    // Through a relay the coordinator still stands at the end.
    let relayed = [
        Protocol::Other,
        Protocol::Other,
        Protocol::P2p("relay".into()),
        Protocol::Other,
        Protocol::P2p("c".into()),
    ];
    assert_eq!(peer_id_from_multiaddr(&relayed).as_deref(), Some("c"));
    assert_eq!(coordinator_peer(&relayed), Ok("c".into()));
    assert_eq!(peer_id_from_multiaddr(&relayed[..4]), None);
    assert_eq!(peer_id_from_multiaddr(&[Protocol::Other]), None);
    assert_eq!(
        coordinator_peer(&[]),
        Err("coordinator_addr must end with /p2p/<peer_id>".into())
    );
}

#[test]
fn announces_three_seconds_after_the_coordinator() {
    let (n, mut b, mut l) = (node(), Inflight::new(), EventLoop::new());
    assert!(matches!(l.step(&n, &mut b, MeshEvent::Wake { now: 0 }), MeshAction::Nothing));
    l.step(&n, &mut b, MeshEvent::Connected { peer: "stranger".into(), now: 100 });
    assert!(matches!(l.step(&n, &mut b, MeshEvent::Wake { now: 9_000 }), MeshAction::Nothing));
    l.step(&n, &mut b, MeshEvent::Connected { peer: "coordinator".into(), now: 10_000 });
    assert!(matches!(l.step(&n, &mut b, MeshEvent::Wake { now: 12_999 }), MeshAction::Nothing));
    assert!(!l.announced());
    match l.step(&n, &mut b, MeshEvent::Wake { now: 13_000 }) {
        MeshAction::Announce(c) => {
            assert_eq!(c.peer_id, "me");
            assert_eq!(c.models, vec!["llama3".to_string()]);
        }
        _ => panic!("it is time to announce"),
    }
    // Once only for one connection.
    assert!(matches!(l.step(&n, &mut b, MeshEvent::Wake { now: 14_000 }), MeshAction::Nothing));
    match l.step(&n, &mut b, MeshEvent::Announced { published: true }) {
        MeshAction::WarmUp(bid) => assert_eq!((bid.request_id, bid.latency_ms), (0, 0)),
        _ => panic!("the topic for bids is to be readied"),
    }
    assert!(l.announced());
    // An announced node does not start over.
    l.step(&n, &mut b, MeshEvent::Connected { peer: "coordinator".into(), now: 20_000 });
    assert!(matches!(l.step(&n, &mut b, MeshEvent::Wake { now: 30_000 }), MeshAction::Nothing));
    assert!(!b.contains(&0));
}

#[test]
fn failed_announcement_waits_for_the_next_connection() {
    let (n, mut b, mut l) = (node(), Inflight::new(), EventLoop::new());
    l.step(&n, &mut b, MeshEvent::Connected { peer: "coordinator".into(), now: 0 });
    assert!(matches!(l.step(&n, &mut b, MeshEvent::Wake { now: 3_000 }), MeshAction::Announce(_)));
    assert!(matches!(l.step(&n, &mut b, MeshEvent::Announced { published: false }), MeshAction::Nothing));
    assert!(!l.announced());
    assert!(matches!(l.step(&n, &mut b, MeshEvent::Tick), MeshAction::Nothing));
    l.step(&n, &mut b, MeshEvent::Connected { peer: "coordinator".into(), now: 5_000 });
    assert!(matches!(l.step(&n, &mut b, MeshEvent::Wake { now: 8_000 }), MeshAction::Announce(_)));
}

#[test]
fn announced_node_announces_at_every_tick() {
    let (n, mut b, mut l) = (node(), Inflight::new(), EventLoop::new());
    l.step(&n, &mut b, MeshEvent::Announced { published: true });
    for _ in 0..3 {
        assert!(matches!(l.step(&n, &mut b, MeshEvent::Tick), MeshAction::Reannounce(c) if c.max_concurrent_jobs == 4));
    }
    l.step(&n, &mut b, MeshEvent::Announced { published: false });
    assert!(l.announced());
}

#[test]
fn published_bids_are_recorded() {
    let (n, mut b, mut l) = (node(), Inflight::new(), EventLoop::new());
    match l.step(&n, &mut b, gossip("inference/any", Some((7, "llama3")))) {
        MeshAction::Bid(bid) => {
            assert_eq!((bid.request_id, bid.price_per_1k), (7, 50));
            assert_eq!((bid.latency_ms, bid.reputation_percent), (120, 75));
        }
        _ => panic!("a bid is to be published"),
    }
    assert!(b.contains(&7));
}

#[test]
fn other_messages_get_no_bid() {
    let (n, mut b, mut l) = (node(), Inflight::new(), EventLoop::new());
    assert!(matches!(l.step(&n, &mut b, gossip("bids", Some((7, "llama3")))), MeshAction::Nothing));
    assert!(matches!(l.step(&n, &mut b, gossip("inference/any", Some((8, "qwen")))), MeshAction::Nothing));
    assert!(matches!(l.step(&n, &mut b, gossip("inference/any", None)), MeshAction::Nothing));
    assert!(matches!(l.step(&n, &mut b, MeshEvent::Other), MeshAction::Nothing));
    assert!(!b.contains(&7) && !b.contains(&8));
}

#[test]
fn acknowledgements_are_followed_to_their_outcome() {
    let (n, mut b, mut l) = (node(), Inflight::new(), EventLoop::new());
    let action = l.step(&n, &mut b, MeshEvent::Asked(Command::SendCompletionAck(ack(70))));
    assert!(matches!(action, MeshAction::SendAck(a) if a.request_id == 70));
    l.step(&n, &mut b, MeshEvent::AckSent { ack: 1, request_id: 70 });
    l.step(&n, &mut b, MeshEvent::AckSent { ack: 2, request_id: 71 });
    l.step(&n, &mut b, MeshEvent::AckSent { ack: 3, request_id: 72 });
    let action = l.step(&n, &mut b, MeshEvent::AckAnswered { ack: 2, accepted: true, reason: None });
    assert!(matches!(action, MeshAction::Report(AckOutcome::Accepted { request_id: Some(71) })));
    let action = l.step(&n, &mut b, MeshEvent::AckAnswered { ack: 1, accepted: false, reason: Some("late".into()) });
    assert!(matches!(
        action,
        MeshAction::Report(AckOutcome::Rejected { request_id: Some(70), reason: Some(r) }) if r == "late"
    ));
    let action = l.step(&n, &mut b, MeshEvent::AckFailed { ack: 3 });
    assert!(matches!(action, MeshAction::Report(AckOutcome::Undelivered { request_id: Some(72) })));
    // What is settled is known no more.
    let action = l.step(&n, &mut b, MeshEvent::AckAnswered { ack: 2, accepted: true, reason: None });
    assert!(matches!(action, MeshAction::Report(AckOutcome::Accepted { request_id: None })));
}

#[test]
fn dispatches_are_run_and_replies_sent() {
    let (n, mut b, mut l) = (node(), Inflight::new(), EventLoop::new());
    let action = l.step(&n, &mut b, MeshEvent::Dispatched { channel: 5, dispatch: dispatch("") });
    assert!(matches!(action, MeshAction::Run { channel: 5, dispatch } if dispatch.new_user_message == "hi"));
    let reply = dispatch_reply(1, 2, Err(ErrorResponse::internal("no".into())));
    let action = l.step(&n, &mut b, MeshEvent::Asked(Command::SendInferenceReply { channel: 5, reply }));
    assert!(matches!(action, MeshAction::SendReply { channel: 5, reply } if reply.error.as_deref() == Some("no")));
}

#[test]
fn loop_ends_when_commands_do() {
    let (n, mut b, mut l) = (node(), Inflight::new(), EventLoop::new());
    assert!(matches!(l.step(&n, &mut b, MeshEvent::CommandsClosed), MeshAction::Stop));
}

#[test]
fn dispatch_becomes_a_turn() {
    match run_dispatch(dispatch("BwcHBwcHBwcHBwcHBwcHBwcHBwcHBwcHBwcHBwcHBwc=")) {
        Ok(req) => {
            assert_eq!(req.session_key, Some([7u8; 32]));
            assert_eq!(req.session_id, None);
            assert_eq!(req.new_user_message, "hi");
            assert_eq!(req.memwal_context.as_deref(), Some("m"));
            assert_eq!(req.dispatch_token.request_id, 1);
            assert_eq!(req.dispatch_token.client_pubkey, [3; 32]);
        }
        Err(_) => panic!("the key is good"),
    }
    assert!(matches!(run_dispatch(dispatch("")), Ok(req) if req.session_key.is_none()));
}

#[test]
fn dispatch_with_a_bad_key_fails_at_once() {
    for (key, message) in [
        ("c2hvcnQ=", "session_key must decode to 32 bytes"),
        ("!!!!", "session_key not valid base64: Invalid symbol 33, offset 0."),
    ] {
        match run_dispatch(dispatch(key)) {
            Ok(_) => panic!("the key is bad"),
            Err(reply) => {
                assert_eq!((reply.request_id, reply.session_id), (1, 2));
                assert_eq!(reply.content, "");
                assert_eq!((reply.input_tokens, reply.output_tokens, reply.latency_ms), (0, 0, 0));
                assert_eq!(reply.error.as_deref(), Some(message));
            }
        }
    }
    match take_dispatch(dispatch("ignored"), Err(SessionKeyError::NotBase64("why".into()))) {
        Err(reply) => assert_eq!(reply.error.as_deref(), Some("session_key not valid base64: why")),
        Ok(_) => panic!("the key is bad"),
    }
}

#[test]
fn replies_carry_the_answer_or_the_error() {
    let done = dispatch_reply(
        1,
        2,
        Ok(InferenceResp {
            request_id: 1,
            session_id: 2,
            content: "c".into(),
            input_tokens: 3,
            output_tokens: 4,
            latency_ms: 5,
        }),
    );
    assert_eq!((done.request_id, done.session_id), (1, 2));
    assert_eq!(done.content, "c");
    assert_eq!((done.input_tokens, done.output_tokens, done.latency_ms), (3, 4, 5));
    assert_eq!(done.error, None);
    let refused = dispatch_reply(1, 2, Err(ErrorResponse::bad_request("no matching bid for this request_id".into())));
    assert_eq!((refused.request_id, refused.session_id), (1, 2));
    assert_eq!(refused.content, "");
    assert_eq!(refused.error.as_deref(), Some("no matching bid for this request_id"));
}
