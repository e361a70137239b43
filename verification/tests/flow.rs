use pinaivu_node::bidder::{BidConfig, InferenceRequest};
use pinaivu_node::context::assemble::{build, Budget};
use pinaivu_node::context::fetch::{after_context, after_row, AfterContext, AfterRow, LoadedSession};
use pinaivu_node::context::persist::{commit_plan, encrypt_history, updated_blob, SessionWrite};
use pinaivu_node::http::{
    commit_input, retire, start, DispatchToken, ErrorResponse, InferenceReq, InferenceResp, Job, JobEvent, State,
};
use pinaivu_node::inflight::Inflight;
use pinaivu_node::mesh::{
    dispatch_reply, run_dispatch, EventLoop, InferenceDispatch, MeshAction, MeshEvent, Node,
};
use pinaivu_node::ollama::OllamaReply;

const KEY: [u8; 32] = [7u8; 32];
const KEY_BASE64: &str = "BwcHBwcHBwcHBwcHBwcHBwcHBwcHBwcHBwcHBwcHBwc=";

fn cfg() -> State {
    State {
        ollama_url: "http://localhost:11434".into(),
        model: "llama3".into(),
        node_peer_id: "me".into(),
        price_per_1k_nanox: 50,
        coord_pubkey: [6u8; 32],
        stateful: true,
    }
}

fn token(request_id: u128) -> DispatchToken {
    DispatchToken { request_id, session_id: 2, client_pubkey: [3; 32], coordinator_pubkey: [6; 32] }
}

fn over_http(request_id: u128, message: &str) -> InferenceReq {
    InferenceReq {
        new_user_message: message.into(),
        dispatch_token: token(request_id),
        session_id: Some(2),
        session_key: Some(KEY),
        memwal_context: None,
    }
}

fn over_mesh(request_id: u128, message: &str) -> InferenceDispatch {
    InferenceDispatch {
        dispatch_token: token(request_id),
        session_key: KEY_BASE64.into(),
        new_user_message: message.into(),
        memwal_context: None,
    }
}

fn cold() -> LoadedSession {
    match after_row(None) {
        AfterRow::Done(s) => s,
        AfterRow::ReadContext { .. } => panic!("there is no row"),
    }
}

fn answer(content: &str) -> OllamaReply {
    OllamaReply { content: content.into(), prompt_tokens: 1, completion_tokens: 1, latency_ms: 1 }
}

/// Runs a turn to its end with everything on the outside going well.
fn run(c: &State, bids: &Inflight, req: InferenceReq) -> Result<InferenceResp, ErrorResponse> {
    let mut job = start(c, req);
    loop {
        let event = match &job {
            Job::VerifyToken { .. } => JobEvent::Verified(Ok(())),
            Job::LoadContext { .. } => JobEvent::Loaded(Ok(cold())),
            Job::Chat { .. } => JobEvent::Answered(Ok(answer("fine"))),
            Job::Persist { .. } => JobEvent::Persisted(true),
            Job::Done { .. } | Job::Refused { .. } => break,
        };
        job = job.step(c, bids, event);
    }
    match job {
        Job::Done { response, .. } => Ok(response),
        Job::Refused { error, .. } => Err(error),
        _ => panic!("the turn has ended"),
    }
}

#[test]
fn both_ways_in_give_the_same_answer() {
    let c = cfg();
    for known in [true, false] {
        let mut bids = Inflight::new();
        if known {
            bids.record_bid(1);
        }
        let http = run(&c, &bids, over_http(1, "how are you?"));
        let mesh = match run_dispatch(over_mesh(1, "how are you?")) {
            Ok(req) => dispatch_reply(1, 2, run(&c, &bids, req)),
            Err(_) => panic!("the key is good"),
        };
        assert_eq!((mesh.request_id, mesh.session_id), (1, 2));
        match http {
            Ok(response) => {
                assert!(known);
                assert_eq!(mesh.content, response.content);
                assert_eq!(mesh.error, None);
            }
            Err(error) => {
                assert!(!known);
                assert_eq!(mesh.content, "");
                assert_eq!(mesh.error, Some(error.message));
            }
        }
    }
}

#[test]
fn bid_request_is_served() {
    let node = Node {
        bids: BidConfig {
            model: "llama3".into(),
            node_peer_id: "me".into(),
            price_per_1k_nanox: 50,
            latency_ms: 300,
            reputation_percent: 90,
            http_endpoint: "http://me".into(),
            payout_address: "".into(),
        },
        coordinator: "coordinator".into(),
        requests_topic: "requests".into(),
    };
    let (c, mut bids, mut events) = (cfg(), Inflight::new(), EventLoop::new());
    assert!(run(&c, &bids, over_http(1, "hi")).is_err());
    let request = Some(InferenceRequest { request_id: 1, model: "llama3".into() });
    let action = events.step(&node, &mut bids, MeshEvent::Gossip { topic: "requests".into(), request });
    assert!(matches!(action, MeshAction::Bid(_)));
    assert_eq!(run(&c, &bids, over_http(1, "hi")).unwrap().content, "fine");
    assert!(run(&c, &bids, over_http(2, "hi")).is_err());
}

#[test]
fn served_token_is_not_served_again() {
    let c = State { stateful: false, ..cfg() };
    let mut bids = Inflight::new();
    bids.record_bid(1);
    bids.record_bid(2);
    let job = start(&c, over_http(1, "hi"))
        .step(&c, &bids, JobEvent::Verified(Ok(())))
        .step(&c, &bids, JobEvent::Answered(Ok(answer("fine"))));
    let proof = match job {
        Job::Done { response, proof, key_left } => {
            assert_eq!(key_left, Some([0u8; 32]));
            assert_eq!(proof.request_id, 1);
            assert_eq!(proof.prompt, "hi");
            assert_eq!(proof.output, response.content);
            proof
        }
        _ => panic!("the turn is done"),
    };
    retire(&mut bids, &proof);
    assert!(bids.contains(&2));
    let error = run(&c, &bids, over_http(1, "hi")).unwrap_err();
    assert_eq!((error.status, error.message.as_str()), (400, "no matching bid for this request_id"));
    // A new bid opens it again.
    bids.record_bid(1);
    assert!(run(&c, &bids, over_http(1, "hi")).is_ok());
}

#[test]
fn next_turn_remembers_this_one() {
    let c = cfg();
    let mut bids = Inflight::new();
    bids.record_bid(1);
    let job = start(&c, over_http(1, "my name is Ada"))
        .step(&c, &bids, JobEvent::Verified(Ok(())))
        .step(&c, &bids, JobEvent::Loaded(Ok(cold())))
        .step(&c, &bids, JobEvent::Answered(Ok(answer("hello Ada"))));
    let (stored, messages, blob_id) = match &job {
        Job::Persist { turn, session, reply } => {
            let input = commit_input(&c, turn, session, reply);
            let plan = commit_plan(&input, "b1", 9);
            assert!(matches!(&plan.session, SessionWrite::Insert { walrus_blob_id, .. } if walrus_blob_id == "b1"));
            let blob = updated_blob(input.prior_messages, input.new_user_message, input.assistant_reply);
            // The encoded form does not matter here, as long as it comes back.
            (encrypt_history(&KEY, b"encoded"), blob.messages, "b1".to_string())
        }
        _ => panic!("the turn is to be written back"),
    };
    let next = match after_context(Some(blob_id), vec![], None) {
        AfterContext::FetchBlob(p) => {
            assert_eq!(p.decrypt(&KEY, Some(stored)).unwrap(), b"encoded");
            p.finish(messages)
        }
        AfterContext::Done(_) => panic!("the blob is to be fetched"),
    };
    assert!(next.existed);
    let a = build(&next.context, "who am I?", Budget::for_model(&c.model));
    let sent: Vec<(&str, &str)> = a.messages.iter().map(|m| (m.role.as_str(), m.content.as_str())).collect();
    assert_eq!(sent, vec![("user", "my name is Ada"), ("assistant", "hello Ada"), ("user", "who am I?")]);
}
