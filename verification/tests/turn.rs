use pinaivu_node::context::fetch::LoadedSession;
use pinaivu_node::context::{Message, SessionContext};
use pinaivu_node::http::{
    commit_input, decode_session_key, deserialize, key_of_decoded, start, DispatchToken, InferenceReq,
    Job, JobEvent, SessionKeyError, State,
};
use pinaivu_node::inflight::Inflight;
use pinaivu_node::ollama::OllamaReply;

fn cfg(stateful: bool) -> State {
    State {
        ollama_url: "http://localhost:11434".into(),
        model: "llama3".into(),
        node_peer_id: "peer".into(),
        price_per_1k_nanox: 50,
        coord_pubkey: [6u8; 32],
        stateful,
    }
}

fn req(key: Option<[u8; 32]>) -> InferenceReq {
    InferenceReq {
        new_user_message: "what is 1+1?".into(),
        dispatch_token: DispatchToken {
            request_id: 1,
            session_id: 2,
            client_pubkey: [0x1f; 32],
            coordinator_pubkey: [6u8; 32],
        },
        session_id: Some(2),
        session_key: key,
        memwal_context: None,
    }
}

fn bids() -> Inflight {
    let mut b = Inflight::new();
    b.record_bid(1);
    b
}

fn reply() -> OllamaReply {
    OllamaReply { content: "2".into(), prompt_tokens: 20, completion_tokens: 1, latency_ms: 350 }
}

fn session() -> LoadedSession {
    LoadedSession {
        context: SessionContext {
            user_facts: vec!["likes sums".into()],
            summary: None,
            recent_messages: vec![Message { role: "user".into(), content: "hello".into() }],
        },
        prev_blob_id: Some("b0".into()),
        existed: true,
    }
}

fn refusal(job: Job) -> (u16, String) {
    match job {
        Job::Refused { error, key_left } => {
            // Nothing is left of the key, if there was one.
            assert!(key_left.is_none() || key_left == Some([0u8; 32]));
            (error.status, error.message)
        }
        _ => panic!("not refused"),
    }
}

#[test]
fn foreign_tokens_are_unauthorized() {
    let mut r = req(None);
    r.dispatch_token.coordinator_pubkey[31] = 0;
    let job = start(&cfg(false), r);
    // Nothing that is reported later brings it back.
    let job = job.step(&cfg(false), &bids(), JobEvent::Verified(Ok(())));
    let job = job.step(&cfg(false), &bids(), JobEvent::Answered(Ok(reply())));
    assert_eq!(refusal(job), (401, "dispatch token signed by unknown coordinator".into()));
}

#[test]
fn bad_signatures_are_unauthorized() {
    let job = start(&cfg(false), req(None)).step(&cfg(false), &bids(), JobEvent::Verified(Err("bad signature".into())));
    assert_eq!(refusal(job), (401, "dispatch token verify failed: bad signature".into()));
}

#[test]
fn session_must_match_the_token() {
    let mut r = req(None);
    r.session_id = Some(3);
    let job = start(&cfg(false), r).step(&cfg(false), &bids(), JobEvent::Verified(Ok(())));
    assert_eq!(refusal(job), (400, "session_id does not match dispatch_token.session_id".into()));
}

#[test]
fn request_without_a_bid_is_refused() {
    let job = start(&cfg(false), req(None)).step(&cfg(false), &Inflight::new(), JobEvent::Verified(Ok(())));
    assert_eq!(refusal(job), (400, "no matching bid for this request_id".into()));
}

#[test]
fn checks_come_in_order() {
    let mut r = req(None);
    r.session_id = Some(3);
    let job = start(&cfg(true), r).step(&cfg(true), &Inflight::new(), JobEvent::Verified(Err("e".into())));
    assert_eq!(refusal(job).0, 401);
    let mut r = req(None);
    r.session_id = Some(3);
    let job = start(&cfg(true), r).step(&cfg(true), &Inflight::new(), JobEvent::Verified(Ok(())));
    assert_eq!(refusal(job).1, "session_id does not match dispatch_token.session_id");
    let job = start(&cfg(true), req(None)).step(&cfg(true), &Inflight::new(), JobEvent::Verified(Ok(())));
    assert_eq!(refusal(job).1, "no matching bid for this request_id");
}

#[test]
fn cloned_state_serves_alike() {
    let c = cfg(true).clone();
    assert_eq!(c.ollama_url, "http://localhost:11434");
    assert_eq!((c.model.as_str(), c.node_peer_id.as_str()), ("llama3", "peer"));
    assert_eq!((c.price_per_1k_nanox, c.coord_pubkey, c.stateful), (50, [6u8; 32], true));
}

#[test]
fn stateful_turns_need_a_key() {
    let job = start(&cfg(true), req(None)).step(&cfg(true), &bids(), JobEvent::Verified(Ok(())));
    assert_eq!(refusal(job), (400, "session_key is required for stateful turns".into()));
}

#[test]
fn failed_loading_is_internal() {
    let c = cfg(true);
    let job = start(&c, req(Some([1; 32]))).step(&c, &bids(), JobEvent::Verified(Ok(())));
    assert!(matches!(job, Job::LoadContext { .. }));
    let job = job.step(&c, &bids(), JobEvent::Loaded(Err("query sessions row".into())));
    assert_eq!(refusal(job), (500, "context fetch: query sessions row".into()));
}

#[test]
fn failed_inference_is_internal() {
    let c = cfg(false);
    let job = start(&c, req(None)).step(&c, &bids(), JobEvent::Verified(Ok(())));
    let job = job.step(&c, &bids(), JobEvent::Answered(Err("ollama non-2xx".into())));
    assert_eq!(refusal(job), (500, "ollama: ollama non-2xx".into()));
}

#[test]
fn stateless_turn_in_full() {
    let c = cfg(false);
    let mut r = req(Some([1; 32]));
    r.memwal_context = Some("memory".into());
    let job = start(&c, r).step(&c, &bids(), JobEvent::Verified(Ok(())));
    match &job {
        Job::Chat { loaded, assembled, .. } => {
            assert!(loaded.is_none());
            assert!(assembled.system_prompt.starts_with("memory\n\nYou are"));
            assert_eq!(assembled.messages.len(), 1);
            assert_eq!(assembled.messages[0].content, "what is 1+1?");
        }
        _ => panic!("the model is to be asked"),
    }
    match job.step(&c, &bids(), JobEvent::Answered(Ok(reply()))) {
        Job::Done { response, proof, key_left } => {
            assert_eq!(key_left, Some([0u8; 32]));
            assert_eq!((response.request_id, response.session_id), (1, 2));
            assert_eq!(response.content, "2");
            assert_eq!((response.input_tokens, response.output_tokens, response.latency_ms), (20, 1, 350));
            assert_eq!((proof.request_id, proof.session_id), (1, 2));
            assert_eq!(proof.client_address, "1f".repeat(32));
            assert_eq!(proof.model_id, "llama3");
            assert_eq!(proof.prompt, "what is 1+1?");
            assert_eq!(proof.output, "2");
            assert_eq!((proof.input_tokens, proof.output_tokens, proof.latency_ms), (20, 1, 350));
            assert_eq!(proof.price_paid_nanox, 50);
            assert_eq!(proof.node_peer_id, "peer");
        }
        _ => panic!("the turn is done"),
    }
}

#[test]
fn stateful_turn_in_full() {
    for saved in [true, false] {
        let c = cfg(true);
        let job = start(&c, req(Some([1; 32]))).step(&c, &bids(), JobEvent::Verified(Ok(())));
        match &job {
            Job::LoadContext { turn } => {
                assert_eq!(turn.session_key, Some([1; 32]));
                assert_eq!(turn.client_address, "1f".repeat(32));
            }
            _ => panic!("the session is to be loaded"),
        }
        let job = job.step(&c, &bids(), JobEvent::Loaded(Ok(session())));
        match &job {
            Job::Chat { assembled, .. } => {
                assert!(assembled.system_prompt.contains("- likes sums\n"));
                let contents: Vec<&str> = assembled.messages.iter().map(|m| m.content.as_str()).collect();
                assert_eq!(contents, vec!["hello", "what is 1+1?"]);
            }
            _ => panic!("the model is to be asked"),
        }
        let job = job.step(&c, &bids(), JobEvent::Answered(Ok(reply())));
        match &job {
            Job::Persist { turn, session, reply } => {
                assert_eq!(turn.session_key, Some([1; 32]));
                let input = commit_input(&c, turn, session, reply);
                assert_eq!((input.session_id, input.request_id), (2, 1));
                assert_eq!(input.user_address, "1f".repeat(32));
                assert_eq!((input.model_id, input.node_peer_id), ("llama3", "peer"));
                assert_eq!((input.new_user_message, input.assistant_reply), ("what is 1+1?", "2"));
                assert_eq!((input.input_tokens, input.output_tokens, input.latency_ms), (20, 1, 350));
                assert_eq!(input.cost_nanox, 50);
                assert_eq!(input.prior_messages.len(), 1);
                assert_eq!(input.prior_messages[0].content, "hello");
                assert_eq!(input.prev_blob_id.as_deref(), Some("b0"));
                assert!(input.session_existed);
            }
            _ => panic!("the turn is to be written back"),
        }
        // A turn that could not be written back is answered all the same.
        let job = job.step(&c, &bids(), JobEvent::Persisted(saved));
        assert!(matches!(&job, Job::Done { response, .. } if response.content == "2"));
        // And it stays answered.
        let job = job.step(&c, &bids(), JobEvent::Answered(Err("late".into())));
        assert!(matches!(job, Job::Done { .. }));
    }
}

#[test]
fn keys_are_wiped_however_a_turn_ends() {
    let left = |job: Job| match job {
        Job::Refused { key_left, .. } | Job::Done { key_left, .. } => key_left,
        _ => panic!("the turn has not ended"),
    };
    let key = Some([0xABu8; 32]);
    let c = cfg(true);
    let mut foreign = req(key);
    foreign.dispatch_token.coordinator_pubkey = [0; 32];
    assert_eq!(left(start(&c, foreign)), Some([0u8; 32]));
    let unverified = start(&c, req(key)).step(&c, &bids(), JobEvent::Verified(Err("e".into())));
    assert_eq!(left(unverified), Some([0u8; 32]));
    let unknown = start(&c, req(key)).step(&c, &Inflight::new(), JobEvent::Verified(Ok(())));
    assert_eq!(left(unknown), Some([0u8; 32]));
    let unloaded = start(&c, req(key))
        .step(&c, &bids(), JobEvent::Verified(Ok(())))
        .step(&c, &bids(), JobEvent::Loaded(Err("e".into())));
    assert_eq!(left(unloaded), Some([0u8; 32]));
    let unanswered = start(&c, req(key))
        .step(&c, &bids(), JobEvent::Verified(Ok(())))
        .step(&c, &bids(), JobEvent::Loaded(Ok(session())))
        .step(&c, &bids(), JobEvent::Answered(Err("e".into())));
    assert_eq!(left(unanswered), Some([0u8; 32]));
    let done = start(&c, req(key))
        .step(&c, &bids(), JobEvent::Verified(Ok(())))
        .step(&c, &bids(), JobEvent::Loaded(Ok(session())))
        .step(&c, &bids(), JobEvent::Answered(Ok(reply())))
        .step(&c, &bids(), JobEvent::Persisted(true));
    assert_eq!(left(done), Some([0u8; 32]));
    let keyless = start(&c, req(None)).step(&c, &bids(), JobEvent::Verified(Ok(())));
    assert_eq!(left(keyless), None);
}

#[test]
fn events_out_of_turn_are_ignored() {
    let c = cfg(true);
    let job = start(&c, req(Some([1; 32])));
    let job = job.step(&c, &bids(), JobEvent::Answered(Ok(reply())));
    assert!(matches!(job, Job::VerifyToken { .. }));
    let job = job.step(&c, &bids(), JobEvent::Verified(Ok(())));
    let job = job.step(&c, &bids(), JobEvent::Persisted(true));
    assert!(matches!(job, Job::LoadContext { .. }));
}

#[test]
fn served_request_needs_a_new_bid() {
    let c = cfg(false);
    let mut b = bids();
    b.forget(&1);
    let job = start(&c, req(None)).step(&c, &b, JobEvent::Verified(Ok(())));
    assert_eq!(refusal(job).1, "no matching bid for this request_id");
}

#[test]
fn session_keys_are_read_from_base64() {
    assert!(matches!(decode_session_key("BwcHBwcHBwcHBwcHBwcHBwcHBwcHBwcHBwcHBwcHBwc="), Ok(k) if k == [7u8; 32]));
    assert!(matches!(deserialize(Some("BwcHBwcHBwcHBwcHBwcHBwcHBwcHBwcHBwcHBwcHBwc=")), Ok(Some(k)) if k == [7u8; 32]));
    assert!(matches!(deserialize(None), Ok(None)));
}

#[test]
fn bad_session_keys_are_named() {
    let short = decode_session_key("c2hvcnQ=").unwrap_err();
    assert!(matches!(short, SessionKeyError::WrongLength));
    assert_eq!(short.message(), "session_key must be 32 bytes");
    let long = decode_session_key("BwcHBwcHBwcHBwcHBwcHBwcHBwcHBwcHBwcHBwcHBwcH").unwrap_err();
    assert!(matches!(long, SessionKeyError::WrongLength));
    let empty = deserialize(Some("")).unwrap_err();
    assert!(matches!(empty, SessionKeyError::WrongLength));
    let garbage = decode_session_key("!!!!").unwrap_err();
    assert_eq!(garbage.message(), "Invalid symbol 33, offset 0.");
    let unpadded = decode_session_key("c2hvcnQ").unwrap_err();
    assert_eq!(unpadded.message(), "Invalid padding");
    assert_eq!(key_of_decoded(Err("why".into())).unwrap_err().message(), "why");
    assert_eq!(key_of_decoded(Ok(vec![9; 32])).unwrap(), [9u8; 32]);
}
