use pinaivu_node::cipher::{seal, CipherError};
use pinaivu_node::context::fetch::{
    after_context, after_row, AfterContext, AfterRow, LoadError, PendingHistory, RECENT_FACTS_LIMIT,
};
use pinaivu_node::context::persist::{
    commit_plan, encrypt_history, extend_history, new_turn_id, updated_blob, CommitInput, SessionWrite,
};
use pinaivu_node::context::{Message, SessionBlob};

fn msg(role: &str, content: &str) -> Message {
    Message { role: role.into(), content: content.into() }
}

fn pending() -> PendingHistory {
    PendingHistory { blob_id: "b1".into(), user_facts: vec!["f".into()], summary: Some("s".into()) }
}

fn input(existed: bool) -> CommitInput<'static> {
    CommitInput {
        session_id: 0x0123456789abcdef0123456789abcdef,
        request_id: 0x00112233445566778899aabbccddeeff,
        user_address: "user",
        model_id: "llama3",
        node_peer_id: "peer",
        new_user_message: "q",
        assistant_reply: "a",
        input_tokens: u32::MAX,
        output_tokens: 2,
        latency_ms: 0x8000_0000,
        cost_nanox: u64::MAX,
        prior_messages: vec![],
        prev_blob_id: Some("b0".into()),
        session_existed: existed,
    }
}

#[test]
fn session_without_a_row_is_new() {
    match after_row(None) {
        AfterRow::Done(s) => {
            assert!(!s.existed);
            assert_eq!(s.prev_blob_id, None);
            assert!(s.context.user_facts.is_empty());
            assert_eq!(s.context.summary, None);
            assert!(s.context.recent_messages.is_empty());
        }
        AfterRow::ReadContext { .. } => panic!("there is no row"),
    }
}

#[test]
fn session_without_a_blob_has_no_messages() {
    assert!(matches!(after_row(Some(None)), AfterRow::ReadContext { prev_blob_id: None }));
    match after_context(None, vec!["f".into()], Some("s".into())) {
        AfterContext::Done(s) => {
            assert!(s.existed);
            assert_eq!(s.prev_blob_id, None);
            assert_eq!(s.context.user_facts, vec!["f".to_string()]);
            assert_eq!(s.context.summary.as_deref(), Some("s"));
            assert!(s.context.recent_messages.is_empty());
        }
        AfterContext::FetchBlob(_) => panic!("there is no blob"),
    }
}

#[test]
fn session_with_a_blob_is_completed_by_it() {
    assert!(matches!(
        after_row(Some(Some("b1".into()))),
        AfterRow::ReadContext { prev_blob_id: Some(id) } if id == "b1"
    ));
    match after_context(Some("b1".into()), vec!["f".into()], None) {
        AfterContext::FetchBlob(p) => {
            assert_eq!(p.blob_id, "b1");
            let s = p.finish(vec![msg("user", "hi")]);
            assert!(s.existed);
            assert_eq!(s.prev_blob_id.as_deref(), Some("b1"));
            assert_eq!(s.context.user_facts, vec!["f".to_string()]);
            assert_eq!(s.context.summary, None);
            assert_eq!(s.context.recent_messages[0].content, "hi");
        }
        AfterContext::Done(_) => panic!("the blob is still to be read"),
    }
}

#[test]
fn missing_blob_is_an_error() {
    let e = pending().decrypt(&[1u8; 32], None).unwrap_err();
    assert!(matches!(&e, LoadError::BlobMissing { blob_id } if blob_id == "b1"));
    assert_eq!(e.message(), "walrus blob b1 missing");
}

#[test]
fn blob_under_another_key_is_an_error() {
    let blob = seal(&[1u8; 32], b"x");
    let e = pending().decrypt(&[2u8; 32], Some(blob)).unwrap_err();
    assert!(matches!(e, LoadError::Decrypt(CipherError::AuthFailed)));
    assert_eq!(
        e.message(),
        "decrypt session blob: AEAD authentication failed (wrong key or tampered ciphertext)"
    );
    let e = pending().decrypt(&[2u8; 32], Some(vec![0; 3])).unwrap_err();
    assert_eq!(e.message(), "decrypt session blob: ciphertext too short to contain a nonce");
    assert!(pending().decrypted(Ok(vec![1])).is_ok());
}

#[test]
fn stored_history_is_loaded_under_the_same_key() {
    let key = [3u8; 32];
    let blob = encrypt_history(&key, b"encoded conversation");
    assert_ne!(blob, b"encoded conversation");
    assert_eq!(pending().decrypt(&key, Some(blob)).unwrap(), b"encoded conversation");
}

#[test]
fn history_grows_by_question_and_answer() {
    let all = extend_history(vec![msg("user", "old")], "q", "a");
    let pairs: Vec<(&str, &str)> = all.iter().map(|m| (m.role.as_str(), m.content.as_str())).collect();
    assert_eq!(pairs, vec![("user", "old"), ("user", "q"), ("assistant", "a")]);
}

#[test]
fn blob_has_the_current_version() {
    let blob = updated_blob(vec![], "q", "a");
    assert_eq!(blob.version, 1);
    assert_eq!(SessionBlob::CURRENT_VERSION, 1);
    assert_eq!(blob.messages.len(), 2);
    assert_eq!(SessionBlob::new(vec![]).version, 1);
    assert_eq!(RECENT_FACTS_LIMIT, 50);
}

#[test]
fn first_turn_inserts_the_session() {
    let plan = commit_plan(&input(false), "b1", 77);
    match plan.session {
        SessionWrite::Insert { session_id, user_address, model_id, walrus_blob_id, total_tokens, cost_nanox } => {
            assert_eq!(session_id, 0x0123456789abcdef0123456789abcdef);
            assert_eq!(user_address, "user");
            assert_eq!(model_id, "llama3");
            assert_eq!(walrus_blob_id, "b1");
            assert_eq!(total_tokens, 4_294_967_297);
            assert_eq!(cost_nanox, u64::MAX as i64);
        }
        SessionWrite::Update { .. } => panic!("there is no row to update"),
    }
    assert_eq!(plan.warm.node_peer_id, "peer");
    assert_eq!(plan.warm.session_id, 0x0123456789abcdef0123456789abcdef);
}

#[test]
fn later_turns_update_the_session_and_point_back() {
    match commit_plan(&input(true), "b1", 77).session {
        SessionWrite::Update { session_id, walrus_blob_id, prev_blob_id, total_tokens, cost_nanox } => {
            assert_eq!(session_id, 0x0123456789abcdef0123456789abcdef);
            assert_eq!(walrus_blob_id, "b1");
            assert_eq!(prev_blob_id.as_deref(), Some("b0"));
            assert_eq!(total_tokens, 4_294_967_297);
            assert_eq!(cost_nanox, -1);
        }
        SessionWrite::Insert { .. } => panic!("there is a row already"),
    }
}

#[test]
fn turn_row_keeps_the_bits_of_its_numbers() {
    let row = commit_plan(&input(true), "b1", 77).turn;
    assert_eq!(row.turn_id, 77);
    assert_eq!(row.session_id, 0x0123456789abcdef0123456789abcdef);
    assert_eq!(row.user_address, "user");
    assert_eq!(row.request_id, "00112233-4455-6677-8899-aabbccddeeff");
    assert_eq!(row.node_peer_id, "peer");
    assert_eq!(row.input_tokens, u32::MAX as i32);
    assert_eq!(row.output_tokens, 2);
    assert_eq!(row.latency_ms, i32::MIN);
    assert_eq!(row.cost_nanox, -1);
}

#[test]
fn turn_ids_are_random_identifiers() {
    let a = uuid::Uuid::from_u128(new_turn_id());
    let b = uuid::Uuid::from_u128(new_turn_id());
    assert_ne!(a, b);
    assert_eq!(a.get_version_num(), 4);
    assert_eq!(a.get_variant(), uuid::Variant::RFC4122);
}
