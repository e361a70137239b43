use pinaivu_node::completion::{build_completion_ack, build_proof, proof_timestamp, ProofInputs};
use pinaivu_node::ollama::{chat_messages, chat_url, reported_latency};
use pinaivu_node::context::assemble::Assembled;
use pinaivu_node::context::Message;

fn inputs() -> ProofInputs {
    ProofInputs {
        request_id: 11,
        session_id: 12,
        client_address: "01".repeat(32),
        model_id: "llama3".into(),
        prompt: "what is 1+1?".into(),
        output: "2".into(),
        input_tokens: 20,
        output_tokens: 1,
        latency_ms: 350,
        price_paid_nanox: 50,
        node_peer_id: "12D3KooW".into(),
    }
}

const PROMPT_HASH: &str = "0ab60986ffbd49a15615d4d462556819d332a56d4edffa0511aba8eb129c732e";
const OUTPUT_HASH: &str = "d4735e3a265e16eee03f59718b9b5d03019c07d8b6c51f90da3a666eec13ab35";

#[test]
fn proof_describes_the_job() {
    let p = build_proof(&inputs(), 1_700_000_000);
    assert_eq!(p.request_id, 11);
    assert_eq!(p.session_id, 12);
    assert_eq!(p.node_peer_id, "12D3KooW");
    assert_eq!(p.client_address, "01".repeat(32));
    assert_eq!(p.model_id, "llama3");
    assert_eq!((p.input_tokens, p.output_tokens, p.latency_ms), (20, 1, 350));
    assert_eq!(p.price_paid_nanox, 50);
    assert_eq!(p.timestamp, 1_700_000_000);
    assert_eq!(hex::encode(p.input_hash), PROMPT_HASH);
    assert_eq!(hex::encode(p.output_hash), OUTPUT_HASH);
    assert_eq!(p.settlement_id, "free");
    assert_eq!(p.escrow_tx_id, None);
    assert_eq!(p.node_pubkey, [0u8; 32]);
    assert!(p.signature.is_empty());
}

#[test]
fn ack_carries_the_signed_proof() {
    let mut p = build_proof(&inputs(), 0);
    p.node_pubkey = [5u8; 32];
    p.signature = vec![1, 2, 3];
    let ack = build_completion_ack(&inputs(), p);
    assert_eq!(ack.request_id, 11);
    assert_eq!(ack.proofs.len(), 1);
    assert_eq!(ack.proofs[0].node_pubkey, [5u8; 32]);
    assert_eq!(ack.proofs[0].signature, vec![1, 2, 3]);
    assert_eq!(ack.aggregated_output_hash, ack.proofs[0].output_hash);
    assert_eq!(ack.primary_pubkey, [0u8; 32]);
    assert!(ack.signature.is_empty());
}

#[test]
fn clock_before_the_epoch_counts_as_zero() {
    assert_eq!(proof_timestamp(Some(17)), 17);
    assert_eq!(proof_timestamp(None), 0);
}

#[test]
fn system_prompt_leads_the_chat() {
    let a = Assembled {
        messages: vec![
            Message { role: "assistant".into(), content: "one".into() },
            Message { role: "user".into(), content: "two".into() },
        ],
        system_prompt: "sys".into(),
    };
    let chat = chat_messages(&a);
    let pairs: Vec<(&str, &str)> = chat.iter().map(|m| (m.role, m.content)).collect();
    assert_eq!(pairs, vec![("system", "sys"), ("assistant", "one"), ("user", "two")]);
}

#[test]
fn chat_endpoint() {
    assert_eq!(chat_url("http://localhost:11434"), "http://localhost:11434/api/chat");
    assert_eq!(chat_url("http://localhost:11434//"), "http://localhost:11434/api/chat");
}

#[test]
fn latency_keeps_its_low_bits() {
    assert_eq!(reported_latency(350), 350);
    assert_eq!(reported_latency(u128::from(u32::MAX)), u32::MAX);
    assert_eq!(reported_latency(u128::from(u32::MAX) + 2), 1);
}
