//! The proof of a completed job, and the acknowledgement that carries it to the coordinator.
//!
//! Both are built here without their signatures. The node's key signs the proof before it goes
//! into the acknowledgement, and then the acknowledgement.

use crate::context::string_view;
use crate::encoding::{sha256, sha256_digest, SHA256_MAX_BYTES};
use vstd::prelude::*;
use vstd::utf8::encode_utf8;

verus! {

/// What there is to prove of a job.
pub struct ProofInputs {
    pub request_id: u128,
    pub session_id: u128,
    pub client_address: String,
    pub model_id: String,
    pub prompt: String,
    pub output: String,
    pub input_tokens: u32,
    pub output_tokens: u32,
    pub latency_ms: u32,
    pub price_paid_nanox: u64,
    pub node_peer_id: String,
}

#[verifier::ext_equal]
pub struct ProofInputsView {
    pub request_id: u128,
    pub session_id: u128,
    pub client_address: Seq<char>,
    pub model_id: Seq<char>,
    pub prompt: Seq<char>,
    pub output: Seq<char>,
    pub input_tokens: u32,
    pub output_tokens: u32,
    pub latency_ms: u32,
    pub price_paid_nanox: u64,
    pub node_peer_id: Seq<char>,
}

impl View for ProofInputs {
    type V = ProofInputsView;

    open spec fn view(&self) -> ProofInputsView {
        ProofInputsView {
            request_id: self.request_id,
            session_id: self.session_id,
            client_address: self.client_address@,
            model_id: self.model_id@,
            prompt: self.prompt@,
            output: self.output@,
            input_tokens: self.input_tokens,
            output_tokens: self.output_tokens,
            latency_ms: self.latency_ms,
            price_paid_nanox: self.price_paid_nanox,
            node_peer_id: self.node_peer_id@,
        }
    }
}

/// The proof that a job was done.
pub struct ProofOfInference {
    pub request_id: u128,
    pub session_id: u128,
    pub node_peer_id: String,
    pub client_address: String,
    pub model_id: String,
    pub input_tokens: u32,
    pub output_tokens: u32,
    pub latency_ms: u32,
    pub price_paid_nanox: u64,
    pub timestamp: u64,
    pub input_hash: [u8; 32],
    pub output_hash: [u8; 32],
    pub settlement_id: String,
    pub escrow_tx_id: Option<String>,
    pub node_pubkey: [u8; 32],
    pub signature: Vec<u8>,
}

#[verifier::ext_equal]
pub struct ProofView {
    pub request_id: u128,
    pub session_id: u128,
    pub node_peer_id: Seq<char>,
    pub client_address: Seq<char>,
    pub model_id: Seq<char>,
    pub input_tokens: u32,
    pub output_tokens: u32,
    pub latency_ms: u32,
    pub price_paid_nanox: u64,
    pub timestamp: u64,
    pub input_hash: Seq<u8>,
    pub output_hash: Seq<u8>,
    pub settlement_id: Seq<char>,
    pub escrow_tx_id: Option<Seq<char>>,
    pub node_pubkey: Seq<u8>,
    pub signature: Seq<u8>,
}

impl View for ProofOfInference {
    type V = ProofView;

    open spec fn view(&self) -> ProofView {
        ProofView {
            request_id: self.request_id,
            session_id: self.session_id,
            node_peer_id: self.node_peer_id@,
            client_address: self.client_address@,
            model_id: self.model_id@,
            input_tokens: self.input_tokens,
            output_tokens: self.output_tokens,
            latency_ms: self.latency_ms,
            price_paid_nanox: self.price_paid_nanox,
            timestamp: self.timestamp,
            input_hash: self.input_hash@,
            output_hash: self.output_hash@,
            settlement_id: self.settlement_id@,
            escrow_tx_id: string_view(self.escrow_tx_id),
            node_pubkey: self.node_pubkey@,
            signature: self.signature@,
        }
    }
}

/// The message that reports a job to the coordinator.
pub struct CompletionAck {
    pub request_id: u128,
    pub proofs: Vec<ProofOfInference>,
    pub aggregated_output_hash: [u8; 32],
    pub primary_pubkey: [u8; 32],
    pub signature: Vec<u8>,
}

#[verifier::ext_equal]
pub struct AckView {
    pub request_id: u128,
    pub proofs: Seq<ProofView>,
    pub aggregated_output_hash: Seq<u8>,
    pub primary_pubkey: Seq<u8>,
    pub signature: Seq<u8>,
}

impl View for CompletionAck {
    type V = AckView;

    open spec fn view(&self) -> AckView {
        AckView {
            request_id: self.request_id,
            proofs: Seq::new(self.proofs@.len(), |i: int| self.proofs@[i]@),
            aggregated_output_hash: self.aggregated_output_hash@,
            primary_pubkey: self.primary_pubkey@,
            signature: self.signature@,
        }
    }
}

/// A place for a key that signing fills in.
pub open spec fn blank_key() -> Seq<u8> {
    Seq::new(32, |i: int| 0u8)
}

/// The digest of a text's UTF-8 form.
pub open spec fn text_digest(s: Seq<char>) -> Seq<u8> {
    sha256_digest(encode_utf8(s))
}

/// The proof of a job, before it is signed.
pub open spec fn unsigned_proof(inputs: ProofInputsView, timestamp: u64) -> ProofView {
    ProofView {
        request_id: inputs.request_id,
        session_id: inputs.session_id,
        node_peer_id: inputs.node_peer_id,
        client_address: inputs.client_address,
        model_id: inputs.model_id,
        input_tokens: inputs.input_tokens,
        output_tokens: inputs.output_tokens,
        latency_ms: inputs.latency_ms,
        price_paid_nanox: inputs.price_paid_nanox,
        timestamp,
        input_hash: text_digest(inputs.prompt),
        output_hash: text_digest(inputs.output),
        settlement_id: "free"@,
        escrow_tx_id: None,
        node_pubkey: blank_key(),
        signature: Seq::empty(),
    }
}

/// The acknowledgement around a signed proof, before it is signed itself.
pub open spec fn unsigned_ack(inputs: ProofInputsView, proof: ProofView) -> AckView {
    AckView {
        request_id: inputs.request_id,
        proofs: seq![proof],
        aggregated_output_hash: text_digest(inputs.output),
        primary_pubkey: blank_key(),
        signature: Seq::empty(),
    }
}

/// Whether prompt and output are of a length that can be hashed.
pub open spec fn hashable(inputs: ProofInputsView) -> bool {
    encode_utf8(inputs.prompt).len() < SHA256_MAX_BYTES && encode_utf8(inputs.output).len()
        < SHA256_MAX_BYTES
}

/// The time of a proof: seconds since the epoch, or zero where the clock stands before it.
pub fn proof_timestamp(secs_since_epoch: Option<u64>) -> (r: u64)
    ensures
        r == (match secs_since_epoch {
            Some(s) => s,
            None => 0,
        }),
{
    match secs_since_epoch {
        Some(s) => s,
        None => 0,
    }
}

/// The proof of a job, to be signed.
pub fn build_proof(inputs: &ProofInputs, timestamp: u64) -> (r: ProofOfInference)
    requires
        hashable(inputs@),
    ensures
        r@ == unsigned_proof(inputs@, timestamp),
{
    let input_hash: [u8; 32] = sha256(inputs.prompt.as_str().as_bytes());
    let output_hash: [u8; 32] = sha256(inputs.output.as_str().as_bytes());
    let r = ProofOfInference {
        request_id: inputs.request_id,
        session_id: inputs.session_id,
        node_peer_id: inputs.node_peer_id.clone(),
        client_address: inputs.client_address.clone(),
        model_id: inputs.model_id.clone(),
        input_tokens: inputs.input_tokens,
        output_tokens: inputs.output_tokens,
        latency_ms: inputs.latency_ms,
        price_paid_nanox: inputs.price_paid_nanox,
        timestamp,
        input_hash,
        output_hash,
        settlement_id: String::from_str("free"),
        escrow_tx_id: None,
        node_pubkey: [0u8; 32],
        signature: Vec::new(),
    };
    assert(r@.node_pubkey =~= blank_key());
    assert(r@ =~= unsigned_proof(inputs@, timestamp));
    r
}

/// The acknowledgement of a job around its signed proof, to be signed in turn.
pub fn build_completion_ack(inputs: &ProofInputs, signed_proof: ProofOfInference) -> (r:
    CompletionAck)
    requires
        hashable(inputs@),
    ensures
        r@ == unsigned_ack(inputs@, signed_proof@),
{
    let output_hash: [u8; 32] = sha256(inputs.output.as_str().as_bytes());
    let mut proofs: Vec<ProofOfInference> = Vec::new();
    proofs.push(signed_proof);
    let r = CompletionAck {
        request_id: inputs.request_id,
        proofs,
        aggregated_output_hash: output_hash,
        primary_pubkey: [0u8; 32],
        signature: Vec::new(),
    };
    assert(r@.proofs =~= seq![signed_proof@]);
    assert(r@.primary_pubkey =~= blank_key());
    assert(r@ =~= unsigned_ack(inputs@, signed_proof@));
    r
}

/// An acknowledgement speaks of the job that its proof proves, by request and by output, for
/// every proof that signing changed only where signing may.
pub proof fn law_ack_matches_its_proof(
    inputs: ProofInputsView,
    timestamp: u64,
    pubkey: Seq<u8>,
    signature: Seq<u8>,
)
    ensures
        ({
            let signed = ProofView {
                node_pubkey: pubkey,
                signature,
                ..unsigned_proof(inputs, timestamp)
            };
            let ack = unsigned_ack(inputs, signed);
            &&& ack.proofs.len() == 1
            &&& ack.proofs[0].request_id == ack.request_id
            &&& ack.proofs[0].output_hash == ack.aggregated_output_hash
            &&& ack.proofs[0].signature == signature
        }),
{
}

/// A proof says of its job what the job was, field by field, and its digests are those of the
/// prompt and of the output. Key and signature are left to be filled in.
pub proof fn law_proofs_say_what_was_done(inputs: ProofInputsView, timestamp: u64)
    ensures
        ({
            let proved = unsigned_proof(inputs, timestamp);
            &&& proved.request_id == inputs.request_id
            &&& proved.session_id == inputs.session_id
            &&& proved.node_peer_id == inputs.node_peer_id
            &&& proved.client_address == inputs.client_address
            &&& proved.model_id == inputs.model_id
            &&& proved.input_tokens == inputs.input_tokens
            &&& proved.output_tokens == inputs.output_tokens
            &&& proved.latency_ms == inputs.latency_ms
            &&& proved.price_paid_nanox == inputs.price_paid_nanox
            &&& proved.timestamp == timestamp
            &&& proved.input_hash == sha256_digest(encode_utf8(inputs.prompt))
            &&& proved.output_hash == sha256_digest(encode_utf8(inputs.output))
            &&& proved.settlement_id == "free"@
            &&& proved.escrow_tx_id is None
            &&& proved.node_pubkey.len() == 32
            &&& forall|i: int| 0 <= i < 32 ==> #[trigger] proved.node_pubkey[i] == 0
            &&& proved.signature.len() == 0
        }),
{
}

/// An acknowledgement holds one proof, as it was signed, and the digest of the output.
pub proof fn law_acks_hold_the_signed_proof(inputs: ProofInputsView, signed: ProofView)
    ensures
        ({
            let ack = unsigned_ack(inputs, signed);
            &&& ack.request_id == inputs.request_id
            &&& ack.proofs.len() == 1
            &&& ack.proofs[0] == signed
            &&& ack.aggregated_output_hash == sha256_digest(encode_utf8(inputs.output))
            &&& ack.primary_pubkey.len() == 32
            &&& forall|i: int| 0 <= i < 32 ==> #[trigger] ack.primary_pubkey[i] == 0
            &&& ack.signature.len() == 0
        }),
{
}

/// What the contracts read of a job, its proof and its acknowledgement is all there is to them.
pub proof fn law_reports_in_full(inputs: ProofInputs, proved: ProofOfInference, ack: CompletionAck)
    ensures
        inputs@.request_id == inputs.request_id,
        inputs@.session_id == inputs.session_id,
        inputs@.client_address == inputs.client_address@,
        inputs@.model_id == inputs.model_id@,
        inputs@.prompt == inputs.prompt@,
        inputs@.output == inputs.output@,
        inputs@.input_tokens == inputs.input_tokens,
        inputs@.output_tokens == inputs.output_tokens,
        inputs@.latency_ms == inputs.latency_ms,
        inputs@.price_paid_nanox == inputs.price_paid_nanox,
        inputs@.node_peer_id == inputs.node_peer_id@,
        proved@.request_id == proved.request_id,
        proved@.session_id == proved.session_id,
        proved@.node_peer_id == proved.node_peer_id@,
        proved@.client_address == proved.client_address@,
        proved@.model_id == proved.model_id@,
        proved@.input_tokens == proved.input_tokens,
        proved@.output_tokens == proved.output_tokens,
        proved@.latency_ms == proved.latency_ms,
        proved@.price_paid_nanox == proved.price_paid_nanox,
        proved@.timestamp == proved.timestamp,
        proved@.input_hash == proved.input_hash@,
        proved@.output_hash == proved.output_hash@,
        proved@.settlement_id == proved.settlement_id@,
        proved@.escrow_tx_id == string_view(proved.escrow_tx_id),
        proved@.node_pubkey == proved.node_pubkey@,
        proved@.signature == proved.signature@,
        ack@.request_id == ack.request_id,
        ack@.proofs.len() == ack.proofs@.len(),
        forall|i: int|
            0 <= i < ack.proofs@.len() ==> #[trigger] ack@.proofs[i] == ack.proofs@[i]@,
        ack@.aggregated_output_hash == ack.aggregated_output_hash@,
        ack@.primary_pubkey == ack.primary_pubkey@,
        ack@.signature == ack.signature@,
{
}

} // verus!
