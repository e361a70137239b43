//! One turn of inference, from the request to the answer.
//!
//! A turn alternates between decisions, which are taken here, and work on the outside, which is
//! asked for and reported back:
//!
//!   1. The dispatch token must come from the coordinator, and its signature is verified.
//!   2. The request must agree with the token on the session, and a bid must stand on it.
//!   3. A node with a context layer loads the session. The window for the model is assembled.
//!   4. The model answers.
//!   5. A node with a context layer writes the turn back. Failure to do so is no failure of the
//!      turn.
//!   6. The answer is returned, and there is a job to prove. The bid is retired.
//!
//! However a turn ends, its session key is wiped.

use crate::bytes::{array32, same_key};
use crate::cipher::{wipe, wiped, zeroed_key};
use crate::completion::{text_digest, unsigned_ack, unsigned_proof, ProofInputs, ProofInputsView,
    ProofView};
use crate::context::assemble::{assembles_to, budget_for, build_with_memory, history_cost,
    input_tokens, law_assembly_is_unique, law_fitting_history_is_kept, token_estimate, user_turn,
    Assembled, AssembledView, Budget};
use crate::context::fetch::{existing_session, LoadedSession, LoadedView};
use crate::context::persist::{with_turn, CommitInput, CommitView};
use crate::context::{clone_messages, empty_context, str_view, string_view, ContextView, MessageView,
    SessionContext};
use crate::encoding::{base64_decode, base64_standard_decode, decoded_view, hex_encode, hex_text};
use crate::inflight::Inflight;
use crate::ollama::{OllamaReply, ReplyView};
use crate::text::join;
use vstd::prelude::*;

verus! {

/// What the node knows of itself when it serves a turn.
pub struct State {
    pub ollama_url: String,
    pub model: String,
    pub node_peer_id: String,
    pub price_per_1k_nanox: u64,
    /// The key of the coordinator whose dispatch tokens are honoured.
    pub coord_pubkey: [u8; 32],
    /// Whether database and blob storage are there, so that sessions outlive a turn.
    pub stateful: bool,
}

impl Clone for State {
    fn clone(&self) -> (r: Self)
        ensures
            r == *self,
    {
        State {
            ollama_url: self.ollama_url.clone(),
            model: self.model.clone(),
            node_peer_id: self.node_peer_id.clone(),
            price_per_1k_nanox: self.price_per_1k_nanox,
            coord_pubkey: self.coord_pubkey,
            stateful: self.stateful,
        }
    }
}

#[verifier::ext_equal]
pub struct StateView {
    pub ollama_url: Seq<char>,
    pub model: Seq<char>,
    pub node_peer_id: Seq<char>,
    pub price_per_1k_nanox: u64,
    pub coord_pubkey: Seq<u8>,
    pub stateful: bool,
}

impl View for State {
    type V = StateView;

    open spec fn view(&self) -> StateView {
        StateView {
            ollama_url: self.ollama_url@,
            model: self.model@,
            node_peer_id: self.node_peer_id@,
            price_per_1k_nanox: self.price_per_1k_nanox,
            coord_pubkey: self.coord_pubkey@,
            stateful: self.stateful,
        }
    }
}

/// What the node reads of the token that the coordinator signs for a dispatch.
pub struct DispatchToken {
    pub request_id: u128,
    pub session_id: u128,
    pub client_pubkey: [u8; 32],
    pub coordinator_pubkey: [u8; 32],
}

/// A request for one turn.
pub struct InferenceReq {
    /// The user's new message.
    pub new_user_message: String,
    pub dispatch_token: DispatchToken,
    /// The session that the request names beside the token. A dispatch over the mesh names none.
    pub session_id: Option<u128>,
    /// The key of the session's blob. Without it a session can neither be read nor stored.
    pub session_key: Option<[u8; 32]>,
    /// Facts from other sessions, for the front of the system prompt.
    pub memwal_context: Option<String>,
}

#[verifier::ext_equal]
pub struct ReqView {
    pub new_user_message: Seq<char>,
    pub request_id: u128,
    pub token_session_id: u128,
    pub client_pubkey: Seq<u8>,
    pub coordinator_pubkey: Seq<u8>,
    pub session_id: Option<u128>,
    pub session_key: Option<Seq<u8>>,
    pub memory: Option<Seq<char>>,
}

pub open spec fn key_bytes(key: Option<[u8; 32]>) -> Option<Seq<u8>> {
    match key {
        Some(k) => Some(k@),
        None => None,
    }
}

impl View for InferenceReq {
    type V = ReqView;

    open spec fn view(&self) -> ReqView {
        ReqView {
            new_user_message: self.new_user_message@,
            request_id: self.dispatch_token.request_id,
            token_session_id: self.dispatch_token.session_id,
            client_pubkey: self.dispatch_token.client_pubkey@,
            coordinator_pubkey: self.dispatch_token.coordinator_pubkey@,
            session_id: self.session_id,
            session_key: key_bytes(self.session_key),
            memory: string_view(self.memwal_context),
        }
    }
}

/// The answer to a turn.
#[derive(Debug)]
pub struct InferenceResp {
    pub request_id: u128,
    pub session_id: u128,
    pub content: String,
    pub input_tokens: u32,
    pub output_tokens: u32,
    pub latency_ms: u32,
}

#[verifier::ext_equal]
pub struct RespView {
    pub request_id: u128,
    pub session_id: u128,
    pub content: Seq<char>,
    pub input_tokens: u32,
    pub output_tokens: u32,
    pub latency_ms: u32,
}

impl View for InferenceResp {
    type V = RespView;

    open spec fn view(&self) -> RespView {
        RespView {
            request_id: self.request_id,
            session_id: self.session_id,
            content: self.content@,
            input_tokens: self.input_tokens,
            output_tokens: self.output_tokens,
            latency_ms: self.latency_ms,
        }
    }
}

/// The answer to a turn that is refused or fails.
#[derive(Debug)]
pub struct ErrorResponse {
    pub status: u16,
    pub message: String,
}

#[verifier::ext_equal]
pub struct ErrorView {
    pub status: u16,
    pub message: Seq<char>,
}

impl View for ErrorResponse {
    type V = ErrorView;

    open spec fn view(&self) -> ErrorView {
        ErrorView { status: self.status, message: self.message@ }
    }
}

pub open spec fn unauthorized(message: Seq<char>) -> ErrorView {
    ErrorView { status: 401, message }
}

pub open spec fn bad_request(message: Seq<char>) -> ErrorView {
    ErrorView { status: 400, message }
}

pub open spec fn internal(message: Seq<char>) -> ErrorView {
    ErrorView { status: 500, message }
}

impl ErrorResponse {
    pub fn unauthorized(message: String) -> (r: Self)
        ensures
            r@ == unauthorized(message@),
    {
        ErrorResponse { status: 401, message }
    }

    pub fn bad_request(message: String) -> (r: Self)
        ensures
            r@ == bad_request(message@),
    {
        ErrorResponse { status: 400, message }
    }

    pub fn internal(message: String) -> (r: Self)
        ensures
            r@ == internal(message@),
    {
        ErrorResponse { status: 500, message }
    }
}

/// Why a session key was refused.
#[derive(Debug)]
pub enum SessionKeyError {
    /// The text is not base64. The reason is given in words.
    NotBase64(String),
    /// It decodes to another number of bytes than a key has.
    WrongLength,
}

#[verifier::ext_equal]
pub enum SessionKeyErrorView {
    NotBase64(Seq<char>),
    WrongLength,
}

impl View for SessionKeyError {
    type V = SessionKeyErrorView;

    open spec fn view(&self) -> SessionKeyErrorView {
        match self {
            SessionKeyError::NotBase64(e) => SessionKeyErrorView::NotBase64(e@),
            SessionKeyError::WrongLength => SessionKeyErrorView::WrongLength,
        }
    }
}

impl SessionKeyError {
    /// What is wrong with the key in a request body, in words.
    pub fn message(&self) -> (r: String)
        ensures
            r@ == (match self@ {
                SessionKeyErrorView::NotBase64(e) => e,
                SessionKeyErrorView::WrongLength => "session_key must be 32 bytes"@,
            }),
    {
        match self {
            SessionKeyError::NotBase64(e) => e.clone(),
            SessionKeyError::WrongLength => String::from_str("session_key must be 32 bytes"),
        }
    }
}

/// The key that a decoding holds.
pub open spec fn key_in(decoded: Result<Seq<u8>, Seq<char>>) -> Result<
    Seq<u8>,
    SessionKeyErrorView,
> {
    match decoded {
        Ok(b) => if b.len() == 32 {
            Ok(b)
        } else {
            Err(SessionKeyErrorView::WrongLength)
        },
        Err(e) => Err(SessionKeyErrorView::NotBase64(e)),
    }
}

pub open spec fn key_result_view(r: Result<[u8; 32], SessionKeyError>) -> Result<
    Seq<u8>,
    SessionKeyErrorView,
> {
    match r {
        Ok(k) => Ok(k@),
        Err(e) => Err(e@),
    }
}

/// Takes a decoding for a key.
pub fn key_of_decoded(decoded: Result<Vec<u8>, String>) -> (r: Result<[u8; 32], SessionKeyError>)
    ensures
        key_result_view(r) == key_in(decoded_view(decoded)),
{
    match decoded {
        Ok(b) => match array32(b.as_slice()) {
            Some(k) => Ok(k),
            None => Err(SessionKeyError::WrongLength),
        },
        Err(e) => Err(SessionKeyError::NotBase64(e)),
    }
}

/// Reads a session key from base64.
pub fn decode_session_key(text: &str) -> (r: Result<[u8; 32], SessionKeyError>)
    ensures
        key_result_view(r) == key_in(base64_standard_decode(text@)),
{
    key_of_decoded(base64_decode(text))
}

/// The key that a request body gives, if it gives one.
pub open spec fn body_key(text: Option<Seq<char>>) -> Result<
    Option<Seq<u8>>,
    SessionKeyErrorView,
> {
    match text {
        None => Ok(None),
        Some(s) => match key_in(base64_standard_decode(s)) {
            Ok(k) => Ok(Some(k)),
            Err(e) => Err(e),
        },
    }
}

pub open spec fn body_key_view(r: Result<Option<[u8; 32]>, SessionKeyError>) -> Result<
    Option<Seq<u8>>,
    SessionKeyErrorView,
> {
    match r {
        Ok(k) => Ok(key_bytes(k)),
        Err(e) => Err(e@),
    }
}

/// Reads the session key of a request body, which may leave it out.
pub fn deserialize(text: Option<&str>) -> (r: Result<Option<[u8; 32]>, SessionKeyError>)
    ensures
        body_key_view(r) == body_key(str_view(text)),
{
    match text {
        None => Ok(None),
        Some(s) => match decode_session_key(s) {
            Ok(k) => Ok(Some(k)),
            Err(e) => Err(e),
        },
    }
}

/// What stays the same throughout a turn.
pub struct Turn {
    pub request_id: u128,
    pub session_id: u128,
    /// The session that the request names beside the token.
    pub named_session_id: Option<u128>,
    /// The client, by its key in hexadecimal.
    pub client_address: String,
    pub new_user_message: String,
    pub session_key: Option<[u8; 32]>,
    pub memory: Option<String>,
}

#[verifier::ext_equal]
pub struct TurnView {
    pub request_id: u128,
    pub session_id: u128,
    pub named_session_id: Option<u128>,
    pub client_address: Seq<char>,
    pub new_user_message: Seq<char>,
    pub session_key: Option<Seq<u8>>,
    pub memory: Option<Seq<char>>,
}

impl View for Turn {
    type V = TurnView;

    open spec fn view(&self) -> TurnView {
        TurnView {
            request_id: self.request_id,
            session_id: self.session_id,
            named_session_id: self.named_session_id,
            client_address: self.client_address@,
            new_user_message: self.new_user_message@,
            session_key: key_bytes(self.session_key),
            memory: string_view(self.memory),
        }
    }
}

/// A turn in progress. Each stage but the last two names the work that it waits for.
pub enum Job {
    /// The signature of the dispatch token is to be verified.
    VerifyToken { turn: Turn },
    /// The session is to be loaded, with the key that the turn holds.
    LoadContext { turn: Turn },
    /// The model is to answer what was assembled.
    Chat { turn: Turn, loaded: Option<LoadedSession>, assembled: Assembled },
    /// The turn is to be written back.
    Persist { turn: Turn, session: LoadedSession, reply: OllamaReply },
    /// The turn is answered, and there is a job to prove. Of the session key only zeros are left.
    Done { response: InferenceResp, proof: ProofInputs, key_left: Option<[u8; 32]> },
    /// The turn was refused, or failed. Of the session key only zeros are left.
    Refused { error: ErrorResponse, key_left: Option<[u8; 32]> },
}

#[verifier::ext_equal]
pub enum JobView {
    VerifyToken { turn: TurnView },
    LoadContext { turn: TurnView },
    Chat { turn: TurnView, loaded: Option<LoadedView>, assembled: AssembledView },
    Persist { turn: TurnView, session: LoadedView, reply: ReplyView },
    Done { response: RespView, proof: ProofInputsView, key_left: Option<Seq<u8>> },
    Refused { error: ErrorView, key_left: Option<Seq<u8>> },
}

pub open spec fn loaded_view(l: Option<LoadedSession>) -> Option<LoadedView> {
    match l {
        Some(l) => Some(l@),
        None => None,
    }
}

impl View for Job {
    type V = JobView;

    open spec fn view(&self) -> JobView {
        match self {
            Job::VerifyToken { turn } => JobView::VerifyToken { turn: turn@ },
            Job::LoadContext { turn } => JobView::LoadContext { turn: turn@ },
            Job::Chat { turn, loaded, assembled } => JobView::Chat {
                turn: turn@,
                loaded: loaded_view(*loaded),
                assembled: assembled@,
            },
            Job::Persist { turn, session, reply } => JobView::Persist {
                turn: turn@,
                session: session@,
                reply: reply@,
            },
            Job::Done { response, proof, key_left } => JobView::Done {
                response: response@,
                proof: proof@,
                key_left: key_bytes(*key_left),
            },
            Job::Refused { error, key_left } => JobView::Refused {
                error: error@,
                key_left: key_bytes(*key_left),
            },
        }
    }
}

/// What the work on the outside came to. Errors come as text.
pub enum JobEvent {
    Verified(Result<(), String>),
    Loaded(Result<LoadedSession, String>),
    Answered(Result<OllamaReply, String>),
    /// Whether the turn could be written back.
    Persisted(bool),
}

#[verifier::ext_equal]
pub enum EventView {
    Verified(Result<(), Seq<char>>),
    Loaded(Result<LoadedView, Seq<char>>),
    Answered(Result<ReplyView, Seq<char>>),
    Persisted(bool),
}

impl View for JobEvent {
    type V = EventView;

    open spec fn view(&self) -> EventView {
        match self {
            JobEvent::Verified(Ok(_)) => EventView::Verified(Ok(())),
            JobEvent::Verified(Err(e)) => EventView::Verified(Err(e@)),
            JobEvent::Loaded(Ok(l)) => EventView::Loaded(Ok(l@)),
            JobEvent::Loaded(Err(e)) => EventView::Loaded(Err(e@)),
            JobEvent::Answered(Ok(r)) => EventView::Answered(Ok(r@)),
            JobEvent::Answered(Err(e)) => EventView::Answered(Err(e@)),
            JobEvent::Persisted(b) => EventView::Persisted(*b),
        }
    }
}

/// The turn that a request asks for.
pub open spec fn turn_of(req: ReqView) -> TurnView {
    TurnView {
        request_id: req.request_id,
        session_id: req.token_session_id,
        named_session_id: req.session_id,
        client_address: hex_text(req.client_pubkey),
        new_user_message: req.new_user_message,
        session_key: req.session_key,
        memory: req.memory,
    }
}

/// A turn that is refused, with its key wiped.
pub open spec fn refused(session_key: Option<Seq<u8>>, error: ErrorView) -> JobView {
    JobView::Refused { error, key_left: wiped(session_key) }
}

/// How a request begins: a token of another coordinator is refused at once.
pub open spec fn started(cfg: StateView, req: ReqView) -> JobView {
    if req.coordinator_pubkey != cfg.coord_pubkey {
        refused(
            req.session_key,
            unauthorized("dispatch token signed by unknown coordinator"@),
        )
    } else {
        JobView::VerifyToken { turn: turn_of(req) }
    }
}

/// The first reason there is to refuse a turn, once its token has been looked at.
pub open spec fn objection(
    cfg: StateView,
    bids: Set<u128>,
    turn: TurnView,
    verified: Result<(), Seq<char>>,
) -> Option<ErrorView> {
    if verified is Err {
        Some(unauthorized("dispatch token verify failed: "@ + verified->Err_0))
    } else if turn.named_session_id is Some && turn.named_session_id->0 != turn.session_id {
        Some(bad_request("session_id does not match dispatch_token.session_id"@))
    } else if !bids.contains(turn.request_id) {
        Some(bad_request("no matching bid for this request_id"@))
    } else if cfg.stateful && turn.session_key is None {
        Some(bad_request("session_key is required for stateful turns"@))
    } else {
        None
    }
}

/// What is known of a session that may not have been loaded.
pub open spec fn context_of(loaded: Option<LoadedView>) -> ContextView {
    match loaded {
        Some(l) => l.context,
        None => empty_context(),
    }
}

/// Whether `job` waits for the model to answer this turn.
pub open spec fn awaits_model(
    cfg: StateView,
    turn: TurnView,
    loaded: Option<LoadedView>,
    job: JobView,
) -> bool {
    job matches JobView::Chat { turn: t, loaded: l, assembled } && t == turn && l == loaded
        && assembles_to(
        context_of(loaded),
        turn.new_user_message,
        budget_for(cfg.model),
        turn.memory,
        assembled,
    )
}

/// The answer to a turn.
pub open spec fn response_of(turn: TurnView, reply: ReplyView) -> RespView {
    RespView {
        request_id: turn.request_id,
        session_id: turn.session_id,
        content: reply.content,
        input_tokens: reply.prompt_tokens,
        output_tokens: reply.completion_tokens,
        latency_ms: reply.latency_ms,
    }
}

/// What there is to prove of a turn.
pub open spec fn proof_of(cfg: StateView, turn: TurnView, reply: ReplyView) -> ProofInputsView {
    ProofInputsView {
        request_id: turn.request_id,
        session_id: turn.session_id,
        client_address: turn.client_address,
        model_id: cfg.model,
        prompt: turn.new_user_message,
        output: reply.content,
        input_tokens: reply.prompt_tokens,
        output_tokens: reply.completion_tokens,
        latency_ms: reply.latency_ms,
        price_paid_nanox: cfg.price_per_1k_nanox,
        node_peer_id: cfg.node_peer_id,
    }
}

/// A turn that is answered, with its key wiped.
pub open spec fn finished(cfg: StateView, turn: TurnView, reply: ReplyView) -> JobView {
    JobView::Done {
        response: response_of(turn, reply),
        proof: proof_of(cfg, turn, reply),
        key_left: wiped(turn.session_key),
    }
}

/// Whether `event` takes a job to `next`. A job takes no notice of an event that it does not
/// wait for.
pub open spec fn steps_to(
    cfg: StateView,
    bids: Set<u128>,
    job: JobView,
    event: EventView,
    next: JobView,
) -> bool {
    match (job, event) {
        (JobView::VerifyToken { turn }, EventView::Verified(result)) => match objection(
            cfg,
            bids,
            turn,
            result,
        ) {
            Some(error) => next == refused(turn.session_key, error),
            None => if cfg.stateful {
                next == (JobView::LoadContext { turn })
            } else {
                awaits_model(cfg, turn, None, next)
            },
        },
        (JobView::LoadContext { turn }, EventView::Loaded(result)) => match result {
            Ok(loaded) => awaits_model(cfg, turn, Some(loaded), next),
            Err(e) => next == refused(turn.session_key, internal("context fetch: "@ + e)),
        },
        (JobView::Chat { turn, loaded, .. }, EventView::Answered(result)) => match result {
            Ok(reply) => match loaded {
                Some(session) => next == (JobView::Persist { turn, session, reply }),
                None => next == finished(cfg, turn, reply),
            },
            Err(e) => next == refused(turn.session_key, internal("ollama: "@ + e)),
        },
        (JobView::Persist { turn, reply, .. }, EventView::Persisted(_)) => next == finished(
            cfg,
            turn,
            reply,
        ),
        _ => next == job,
    }
}

/// Begins a turn.
pub fn start(cfg: &State, req: InferenceReq) -> (r: Job)
    ensures
        r@ == started(cfg@, req@),
{
    let trusted: bool = same_key(&req.dispatch_token.coordinator_pubkey, &cfg.coord_pubkey);
    let turn = Turn {
        request_id: req.dispatch_token.request_id,
        session_id: req.dispatch_token.session_id,
        named_session_id: req.session_id,
        client_address: hex_encode(&req.dispatch_token.client_pubkey),
        new_user_message: req.new_user_message,
        session_key: req.session_key,
        memory: req.memwal_context,
    };
    if !trusted {
        return refuse(
            turn,
            ErrorResponse::unauthorized(
                String::from_str("dispatch token signed by unknown coordinator"),
            ),
        );
    }
    Job::VerifyToken { turn }
}

/// Ends a turn: wipes its key, and says what is left of it.
fn end_turn(turn: &mut Turn) -> (left: Option<[u8; 32]>)
    ensures
        final(turn).session_key is None,
        final(turn)@ == (TurnView { session_key: None, ..old(turn)@ }),
        left matches Some(k) ==> k@ == zeroed_key(),
        key_bytes(left) == wiped(old(turn)@.session_key),
{
    wipe(&mut turn.session_key)
}

/// Ends a turn with an error.
fn refuse(turn: Turn, error: ErrorResponse) -> (r: Job)
    ensures
        r@ == refused(turn@.session_key, error@),
{
    let mut turn: Turn = turn;
    let key_left: Option<[u8; 32]> = end_turn(&mut turn);
    Job::Refused { error, key_left }
}

/// The first objection to a turn, if there is any.
fn find_objection(
    cfg: &State,
    inflight: &Inflight,
    turn: &Turn,
    verified: &Result<(), String>,
) -> (r: Option<ErrorResponse>)
    ensures
        (match r {
            Some(e) => Some(e@),
            None => None,
        }) == objection(
            cfg@,
            inflight@,
            turn@,
            match *verified {
                Ok(_) => Ok(()),
                Err(e) => Err(e@),
            },
        ),
{
    if let Err(e) = verified {
        return Some(
            ErrorResponse::unauthorized(join("dispatch token verify failed: ", e.as_str())),
        );
    }
    if let Some(named) = turn.named_session_id {
        if named != turn.session_id {
            return Some(
                ErrorResponse::bad_request(
                    String::from_str("session_id does not match dispatch_token.session_id"),
                ),
            );
        }
    }
    if !inflight.contains(&turn.request_id) {
        return Some(
            ErrorResponse::bad_request(String::from_str("no matching bid for this request_id")),
        );
    }
    if cfg.stateful && turn.session_key.is_none() {
        return Some(
            ErrorResponse::bad_request(
                String::from_str("session_key is required for stateful turns"),
            ),
        );
    }
    None
}

/// Assembles what is known of the session for the model.
fn ask_model(cfg: &State, turn: Turn, loaded: Option<LoadedSession>) -> (r: Job)
    ensures
        awaits_model(cfg@, turn@, loaded_view(loaded), r@),
{
    let budget: Budget = Budget::for_model(cfg.model.as_str());
    let memory: Option<&str> = match &turn.memory {
        Some(m) => Some(m.as_str()),
        None => None,
    };
    let assembled = match &loaded {
        Some(l) => build_with_memory(&l.context, turn.new_user_message.as_str(), budget, memory),
        None => build_with_memory(
            &SessionContext::default(),
            turn.new_user_message.as_str(),
            budget,
            memory,
        ),
    };
    Job::Chat { turn, loaded, assembled }
}

/// Ends a turn with its answer.
fn finish(cfg: &State, turn: Turn, reply: OllamaReply) -> (r: Job)
    ensures
        r@ == finished(cfg@, turn@, reply@),
{
    let mut turn: Turn = turn;
    let key_left: Option<[u8; 32]> = end_turn(&mut turn);
    let response = InferenceResp {
        request_id: turn.request_id,
        session_id: turn.session_id,
        content: reply.content.clone(),
        input_tokens: reply.prompt_tokens,
        output_tokens: reply.completion_tokens,
        latency_ms: reply.latency_ms,
    };
    let proof_inputs = ProofInputs {
        request_id: turn.request_id,
        session_id: turn.session_id,
        client_address: turn.client_address,
        model_id: cfg.model.clone(),
        prompt: turn.new_user_message,
        output: reply.content,
        input_tokens: reply.prompt_tokens,
        output_tokens: reply.completion_tokens,
        latency_ms: reply.latency_ms,
        price_paid_nanox: cfg.price_per_1k_nanox,
        node_peer_id: cfg.node_peer_id.clone(),
    };
    Job::Done { response, proof: proof_inputs, key_left }
}

impl Job {
    /// Takes what the work on the outside came to, and moves on.
    pub fn step(self, cfg: &State, inflight: &Inflight, event: JobEvent) -> (r: Job)
        ensures
            steps_to(cfg@, inflight@, self@, event@, r@),
    {
        match (self, event) {
            (Job::VerifyToken { turn }, JobEvent::Verified(result)) => {
                match find_objection(cfg, inflight, &turn, &result) {
                    Some(error) => refuse(turn, error),
                    None => if cfg.stateful {
                        Job::LoadContext { turn }
                    } else {
                        ask_model(cfg, turn, None)
                    },
                }
            },
            (Job::LoadContext { turn }, JobEvent::Loaded(result)) => match result {
                Ok(loaded) => ask_model(cfg, turn, Some(loaded)),
                Err(e) => refuse(
                    turn,
                    ErrorResponse::internal(join("context fetch: ", e.as_str())),
                ),
            },
            (Job::Chat { turn, loaded, assembled: _ }, JobEvent::Answered(result)) => match result {
                Ok(reply) => match loaded {
                    Some(session) => Job::Persist { turn, session, reply },
                    None => finish(cfg, turn, reply),
                },
                Err(e) => refuse(turn, ErrorResponse::internal(join("ollama: ", e.as_str()))),
            },
            (Job::Persist { turn, session: _, reply }, JobEvent::Persisted(_)) => finish(
                cfg,
                turn,
                reply,
            ),
            (job, _) => job,
        }
    }
}

/// Retires the bid on a request that was served. This does not wait on how the report to the
/// coordinator fares.
pub fn retire(inflight: &mut Inflight, proof_inputs: &ProofInputs)
    ensures
        final(inflight)@ == old(inflight)@.remove(proof_inputs.request_id),
{
    inflight.forget(&proof_inputs.request_id);
}

/// What a turn writes back.
pub open spec fn commit_of(
    cfg: StateView,
    turn: TurnView,
    session: LoadedView,
    reply: ReplyView,
) -> CommitView {
    CommitView {
        session_id: turn.session_id,
        request_id: turn.request_id,
        user_address: turn.client_address,
        model_id: cfg.model,
        node_peer_id: cfg.node_peer_id,
        new_user_message: turn.new_user_message,
        assistant_reply: reply.content,
        input_tokens: reply.prompt_tokens,
        output_tokens: reply.completion_tokens,
        latency_ms: reply.latency_ms,
        cost_nanox: cfg.price_per_1k_nanox,
        prior_messages: session.context.recent_messages,
        prev_blob_id: session.prev_blob_id,
        session_existed: session.existed,
    }
}

/// What a turn is to write back.
pub fn commit_input<'a>(
    cfg: &'a State,
    turn: &'a Turn,
    session: &LoadedSession,
    reply: &'a OllamaReply,
) -> (r: CommitInput<'a>)
    ensures
        r@ == commit_of(cfg@, turn@, session@, reply@),
        r.prior_messages@ == session.context.recent_messages@,
        r.prev_blob_id == session.prev_blob_id,
        r.session_existed == session.existed,
        r.new_user_message@ == turn.new_user_message@,
        r.assistant_reply@ == reply.content@,
{
    CommitInput {
        session_id: turn.session_id,
        request_id: turn.request_id,
        user_address: turn.client_address.as_str(),
        model_id: cfg.model.as_str(),
        node_peer_id: cfg.node_peer_id.as_str(),
        new_user_message: turn.new_user_message.as_str(),
        assistant_reply: reply.content.as_str(),
        input_tokens: reply.prompt_tokens,
        output_tokens: reply.completion_tokens,
        latency_ms: reply.latency_ms,
        cost_nanox: cfg.price_per_1k_nanox,
        prior_messages: clone_messages(&session.context.recent_messages),
        prev_blob_id: session.prev_blob_id.clone(),
        session_existed: session.existed,
    }
}

/// A run of the turn that `req` asks for: `jobs` are its stages, from the first, and between two
/// of them stands an event, with the bids that stood when it was taken.
pub open spec fn is_run(
    cfg: StateView,
    req: ReqView,
    bids: Seq<Set<u128>>,
    events: Seq<EventView>,
    jobs: Seq<JobView>,
) -> bool {
    &&& bids.len() == events.len()
    &&& jobs.len() == events.len() + 1
    &&& jobs[0] == started(cfg, req)
    &&& forall|i: int| 0 <= i < events.len() ==> #[trigger] is_step(cfg, bids, events, jobs, i)
}

/// Whether the event with number `i` takes a run to its next stage.
pub open spec fn is_step(
    cfg: StateView,
    bids: Seq<Set<u128>>,
    events: Seq<EventView>,
    jobs: Seq<JobView>,
    i: int,
) -> bool {
    steps_to(cfg, bids[i], jobs[i], events[i], jobs[i + 1])
}

/// Whether the request itself gives no reason to refuse it.
pub open spec fn admissible(cfg: StateView, req: ReqView) -> bool {
    &&& req.coordinator_pubkey == cfg.coord_pubkey
    &&& req.session_id is Some ==> req.session_id->0 == req.token_session_id
    &&& cfg.stateful ==> req.session_key is Some
}

/// Whether the token was found good at a time when a bid stood on the request.
pub open spec fn vouched_for(
    req: ReqView,
    bids: Seq<Set<u128>>,
    events: Seq<EventView>,
) -> bool {
    exists|i: int|
        0 <= i < events.len() && is_good_token(#[trigger] events[i]) && bids[i].contains(
            req.request_id,
        )
}

/// Whether an event reports a token as good.
pub open spec fn is_good_token(event: EventView) -> bool {
    event matches EventView::Verified(result) && result is Ok
}

/// Whether a turn has got past the checks.
pub open spec fn in_service(job: JobView) -> bool {
    job is LoadContext || job is Chat || job is Persist || job is Done
}

/// What is known of a stage of a run from what came before it.
spec fn explained(
    cfg: StateView,
    req: ReqView,
    bids: Seq<Set<u128>>,
    events: Seq<EventView>,
    job: JobView,
) -> bool {
    let turn = turn_of(req);
    &&& in_service(job) ==> admissible(cfg, req) && vouched_for(req, bids, events)
    &&& match job {
        JobView::VerifyToken { turn: t } => t == turn && req.coordinator_pubkey
            == cfg.coord_pubkey,
        JobView::LoadContext { turn: t } => t == turn && cfg.stateful,
        JobView::Chat { turn: t, loaded, .. } => t == turn && (loaded is Some <==> cfg.stateful)
            && awaits_model(cfg, turn, loaded, job) && (loaded is Some ==> events.contains(
            EventView::Loaded(Ok(loaded->0)),
        )),
        JobView::Persist { turn: t, session, reply } => t == turn && cfg.stateful
            && events.contains(EventView::Loaded(Ok(session))) && events.contains(
            EventView::Answered(Ok(reply)),
        ),
        JobView::Done { .. } => exists|reply: ReplyView|
            events.contains(EventView::Answered(Ok(reply))) && job == #[trigger] finished(
                cfg,
                turn,
                reply,
            ),
        JobView::Refused { error, key_left } => refused_for(cfg, req, bids, events, error)
            && key_left == wiped(req.session_key),
    }
}

/// Whether `error` answers something that went wrong: with the request, with the bids or in the
/// work on the outside.
pub open spec fn refused_for(
    cfg: StateView,
    req: ReqView,
    bids: Seq<Set<u128>>,
    events: Seq<EventView>,
    error: ErrorView,
) -> bool {
    ||| req.coordinator_pubkey != cfg.coord_pubkey && error == unauthorized(
        "dispatch token signed by unknown coordinator"@,
    )
    ||| exists|i: int|
        0 <= i < events.len() && event_refuses(cfg, req, bids[i], #[trigger] events[i], error)
}

/// Whether a request is refused with `error` upon `event`.
pub open spec fn event_refuses(
    cfg: StateView,
    req: ReqView,
    bids: Set<u128>,
    event: EventView,
    error: ErrorView,
) -> bool {
    match event {
        EventView::Verified(result) => objection(cfg, bids, turn_of(req), result) == Some(error),
        EventView::Loaded(Err(e)) => cfg.stateful && error == internal("context fetch: "@ + e),
        EventView::Answered(Err(e)) => error == internal("ollama: "@ + e),
        _ => false,
    }
}

proof fn lemma_run_is_explained(
    cfg: StateView,
    req: ReqView,
    bids: Seq<Set<u128>>,
    events: Seq<EventView>,
    jobs: Seq<JobView>,
)
    requires
        is_run(cfg, req, bids, events, jobs),
    ensures
        explained(cfg, req, bids, events, jobs.last()),
    decreases events.len(),
{
    if events.len() > 0 {
        let n = events.len() - 1;
        let (b, e, j) = (bids.drop_last(), events.drop_last(), jobs.drop_last());
        assert forall|i: int| 0 <= i < e.len() implies #[trigger] is_step(cfg, b, e, j, i) by {
            assert(is_step(cfg, bids, events, jobs, i));
        }
        lemma_run_is_explained(cfg, req, b, e, j);
        let job = j.last();
        let next = jobs.last();
        assert(is_step(cfg, bids, events, jobs, n));
        assert(job == jobs[n]);
        assert forall|x: EventView| e.contains(x) implies events.contains(x) by {
            let i = choose|i: int| 0 <= i < e.len() && e[i] == x;
            assert(events[i] == x);
        }
        assert(events.contains(events[n]));
        assert(vouched_for(req, b, e) ==> vouched_for(req, bids, events)) by {
            if vouched_for(req, b, e) {
                let i = choose|i: int|
                    0 <= i < e.len() && is_good_token(#[trigger] e[i]) && b[i].contains(
                        req.request_id,
                    );
                assert(is_good_token(events[i]));
            }
        }
        if job is Refused {
            assert(refused_for(cfg, req, bids, events, job->error)) by {
                if exists|i: int|
                    0 <= i < e.len() && event_refuses(cfg, req, b[i], #[trigger] e[i], job->error) {
                    let i = choose|i: int|
                        0 <= i < e.len() && event_refuses(
                            cfg,
                            req,
                            b[i],
                            #[trigger] e[i],
                            job->error,
                        );
                    assert(event_refuses(cfg, req, bids[i], events[i], job->error));
                }
            }
        } else if next is Refused {
            assert(event_refuses(cfg, req, bids[n], events[n], next->error));
        } else if job is VerifyToken && in_service(next) {
            assert(is_good_token(events[n]));
            assert(vouched_for(req, bids, events));
        } else if job is Done {
            assert(exists|reply: ReplyView|
                events.contains(EventView::Answered(Ok(reply))) && next == #[trigger] finished(
                    cfg,
                    turn_of(req),
                    reply,
                ));
        }
    }
}

/// A stage of a run is about the turn that the request asks for.
pub proof fn law_a_turn_keeps_to_its_request(
    cfg: StateView,
    req: ReqView,
    bids: Seq<Set<u128>>,
    events: Seq<EventView>,
    jobs: Seq<JobView>,
)
    requires
        is_run(cfg, req, bids, events, jobs),
    ensures
        match jobs.last() {
            JobView::VerifyToken { turn } => turn == turn_of(req),
            JobView::LoadContext { turn } => turn == turn_of(req),
            JobView::Chat { turn, .. } => turn == turn_of(req),
            JobView::Persist { turn, .. } => turn == turn_of(req),
            _ => true,
        },
{
    lemma_run_is_explained(cfg, req, bids, events, jobs);
}

/// Nothing is loaded, asked of the model, written back or answered unless the token is the
/// coordinator's and was verified while a bid stood on the request, the request agrees with the
/// token on the session and, on a node that keeps sessions, brings a key.
pub proof fn law_only_vouched_turns_run(
    cfg: StateView,
    req: ReqView,
    bids: Seq<Set<u128>>,
    events: Seq<EventView>,
    jobs: Seq<JobView>,
)
    requires
        is_run(cfg, req, bids, events, jobs),
    ensures
        in_service(jobs.last()) ==> admissible(cfg, req) && vouched_for(req, bids, events),
{
    lemma_run_is_explained(cfg, req, bids, events, jobs);
}

/// What a finished turn returns, and what it has proved of it, is an answer that the model gave
/// to this request.
pub proof fn law_the_answer_is_the_models(
    cfg: StateView,
    req: ReqView,
    bids: Seq<Set<u128>>,
    events: Seq<EventView>,
    jobs: Seq<JobView>,
)
    requires
        is_run(cfg, req, bids, events, jobs),
    ensures
        jobs.last() is Done ==> exists|reply: ReplyView|
            events.contains(EventView::Answered(Ok(reply))) && jobs.last() == #[trigger] finished(
                cfg,
                turn_of(req),
                reply,
            ),
{
    lemma_run_is_explained(cfg, req, bids, events, jobs);
}

/// A session is loaded and written back by a node that keeps sessions only, and with a key in
/// hand. What is written back joins an answer of the model to the session that was loaded.
pub proof fn law_sessions_are_kept_with_a_key(
    cfg: StateView,
    req: ReqView,
    bids: Seq<Set<u128>>,
    events: Seq<EventView>,
    jobs: Seq<JobView>,
)
    requires
        is_run(cfg, req, bids, events, jobs),
    ensures
        jobs.last() matches JobView::LoadContext { turn } ==> cfg.stateful && turn.session_key
            == req.session_key && turn.session_key is Some,
        jobs.last() matches JobView::Persist { turn, session, reply } ==> cfg.stateful
            && turn.session_key == req.session_key && turn.session_key is Some && events.contains(
            EventView::Loaded(Ok(session)),
        ) && events.contains(EventView::Answered(Ok(reply))),
{
    lemma_run_is_explained(cfg, req, bids, events, jobs);
}

/// The model is asked exactly what the context that was loaded, or an empty one, assembles to.
pub proof fn law_the_model_sees_the_session(
    cfg: StateView,
    req: ReqView,
    bids: Seq<Set<u128>>,
    events: Seq<EventView>,
    jobs: Seq<JobView>,
)
    requires
        is_run(cfg, req, bids, events, jobs),
    ensures
        jobs.last() matches JobView::Chat { loaded, assembled, .. } ==> {
            &&& loaded is Some <==> cfg.stateful
            &&& loaded is Some ==> events.contains(EventView::Loaded(Ok(loaded->0)))
            &&& assembles_to(
                context_of(loaded),
                req.new_user_message,
                budget_for(cfg.model),
                req.memory,
                assembled,
            )
        },
{
    lemma_run_is_explained(cfg, req, bids, events, jobs);
}

/// A refusal always has its cause: a foreign token, or an event for which the request is refused
/// in just these words.
pub proof fn law_refusals_are_explained(
    cfg: StateView,
    req: ReqView,
    bids: Seq<Set<u128>>,
    events: Seq<EventView>,
    jobs: Seq<JobView>,
)
    requires
        is_run(cfg, req, bids, events, jobs),
    ensures
        jobs.last() matches JobView::Refused { error, .. } ==> refused_for(
            cfg,
            req,
            bids,
            events,
            error,
        ),
{
    lemma_run_is_explained(cfg, req, bids, events, jobs);
}

/// A foreign token is refused from the first to the last stage, whatever else is reported.
pub proof fn law_foreign_tokens_get_nowhere(
    cfg: StateView,
    req: ReqView,
    bids: Seq<Set<u128>>,
    events: Seq<EventView>,
    jobs: Seq<JobView>,
)
    requires
        is_run(cfg, req, bids, events, jobs),
        req.coordinator_pubkey != cfg.coord_pubkey,
    ensures
        jobs.last() == refused(
            req.session_key,
            unauthorized("dispatch token signed by unknown coordinator"@),
        ),
    decreases events.len(),
{
    if events.len() > 0 {
        let n = events.len() - 1;
        let (b, e, j) = (bids.drop_last(), events.drop_last(), jobs.drop_last());
        assert forall|i: int| 0 <= i < e.len() implies #[trigger] is_step(cfg, b, e, j, i) by {
            assert(is_step(cfg, bids, events, jobs, i));
        }
        law_foreign_tokens_get_nowhere(cfg, req, b, e, j);
        assert(is_step(cfg, bids, events, jobs, n));
    }
}

/// A turn that has ended stays as it ended.
pub proof fn law_ended_turns_stay(
    cfg: StateView,
    bids: Set<u128>,
    job: JobView,
    event: EventView,
    next: JobView,
)
    requires
        job is Done || job is Refused,
    ensures
        steps_to(cfg, bids, job, event, next) <==> next == job,
{
}

/// One event takes a job to one next stage.
pub proof fn law_steps_are_unique(
    cfg: StateView,
    bids: Set<u128>,
    job: JobView,
    event: EventView,
    a: JobView,
    b: JobView,
)
    requires
        steps_to(cfg, bids, job, event, a),
        steps_to(cfg, bids, job, event, b),
    ensures
        a == b,
{
    if a is Chat && b is Chat && job !is Chat {
        let turn = a->Chat_turn;
        law_assembly_is_unique(
            context_of(a->loaded),
            turn.new_user_message,
            budget_for(cfg.model),
            turn.memory,
            a->assembled,
            b->assembled,
        );
    }
}

/// A turn that could not be written back is answered all the same, and the same.
pub proof fn law_a_failed_write_back_costs_no_answer(
    cfg: StateView,
    bids: Set<u128>,
    job: JobView,
    saved: JobView,
    unsaved: JobView,
)
    requires
        job is Persist,
        steps_to(cfg, bids, job, EventView::Persisted(true), saved),
        steps_to(cfg, bids, job, EventView::Persisted(false), unsaved),
    ensures
        saved == unsaved,
        saved is Done,
{
}

/// A request that gives no reason to refuse it, on which a bid stands, and whose work on the
/// outside succeeds is answered with what the model said.
pub proof fn law_good_requests_are_answered(
    cfg: StateView,
    req: ReqView,
    bids: Seq<Set<u128>>,
    jobs: Seq<JobView>,
    loaded: LoadedView,
    reply: ReplyView,
    saved: bool,
)
    requires
        admissible(cfg, req),
        bids.len() > 0 && bids[0].contains(req.request_id),
        is_run(
            cfg,
            req,
            bids,
            if cfg.stateful {
                seq![
                    EventView::Verified(Ok(())),
                    EventView::Loaded(Ok(loaded)),
                    EventView::Answered(Ok(reply)),
                    EventView::Persisted(saved),
                ]
            } else {
                seq![EventView::Verified(Ok(())), EventView::Answered(Ok(reply))]
            },
            jobs,
        ),
    ensures
        jobs.last() == finished(cfg, turn_of(req), reply),
{
    let events = if cfg.stateful {
        seq![
            EventView::Verified(Ok(())),
            EventView::Loaded(Ok(loaded)),
            EventView::Answered(Ok(reply)),
            EventView::Persisted(saved),
        ]
    } else {
        seq![EventView::Verified(Ok(())), EventView::Answered(Ok(reply))]
    };
    assert(is_step(cfg, bids, events, jobs, 0));
    assert(is_step(cfg, bids, events, jobs, 1));
    if cfg.stateful {
        assert(is_step(cfg, bids, events, jobs, 2));
        assert(is_step(cfg, bids, events, jobs, 3));
    }
}

/// The next turn of a session remembers this one. Once what this turn wrote back is loaded, the
/// model is sent this turn's message and answer before the new message, if the conversation fits;
/// and the answer is the last thing to be left out.
pub proof fn law_the_next_turn_remembers(
    cfg: StateView,
    turn: TurnView,
    session: LoadedView,
    reply: ReplyView,
    facts: Seq<Seq<char>>,
    summary: Option<Seq<char>>,
    blob_id: Seq<char>,
    next_message: Seq<char>,
    budget: Budget,
    memory: Option<Seq<char>>,
    out: AssembledView,
)
    requires
        ({
            let commit = commit_of(cfg, turn, session, reply);
            let stored = with_turn(
                commit.prior_messages,
                commit.new_user_message,
                commit.assistant_reply,
            );
            assembles_to(
                existing_session(facts, summary, Some(blob_id), stored).context,
                next_message,
                budget,
                memory,
                out,
            )
        }),
    ensures
        ({
            let stored = with_turn(
                session.context.recent_messages,
                turn.new_user_message,
                reply.content,
            );
            let base = token_estimate(out.system_prompt) + token_estimate(next_message);
            &&& base + history_cost(stored) <= input_tokens(budget) ==> out.messages
                == stored.push(user_turn(next_message))
            &&& out.messages.len() > 1 ==> out.messages[out.messages.len() - 2] == (MessageView {
                role: "assistant"@,
                content: reply.content,
            })
        }),
{
    let stored = with_turn(session.context.recent_messages, turn.new_user_message, reply.content);
    let next = existing_session(facts, summary, Some(blob_id), stored).context;
    let base = token_estimate(out.system_prompt) + token_estimate(next_message);
    if base + history_cost(stored) <= input_tokens(budget) {
        law_fitting_history_is_kept(next, next_message, budget, memory, out);
    }
}

/// However a turn ends, nothing but zeros is left of its session key.
pub proof fn law_ended_turns_hold_no_key(
    cfg: StateView,
    req: ReqView,
    bids: Seq<Set<u128>>,
    events: Seq<EventView>,
    jobs: Seq<JobView>,
)
    requires
        is_run(cfg, req, bids, events, jobs),
    ensures
        jobs.last() matches JobView::Done { key_left, .. } ==> key_left == wiped(req.session_key),
        jobs.last() matches JobView::Refused { key_left, .. } ==> key_left == wiped(
            req.session_key,
        ),
{
    lemma_run_is_explained(cfg, req, bids, events, jobs);
}

/// What is reported of a served request speaks of that request, of the user's message alone and
/// of the very answer that was returned.
pub proof fn law_reports_are_of_the_turn(
    cfg: StateView,
    req: ReqView,
    bids: Seq<Set<u128>>,
    events: Seq<EventView>,
    jobs: Seq<JobView>,
    timestamp: u64,
    signed: ProofView,
)
    requires
        is_run(cfg, req, bids, events, jobs),
    ensures
        jobs.last() matches JobView::Done { response, proof, .. } ==> {
            &&& proof.request_id == req.request_id
            &&& response.request_id == req.request_id
            &&& unsigned_proof(proof, timestamp).request_id == req.request_id
            &&& unsigned_proof(proof, timestamp).input_hash == text_digest(req.new_user_message)
            &&& unsigned_proof(proof, timestamp).output_hash == text_digest(response.content)
            &&& unsigned_ack(proof, signed).request_id == req.request_id
            &&& unsigned_ack(proof, signed).aggregated_output_hash == text_digest(response.content)
        },
{
    lemma_run_is_explained(cfg, req, bids, events, jobs);
}

/// A request whose bid was retired is refused for want of a bid, however good its token.
pub proof fn law_a_retired_bid_admits_nothing(cfg: StateView, bids: Set<u128>, turn: TurnView)
    requires
        turn.named_session_id is Some ==> turn.named_session_id->0 == turn.session_id,
    ensures
        objection(cfg, bids.remove(turn.request_id), turn, Ok(())) == Some(
            bad_request("no matching bid for this request_id"@),
        ),
{
}

/// A token is not served twice. Once a request was served and its bid retired, and as long as no
/// new bid on it is recorded, it is not taken into service again. It is refused as soon as its
/// token has been looked at, whatever that came to; a good token that agrees on the session is
/// refused for want of a bid.
pub proof fn law_a_token_is_not_served_twice(
    cfg: StateView,
    req: ReqView,
    bids: Seq<Set<u128>>,
    events: Seq<EventView>,
    jobs: Seq<JobView>,
    again: ReqView,
    later_bids: Seq<Set<u128>>,
    later_events: Seq<EventView>,
    later_jobs: Seq<JobView>,
)
    requires
        is_run(cfg, req, bids, events, jobs),
        jobs.last() is Done,
        again.request_id == req.request_id,
        is_run(cfg, again, later_bids, later_events, later_jobs),
        forall|i: int|
            0 <= i < later_bids.len() ==> !(#[trigger] later_bids[i]).contains(
                jobs.last()->proof.request_id,
            ),
    ensures
        !in_service(later_jobs.last()),
        later_events.len() > 0 && later_events[0] is Verified ==> later_jobs[1] is Refused,
        again.coordinator_pubkey == cfg.coord_pubkey && (again.session_id is Some
            ==> again.session_id->0 == again.token_session_id) && later_events.len() > 0
            && is_good_token(later_events[0]) ==> later_jobs[1] == refused(
            again.session_key,
            bad_request("no matching bid for this request_id"@),
        ),
{
    lemma_run_is_explained(cfg, req, bids, events, jobs);
    lemma_run_is_explained(cfg, again, later_bids, later_events, later_jobs);
    if later_events.len() > 0 {
        assert(is_step(cfg, later_bids, later_events, later_jobs, 0));
        assert(!later_bids[0].contains(req.request_id));
    }
}

/// A request becomes the turn that it asks for, field by field, under the session of its token
/// and for the client that its token names. A foreign token is refused at once.
pub proof fn law_requests_become_turns(cfg: StateView, req: ReqView)
    ensures
        req.coordinator_pubkey == cfg.coord_pubkey ==> (started(cfg, req)
            matches JobView::VerifyToken { turn } && turn.request_id == req.request_id
            && turn.session_id == req.token_session_id && turn.named_session_id == req.session_id
            && turn.client_address == hex_text(req.client_pubkey) && turn.new_user_message
            == req.new_user_message && turn.session_key == req.session_key && turn.memory
            == req.memory),
        req.coordinator_pubkey != cfg.coord_pubkey ==> (started(cfg, req)
            matches JobView::Refused { error, key_left } && error.status == 401 && error.message
            == "dispatch token signed by unknown coordinator"@ && (key_left is Some
            <==> req.session_key is Some)),
{
}

/// The checks on a turn, in their order, and how each is answered. A turn passes exactly where
/// its token is good, it names no other session, a bid stands on it and, on a node that keeps
/// sessions, it brings a key.
pub proof fn law_checks_one_by_one(
    cfg: StateView,
    bids: Set<u128>,
    turn: TurnView,
    verified: Result<(), Seq<char>>,
)
    ensures
        ({
            let good = verified is Ok;
            let agrees = turn.named_session_id is None || turn.named_session_id == Some(
                turn.session_id,
            );
            let known = bids.contains(turn.request_id);
            let keyed = !cfg.stateful || turn.session_key is Some;
            let found = objection(cfg, bids, turn, verified);
            &&& found is None <==> good && agrees && known && keyed
            &&& !good ==> found == Some(
                ErrorView {
                    status: 401,
                    message: "dispatch token verify failed: "@ + verified->Err_0,
                },
            )
            &&& good && !agrees ==> found == Some(
                ErrorView {
                    status: 400,
                    message: "session_id does not match dispatch_token.session_id"@,
                },
            )
            &&& good && agrees && !known ==> found == Some(
                ErrorView { status: 400, message: "no matching bid for this request_id"@ },
            )
            &&& good && agrees && known && !keyed ==> found == Some(
                ErrorView { status: 400, message: "session_key is required for stateful turns"@ },
            )
        }),
{
}

/// The stages of a turn, one by one: what each event that is waited for leads to.
pub proof fn law_stages_one_by_one(
    cfg: StateView,
    bids: Set<u128>,
    turn: TurnView,
    loaded: Option<LoadedView>,
    assembled: AssembledView,
    session: LoadedView,
    reply: ReplyView,
    failure: Seq<char>,
    next: JobView,
)
    ensures
        steps_to(
            cfg,
            bids,
            JobView::LoadContext { turn },
            EventView::Loaded(Ok(session)),
            next,
        ) ==> (next matches JobView::Chat { turn: t, loaded: l, assembled: a } && t == turn && l
            == Some(session) && assembles_to(
            session.context,
            turn.new_user_message,
            budget_for(cfg.model),
            turn.memory,
            a,
        )),
        steps_to(
            cfg,
            bids,
            JobView::LoadContext { turn },
            EventView::Loaded(Err(failure)),
            next,
        ) ==> (next matches JobView::Refused { error, .. } && error.status == 500 && error.message
            == "context fetch: "@ + failure),
        steps_to(
            cfg,
            bids,
            JobView::Chat { turn, loaded: Some(session), assembled },
            EventView::Answered(Ok(reply)),
            next,
        ) ==> (next matches JobView::Persist { turn: t, session: s, reply: r } && t == turn && s
            == session && r == reply),
        steps_to(
            cfg,
            bids,
            JobView::Chat { turn, loaded, assembled },
            EventView::Answered(Err(failure)),
            next,
        ) ==> (next matches JobView::Refused { error, .. } && error.status == 500 && error.message
            == "ollama: "@ + failure),
{
}

/// A turn ends with the model's reply as its answer, and is reported by it, field by field: at
/// once where no session was loaded, and else when it has been written back, or could not be.
pub proof fn law_answers_field_by_field(
    cfg: StateView,
    bids: Set<u128>,
    turn: TurnView,
    assembled: AssembledView,
    session: LoadedView,
    reply: ReplyView,
    saved: bool,
    next: JobView,
)
    requires
        steps_to(
            cfg,
            bids,
            JobView::Chat { turn, loaded: None, assembled },
            EventView::Answered(Ok(reply)),
            next,
        ) || steps_to(
            cfg,
            bids,
            JobView::Persist { turn, session, reply },
            EventView::Persisted(saved),
            next,
        ),
    ensures
        next matches JobView::Done { response, proof, .. } && response.request_id
            == turn.request_id && response.session_id == turn.session_id && response.content
            == reply.content && response.input_tokens == reply.prompt_tokens
            && response.output_tokens == reply.completion_tokens && response.latency_ms
            == reply.latency_ms && proof.request_id == turn.request_id && proof.session_id
            == turn.session_id && proof.client_address == turn.client_address && proof.model_id
            == cfg.model && proof.prompt == turn.new_user_message && proof.output == reply.content
            && proof.input_tokens == reply.prompt_tokens && proof.output_tokens
            == reply.completion_tokens && proof.latency_ms == reply.latency_ms
            && proof.price_paid_nanox == cfg.price_per_1k_nanox && proof.node_peer_id
            == cfg.node_peer_id,
{
}

/// Once the checks are passed, a node that keeps sessions loads this one, and a node that keeps
/// none asks the model at once, with nothing known but the new message. A turn that does not pass
/// is refused.
pub proof fn law_checks_lead_on(
    cfg: StateView,
    bids: Set<u128>,
    turn: TurnView,
    verified: Result<(), Seq<char>>,
    next: JobView,
)
    requires
        steps_to(cfg, bids, JobView::VerifyToken { turn }, EventView::Verified(verified), next),
    ensures
        ({
            let passes = verified is Ok && (turn.named_session_id is None || turn.named_session_id
                == Some(turn.session_id)) && bids.contains(turn.request_id) && (!cfg.stateful
                || turn.session_key is Some);
            &&& passes && cfg.stateful ==> next == (JobView::LoadContext { turn })
            &&& passes && !cfg.stateful ==> (next matches JobView::Chat {
                turn: t,
                loaded,
                assembled,
            } && t == turn && loaded is None && assembles_to(
                ContextView {
                    user_facts: Seq::empty(),
                    summary: None,
                    recent_messages: Seq::empty(),
                },
                turn.new_user_message,
                budget_for(cfg.model),
                turn.memory,
                assembled,
            ))
            &&& !passes ==> (next matches JobView::Refused { error, .. } && objection(
                cfg,
                bids,
                turn,
                verified,
            ) == Some(error))
        }),
{
    law_checks_one_by_one(cfg, bids, turn, verified);
}

/// A stage takes no notice of an event that it does not wait for.
pub proof fn law_stages_wait_for_their_event(
    cfg: StateView,
    bids: Set<u128>,
    job: JobView,
    event: EventView,
    next: JobView,
)
    requires
        !(job is VerifyToken && event is Verified),
        !(job is LoadContext && event is Loaded),
        !(job is Chat && event is Answered),
        !(job is Persist && event is Persisted),
        steps_to(cfg, bids, job, event, next),
    ensures
        next == job,
{
}

/// However a turn ends, as many zeros are left of its key as it had bytes.
pub proof fn law_ends_leave_zeros(
    cfg: StateView,
    bids: Set<u128>,
    job: JobView,
    event: EventView,
    next: JobView,
)
    requires
        !(job is Done || job is Refused),
        steps_to(cfg, bids, job, event, next),
    ensures
        ({
            let key = match job {
                JobView::VerifyToken { turn } => turn.session_key,
                JobView::LoadContext { turn } => turn.session_key,
                JobView::Chat { turn, .. } => turn.session_key,
                JobView::Persist { turn, .. } => turn.session_key,
                _ => None,
            };
            let left = match next {
                JobView::Done { key_left, .. } => key_left,
                JobView::Refused { key_left, .. } => key_left,
                _ => None,
            };
            &&& left matches Some(l) ==> l.len() == 32 && forall|i: int|
                0 <= i < 32 ==> #[trigger] l[i] == 0
            &&& next is Done || next is Refused ==> (left is Some <==> key is Some)
        }),
{
}

/// A turn is written back as it was, field by field: joined to the session that was loaded, with
/// the answer that was given and what it cost.
pub proof fn law_turns_are_written_back_as_they_were(
    cfg: StateView,
    turn: TurnView,
    session: LoadedView,
    reply: ReplyView,
)
    ensures
        ({
            let commit = commit_of(cfg, turn, session, reply);
            &&& commit.session_id == turn.session_id
            &&& commit.request_id == turn.request_id
            &&& commit.user_address == turn.client_address
            &&& commit.model_id == cfg.model
            &&& commit.node_peer_id == cfg.node_peer_id
            &&& commit.new_user_message == turn.new_user_message
            &&& commit.assistant_reply == reply.content
            &&& commit.input_tokens == reply.prompt_tokens
            &&& commit.output_tokens == reply.completion_tokens
            &&& commit.latency_ms == reply.latency_ms
            &&& commit.cost_nanox == cfg.price_per_1k_nanox
            &&& commit.prior_messages == session.context.recent_messages
            &&& commit.prev_blob_id == session.prev_blob_id
            &&& commit.session_existed == session.existed
        }),
{
}

/// A session key is thirty-two bytes in base64, taken as they are; anything else is refused, and
/// the reason told apart. A body that leaves the key out has none.
pub proof fn law_keys_are_taken_as_they_are(text: Seq<char>)
    ensures
        body_key(None) == Ok::<Option<Seq<u8>>, SessionKeyErrorView>(None),
        base64_standard_decode(text) matches Ok(b) ==> (b.len() == 32 ==> body_key(Some(text))
            == Ok::<Option<Seq<u8>>, SessionKeyErrorView>(Some(b)) && key_in(
            base64_standard_decode(text),
        ) == Ok::<Seq<u8>, SessionKeyErrorView>(b)) && (b.len() != 32 ==> body_key(Some(text))
            == Err::<Option<Seq<u8>>, SessionKeyErrorView>(SessionKeyErrorView::WrongLength)
            && key_in(base64_standard_decode(text)) == Err::<Seq<u8>, SessionKeyErrorView>(
            SessionKeyErrorView::WrongLength,
        )),
        base64_standard_decode(text) matches Err(e) ==> body_key(Some(text)) == Err::<
            Option<Seq<u8>>,
            SessionKeyErrorView,
        >(SessionKeyErrorView::NotBase64(e)) && key_in(base64_standard_decode(text)) == Err::<
            Seq<u8>,
            SessionKeyErrorView,
        >(SessionKeyErrorView::NotBase64(e)),
{
}

/// What the contracts read of requests, turns and answers is all there is to them.
pub proof fn law_turns_in_full(
    cfg: State,
    req: InferenceReq,
    turn: Turn,
    response: InferenceResp,
    error: ErrorResponse,
    key: [u8; 32],
)
    ensures
        cfg@.ollama_url == cfg.ollama_url@,
        cfg@.model == cfg.model@,
        cfg@.node_peer_id == cfg.node_peer_id@,
        cfg@.price_per_1k_nanox == cfg.price_per_1k_nanox,
        cfg@.coord_pubkey == cfg.coord_pubkey@,
        cfg@.stateful == cfg.stateful,
        req@.new_user_message == req.new_user_message@,
        req@.request_id == req.dispatch_token.request_id,
        req@.token_session_id == req.dispatch_token.session_id,
        req@.client_pubkey == req.dispatch_token.client_pubkey@,
        req@.coordinator_pubkey == req.dispatch_token.coordinator_pubkey@,
        req@.session_id == req.session_id,
        req@.session_key == key_bytes(req.session_key),
        req@.memory == string_view(req.memwal_context),
        turn@.request_id == turn.request_id,
        turn@.session_id == turn.session_id,
        turn@.named_session_id == turn.named_session_id,
        turn@.client_address == turn.client_address@,
        turn@.new_user_message == turn.new_user_message@,
        turn@.session_key == key_bytes(turn.session_key),
        turn@.memory == string_view(turn.memory),
        response@.request_id == response.request_id,
        response@.session_id == response.session_id,
        response@.content == response.content@,
        response@.input_tokens == response.input_tokens,
        response@.output_tokens == response.output_tokens,
        response@.latency_ms == response.latency_ms,
        error@.status == error.status,
        error@.message == error.message@,
        key_bytes(Some(key)) == Some(key@),
        key_bytes(None) is None,
{
}

/// What the contracts read of a stage and of an event is all there is to them.
pub proof fn law_stages_in_full(job: Job, event: JobEvent)
    ensures
        job matches Job::VerifyToken { turn } ==> job@ == (JobView::VerifyToken { turn: turn@ }),
        job matches Job::LoadContext { turn } ==> job@ == (JobView::LoadContext { turn: turn@ }),
        job matches Job::Chat { turn, loaded, assembled } ==> (job@ matches JobView::Chat {
            turn: t,
            loaded: l,
            assembled: a,
        } && t == turn@ && a == assembled@ && (loaded matches Some(s) ==> l == Some(s@)) && (
        loaded is None ==> l is None)),
        job matches Job::Persist { turn, session, reply } ==> job@ == (JobView::Persist {
            turn: turn@,
            session: session@,
            reply: reply@,
        }),
        job matches Job::Done { response, proof, key_left } ==> job@ == (JobView::Done {
            response: response@,
            proof: proof@,
            key_left: key_bytes(key_left),
        }),
        job matches Job::Refused { error, key_left } ==> job@ == (JobView::Refused {
            error: error@,
            key_left: key_bytes(key_left),
        }),
        event matches JobEvent::Verified(r) ==> (event@ matches EventView::Verified(v) && (r is Ok
            <==> v is Ok) && (r matches Err(e) ==> v->Err_0 == e@)),
        event matches JobEvent::Loaded(r) ==> (event@ matches EventView::Loaded(v) && (r matches Ok(
            l,
        ) ==> v == Ok::<LoadedView, Seq<char>>(l@)) && (r matches Err(e) ==> v == Err::<
            LoadedView,
            Seq<char>,
        >(e@))),
        event matches JobEvent::Answered(r) ==> (event@ matches EventView::Answered(v) && (
        r matches Ok(a) ==> v == Ok::<ReplyView, Seq<char>>(a@)) && (r matches Err(e) ==> v
            == Err::<ReplyView, Seq<char>>(e@))),
        event matches JobEvent::Persisted(b) ==> event@ == EventView::Persisted(b),
{
}

/// What the contracts read of a session key, or of why there is none, is all there is to it.
pub proof fn law_key_results_in_full(key: [u8; 32], error: SessionKeyError)
    ensures
        error matches SessionKeyError::NotBase64(e) ==> error@ == SessionKeyErrorView::NotBase64(
            e@,
        ),
        error is WrongLength ==> error@ is WrongLength,
        key_result_view(Ok(key)) == Ok::<Seq<u8>, SessionKeyErrorView>(key@),
        key_result_view(Err(error)) == Err::<Seq<u8>, SessionKeyErrorView>(error@),
        body_key_view(Ok(Some(key))) == Ok::<Option<Seq<u8>>, SessionKeyErrorView>(Some(key@)),
        body_key_view(Ok(None)) == Ok::<Option<Seq<u8>>, SessionKeyErrorView>(None),
        body_key_view(Err(error)) == Err::<Option<Seq<u8>>, SessionKeyErrorView>(error@),
{
}

} // verus!
