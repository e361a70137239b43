//! The node's part in the coordinator's mesh.
//!
//! The node announces itself once the coordinator has been connected for a moment, and then at
//! every tick. It bids on the requests that are published, runs the jobs that are dispatched to
//! it, and reports each finished job with an acknowledgement whose outcome it follows.
//!
//! The event loop takes its decisions here: from what happened to what is to be done. The swarm,
//! the clock and the channels are on the outside. Outgoing acknowledgements and the places where
//! replies go are numbers here.

use crate::bidder::{bid_for, bid_of, build_bid, capabilities, capabilities_of, warmup_bid, BidConfig,
    BidConfigView, BidView, CapabilitiesView, InferenceBid, InferenceRequest, NodeCapabilities};
use crate::completion::{AckView, CompletionAck};
use crate::context::assemble::{budget_for, law_assembly_is_unique};
use crate::context::string_view;
use crate::encoding::base64_standard_decode;
use crate::http::{admissible, body_key_view, context_of, decode_session_key, is_run, is_step, key_in,
    law_the_answer_is_the_models, law_a_turn_keeps_to_its_request, objection, turn_of, DispatchToken,
    ErrorResponse, ErrorView, EventView, InferenceReq, InferenceResp, JobView, ReqView, RespView,
    SessionKeyError, SessionKeyErrorView, State, StateView, TurnView};
use crate::inflight::Inflight;
use crate::text::join;
use std::collections::HashMap;
use vstd::prelude::*;
use vstd::std_specs::hash::group_hash_axioms;

verus! {

broadcast use group_hash_axioms;

/// How long after the coordinator has connected the node announces itself.
pub const ANNOUNCE_DELAY_MS: u128 = 3000;

/// How often the node announces itself after that.
pub const ANNOUNCE_INTERVAL_MS: u64 = 30000;

/// How long an idle connection is kept.
pub const IDLE_TIMEOUT_MS: u64 = 60000;

/// How many commands may wait for the event loop.
pub const COMMAND_QUEUE: usize = 32;

/// What the node was started with.
pub struct Config {
    pub model: String,
    pub price_per_1k_nanox: u64,
    /// The latency that bids promise.
    pub latency_ms: u32,
    /// The reputation that bids claim, in hundredths.
    pub reputation_percent: u8,
    pub advertise_url: String,
    /// The address that every bid names for payouts.
    pub payout_address: String,
    pub ollama_url: String,
    pub coord_pubkey: [u8; 32],
    /// Whether database and blob storage are there.
    pub stateful: bool,
}

/// What the bids of a node say.
pub open spec fn bids_as(cfg: Config, peer_id: Seq<char>) -> BidConfigView {
    BidConfigView {
        model: cfg.model@,
        node_peer_id: peer_id,
        price_per_1k_nanox: cfg.price_per_1k_nanox,
        latency_ms: cfg.latency_ms,
        reputation_percent: cfg.reputation_percent,
        http_endpoint: cfg.advertise_url@,
        payout_address: cfg.payout_address@,
    }
}

/// What the turns of a node go by.
pub open spec fn serves_as(cfg: Config, peer_id: Seq<char>) -> StateView {
    StateView {
        ollama_url: cfg.ollama_url@,
        model: cfg.model@,
        node_peer_id: peer_id,
        price_per_1k_nanox: cfg.price_per_1k_nanox,
        coord_pubkey: cfg.coord_pubkey@,
        stateful: cfg.stateful,
    }
}

/// What the node offers under the identity `peer_id`.
pub fn bid_config(cfg: &Config, peer_id: &str) -> (r: BidConfig)
    ensures
        r@ == bids_as(*cfg, peer_id@),
{
    BidConfig {
        model: cfg.model.clone(),
        node_peer_id: peer_id.to_owned(),
        price_per_1k_nanox: cfg.price_per_1k_nanox,
        latency_ms: cfg.latency_ms,
        reputation_percent: cfg.reputation_percent,
        http_endpoint: cfg.advertise_url.clone(),
        payout_address: cfg.payout_address.clone(),
    }
}

/// What both ways into the node, over the mesh and over HTTP, serve turns with.
pub fn serving_state(cfg: Config, peer_id: &str) -> (r: State)
    ensures
        r@ == serves_as(cfg, peer_id@),
{
    State {
        ollama_url: cfg.ollama_url,
        model: cfg.model,
        node_peer_id: peer_id.to_owned(),
        price_per_1k_nanox: cfg.price_per_1k_nanox,
        coord_pubkey: cfg.coord_pubkey,
        stateful: cfg.stateful,
    }
}

/// A part of a network address.
pub enum Protocol {
    /// The identity of a peer.
    P2p(String),
    /// Anything else: a host, a port, a transport.
    Other,
}

/// The identity that an address ends with, if it ends with one.
pub open spec fn suffix_peer(parts: Seq<Protocol>) -> Option<Seq<char>> {
    if parts.len() == 0 {
        None
    } else {
        match parts.last() {
            Protocol::P2p(peer) => Some(peer@),
            Protocol::Other => None,
        }
    }
}

/// The peer that an address leads to: the one that it ends with. Peers on the way, such as a
/// relay, are not meant.
pub fn peer_id_from_multiaddr(parts: &[Protocol]) -> (r: Option<String>)
    ensures
        string_view(r) == suffix_peer(parts@),
{
    let n: usize = parts.len();
    if n == 0 {
        return None;
    }
    match &parts[n - 1] {
        Protocol::P2p(peer) => Some(peer.clone()),
        Protocol::Other => None,
    }
}

pub open spec fn peer_result_view(r: Result<String, String>) -> Result<Seq<char>, Seq<char>> {
    match r {
        Ok(peer) => Ok(peer@),
        Err(e) => Err(e@),
    }
}

/// The coordinator's identity, which its address must end with.
pub fn coordinator_peer(parts: &[Protocol]) -> (r: Result<String, String>)
    ensures
        peer_result_view(r) == (match suffix_peer(parts@) {
            Some(peer) => Ok::<Seq<char>, Seq<char>>(peer),
            None => Err("coordinator_addr must end with /p2p/<peer_id>"@),
        }),
{
    match peer_id_from_multiaddr(parts) {
        Some(peer) => Ok(peer),
        None => Err(String::from_str("coordinator_addr must end with /p2p/<peer_id>")),
    }
}

/// A job that is dispatched over the mesh.
pub struct InferenceDispatch {
    pub dispatch_token: DispatchToken,
    /// The session key in base64, or nothing.
    pub session_key: String,
    pub new_user_message: String,
    pub memwal_context: Option<String>,
}

#[verifier::ext_equal]
pub struct DispatchView {
    pub request_id: u128,
    pub session_id: u128,
    pub client_pubkey: Seq<u8>,
    pub coordinator_pubkey: Seq<u8>,
    pub session_key: Seq<char>,
    pub new_user_message: Seq<char>,
    pub memory: Option<Seq<char>>,
}

impl View for InferenceDispatch {
    type V = DispatchView;

    open spec fn view(&self) -> DispatchView {
        DispatchView {
            request_id: self.dispatch_token.request_id,
            session_id: self.dispatch_token.session_id,
            client_pubkey: self.dispatch_token.client_pubkey@,
            coordinator_pubkey: self.dispatch_token.coordinator_pubkey@,
            session_key: self.session_key@,
            new_user_message: self.new_user_message@,
            memory: string_view(self.memwal_context),
        }
    }
}

/// The answer to a dispatched job.
#[derive(Debug)]
pub struct InferenceReply {
    pub request_id: u128,
    pub session_id: u128,
    pub content: String,
    pub input_tokens: u32,
    pub output_tokens: u32,
    pub latency_ms: u32,
    pub error: Option<String>,
}

#[verifier::ext_equal]
pub struct InferenceReplyView {
    pub request_id: u128,
    pub session_id: u128,
    pub content: Seq<char>,
    pub input_tokens: u32,
    pub output_tokens: u32,
    pub latency_ms: u32,
    pub error: Option<Seq<char>>,
}

impl View for InferenceReply {
    type V = InferenceReplyView;

    open spec fn view(&self) -> InferenceReplyView {
        InferenceReplyView {
            request_id: self.request_id,
            session_id: self.session_id,
            content: self.content@,
            input_tokens: self.input_tokens,
            output_tokens: self.output_tokens,
            latency_ms: self.latency_ms,
            error: string_view(self.error),
        }
    }
}

/// The answer to a job that failed.
pub open spec fn failed(
    request_id: u128,
    session_id: u128,
    error: Seq<char>,
) -> InferenceReplyView {
    InferenceReplyView {
        request_id,
        session_id,
        content: Seq::empty(),
        input_tokens: 0,
        output_tokens: 0,
        latency_ms: 0,
        error: Some(error),
    }
}

/// The answer to a job that was done.
pub open spec fn served(response: RespView) -> InferenceReplyView {
    InferenceReplyView {
        request_id: response.request_id,
        session_id: response.session_id,
        content: response.content,
        input_tokens: response.input_tokens,
        output_tokens: response.output_tokens,
        latency_ms: response.latency_ms,
        error: None,
    }
}

fn failure(request_id: u128, session_id: u128, error: String) -> (r: InferenceReply)
    ensures
        r@ == failed(request_id, session_id, error@),
{
    let content = String::new();
    let r = InferenceReply {
        request_id,
        session_id,
        content,
        input_tokens: 0,
        output_tokens: 0,
        latency_ms: 0,
        error: Some(error),
    };
    assert(r@ =~= failed(request_id, session_id, error@));
    r
}

/// What is wrong with the key of a dispatch, in words.
pub open spec fn dispatch_key_error(e: SessionKeyErrorView) -> Seq<char> {
    match e {
        SessionKeyErrorView::NotBase64(reason) => "session_key not valid base64: "@ + reason,
        SessionKeyErrorView::WrongLength => "session_key must decode to 32 bytes"@,
    }
}

/// The key that a dispatch gives. Nothing at all stands for no key.
pub open spec fn dispatch_key(text: Seq<char>) -> Result<Option<Seq<u8>>, SessionKeyErrorView> {
    if text.len() == 0 {
        Ok(None)
    } else {
        match key_in(base64_standard_decode(text)) {
            Ok(k) => Ok(Some(k)),
            Err(e) => Err(e),
        }
    }
}

/// The turn that a dispatch asks for, with the key that was read from it. A dispatch names no
/// session beside its token.
pub open spec fn request_of(d: DispatchView, session_key: Option<Seq<u8>>) -> ReqView {
    ReqView {
        new_user_message: d.new_user_message,
        request_id: d.request_id,
        token_session_id: d.session_id,
        client_pubkey: d.client_pubkey,
        coordinator_pubkey: d.coordinator_pubkey,
        session_id: None,
        session_key,
        memory: d.memory,
    }
}

/// What becomes of a dispatch, given what its key came to: a turn, or a failure at once.
pub open spec fn taken(
    d: DispatchView,
    key: Result<Option<Seq<u8>>, SessionKeyErrorView>,
) -> Result<ReqView, InferenceReplyView> {
    match key {
        Ok(k) => Ok(request_of(d, k)),
        Err(e) => Err(failed(d.request_id, d.session_id, dispatch_key_error(e))),
    }
}

pub open spec fn taken_view(r: Result<InferenceReq, InferenceReply>) -> Result<
    ReqView,
    InferenceReplyView,
> {
    match r {
        Ok(req) => Ok(req@),
        Err(reply) => Err(reply@),
    }
}

/// Takes a dispatch, given what its key came to.
pub fn take_dispatch(
    dispatch: InferenceDispatch,
    key: Result<Option<[u8; 32]>, SessionKeyError>,
) -> (r: Result<InferenceReq, InferenceReply>)
    ensures
        taken_view(r) == taken(dispatch@, body_key_view(key)),
{
    match key {
        Ok(session_key) => Ok(
            InferenceReq {
                new_user_message: dispatch.new_user_message,
                dispatch_token: dispatch.dispatch_token,
                session_id: None,
                session_key,
                memwal_context: dispatch.memwal_context,
            },
        ),
        Err(e) => {
            let message = match e {
                SessionKeyError::NotBase64(reason) => join(
                    "session_key not valid base64: ",
                    reason.as_str(),
                ),
                SessionKeyError::WrongLength => String::from_str(
                    "session_key must decode to 32 bytes",
                ),
            };
            Err(
                failure(
                    dispatch.dispatch_token.request_id,
                    dispatch.dispatch_token.session_id,
                    message,
                ),
            )
        },
    }
}

/// Takes a dispatch: reads its key, and makes it a turn or a failure at once.
pub fn run_dispatch(dispatch: InferenceDispatch) -> (r: Result<InferenceReq, InferenceReply>)
    ensures
        taken_view(r) == taken(dispatch@, dispatch_key(dispatch@.session_key)),
{
    let key: Result<Option<[u8; 32]>, SessionKeyError> = if dispatch.session_key.as_str().unicode_len()
        == 0 {
        Ok(None)
    } else {
        match decode_session_key(dispatch.session_key.as_str()) {
            Ok(k) => Ok(Some(k)),
            Err(e) => Err(e),
        }
    };
    take_dispatch(dispatch, key)
}

/// The reply to a dispatch, given how its turn ended.
pub open spec fn reply_for(
    request_id: u128,
    session_id: u128,
    outcome: Result<RespView, ErrorView>,
) -> InferenceReplyView {
    match outcome {
        Ok(response) => served(response),
        Err(e) => failed(request_id, session_id, e.message),
    }
}

pub open spec fn outcome_view(r: Result<InferenceResp, ErrorResponse>) -> Result<
    RespView,
    ErrorView,
> {
    match r {
        Ok(response) => Ok(response@),
        Err(e) => Err(e@),
    }
}

/// Replies to the dispatch of request `request_id` in session `session_id`.
pub fn dispatch_reply(
    request_id: u128,
    session_id: u128,
    outcome: Result<InferenceResp, ErrorResponse>,
) -> (r: InferenceReply)
    ensures
        r@ == reply_for(request_id, session_id, outcome_view(outcome)),
{
    match outcome {
        Ok(response) => InferenceReply {
            request_id: response.request_id,
            session_id: response.session_id,
            content: response.content,
            input_tokens: response.input_tokens,
            output_tokens: response.output_tokens,
            latency_ms: response.latency_ms,
            error: None,
        },
        Err(e) => failure(request_id, session_id, e.message),
    }
}

/// What the rest of the node asks of the event loop.
pub enum Command {
    /// Send an acknowledgement to the coordinator. Nobody waits for its outcome.
    SendCompletionAck(CompletionAck),
    /// Answer the dispatch that came with `channel`.
    SendInferenceReply { channel: u64, reply: InferenceReply },
}

/// What the event loop goes by.
pub struct Node {
    pub bids: BidConfig,
    /// The coordinator's identity.
    pub coordinator: String,
    /// The topic on which requests are published.
    pub requests_topic: String,
}

#[verifier::ext_equal]
pub struct NodeView {
    pub bids: BidConfigView,
    pub coordinator: Seq<char>,
    pub requests_topic: Seq<char>,
}

impl View for Node {
    type V = NodeView;

    open spec fn view(&self) -> NodeView {
        NodeView {
            bids: self.bids@,
            coordinator: self.coordinator@,
            requests_topic: self.requests_topic@,
        }
    }
}

/// What happens to the event loop. Times are milliseconds of a clock that never goes back.
pub enum MeshEvent {
    /// The loop comes round.
    Wake { now: u128 },
    /// The announcement that was asked for was published, or could not be.
    Announced { published: bool },
    /// It is time to announce the node again.
    Tick,
    /// A command came in.
    Asked(Command),
    /// No command will come in any more.
    CommandsClosed,
    /// The acknowledgement of `request_id` went out as number `ack`.
    AckSent { ack: u64, request_id: u128 },
    /// A peer connected.
    Connected { peer: String, now: u128 },
    /// A message was published, with the request that it holds if it holds one.
    Gossip { topic: String, request: Option<InferenceRequest> },
    /// The coordinator answered acknowledgement number `ack`.
    AckAnswered { ack: u64, accepted: bool, reason: Option<String> },
    /// Acknowledgement number `ack` did not reach the coordinator.
    AckFailed { ack: u64 },
    /// A job was dispatched. Its reply goes to `channel`.
    Dispatched { channel: u64, dispatch: InferenceDispatch },
    /// Anything else.
    Other,
}

#[verifier::ext_equal]
pub enum MeshEventView {
    Wake { now: u128 },
    Announced { published: bool },
    Tick,
    AskedToAck(AckView),
    AskedToReply { channel: u64, reply: InferenceReplyView },
    CommandsClosed,
    AckSent { ack: u64, request_id: u128 },
    Connected { peer: Seq<char>, now: u128 },
    Gossip { topic: Seq<char>, request: Option<(u128, Seq<char>)> },
    AckAnswered { ack: u64, accepted: bool, reason: Option<Seq<char>> },
    AckFailed { ack: u64 },
    Dispatched { channel: u64, dispatch: DispatchView },
    Other,
}

impl View for MeshEvent {
    type V = MeshEventView;

    open spec fn view(&self) -> MeshEventView {
        match self {
            MeshEvent::Wake { now } => MeshEventView::Wake { now: *now },
            MeshEvent::Announced { published } => MeshEventView::Announced {
                published: *published,
            },
            MeshEvent::Tick => MeshEventView::Tick,
            MeshEvent::Asked(Command::SendCompletionAck(ack)) => MeshEventView::AskedToAck(ack@),
            MeshEvent::Asked(
                Command::SendInferenceReply { channel, reply },
            ) => MeshEventView::AskedToReply { channel: *channel, reply: reply@ },
            MeshEvent::CommandsClosed => MeshEventView::CommandsClosed,
            MeshEvent::AckSent { ack, request_id } => MeshEventView::AckSent {
                ack: *ack,
                request_id: *request_id,
            },
            MeshEvent::Connected { peer, now } => MeshEventView::Connected {
                peer: peer@,
                now: *now,
            },
            MeshEvent::Gossip { topic, request } => MeshEventView::Gossip {
                topic: topic@,
                request: match request {
                    Some(r) => Some((r.request_id, r.model@)),
                    None => None,
                },
            },
            MeshEvent::AckAnswered { ack, accepted, reason } => MeshEventView::AckAnswered {
                ack: *ack,
                accepted: *accepted,
                reason: string_view(*reason),
            },
            MeshEvent::AckFailed { ack } => MeshEventView::AckFailed { ack: *ack },
            MeshEvent::Dispatched { channel, dispatch } => MeshEventView::Dispatched {
                channel: *channel,
                dispatch: dispatch@,
            },
            MeshEvent::Other => MeshEventView::Other,
        }
    }
}

/// How an acknowledgement fared. The request is known if the acknowledgement was ours.
#[derive(Debug)]
pub enum AckOutcome {
    Accepted { request_id: Option<u128> },
    Rejected { request_id: Option<u128>, reason: Option<String> },
    Undelivered { request_id: Option<u128> },
}

#[verifier::ext_equal]
pub enum AckOutcomeView {
    Accepted { request_id: Option<u128> },
    Rejected { request_id: Option<u128>, reason: Option<Seq<char>> },
    Undelivered { request_id: Option<u128> },
}

impl View for AckOutcome {
    type V = AckOutcomeView;

    open spec fn view(&self) -> AckOutcomeView {
        match self {
            AckOutcome::Accepted { request_id } => AckOutcomeView::Accepted {
                request_id: *request_id,
            },
            AckOutcome::Rejected { request_id, reason } => AckOutcomeView::Rejected {
                request_id: *request_id,
                reason: string_view(*reason),
            },
            AckOutcome::Undelivered { request_id } => AckOutcomeView::Undelivered {
                request_id: *request_id,
            },
        }
    }
}

/// What is to be done.
pub enum MeshAction {
    Nothing,
    /// Publish the node's capabilities, and report how that went.
    Announce(NodeCapabilities),
    /// Publish the node's capabilities once more.
    Reannounce(NodeCapabilities),
    /// Publish a bid on no request, which readies the topic for bids.
    WarmUp(InferenceBid),
    /// Publish a bid.
    Bid(InferenceBid),
    /// Send an acknowledgement to the coordinator, and report its number.
    SendAck(CompletionAck),
    /// Answer the dispatch that came with `channel`.
    SendReply { channel: u64, reply: InferenceReply },
    /// Run a dispatched job, off the loop. Its reply comes back as a command.
    Run { channel: u64, dispatch: InferenceDispatch },
    /// Log how an acknowledgement fared.
    Report(AckOutcome),
    /// Leave the loop.
    Stop,
}

#[verifier::ext_equal]
pub enum MeshActionView {
    Nothing,
    Announce(CapabilitiesView),
    Reannounce(CapabilitiesView),
    WarmUp(BidView),
    Bid(BidView),
    SendAck(AckView),
    SendReply { channel: u64, reply: InferenceReplyView },
    Run { channel: u64, dispatch: DispatchView },
    Report(AckOutcomeView),
    Stop,
}

impl View for MeshAction {
    type V = MeshActionView;

    open spec fn view(&self) -> MeshActionView {
        match self {
            MeshAction::Nothing => MeshActionView::Nothing,
            MeshAction::Announce(c) => MeshActionView::Announce(c@),
            MeshAction::Reannounce(c) => MeshActionView::Reannounce(c@),
            MeshAction::WarmUp(b) => MeshActionView::WarmUp(b@),
            MeshAction::Bid(b) => MeshActionView::Bid(b@),
            MeshAction::SendAck(a) => MeshActionView::SendAck(a@),
            MeshAction::SendReply { channel, reply } => MeshActionView::SendReply {
                channel: *channel,
                reply: reply@,
            },
            MeshAction::Run { channel, dispatch } => MeshActionView::Run {
                channel: *channel,
                dispatch: dispatch@,
            },
            MeshAction::Report(o) => MeshActionView::Report(o@),
            MeshAction::Stop => MeshActionView::Stop,
        }
    }
}

/// What the event loop remembers.
pub struct EventLoop {
    announced: bool,
    coordinator_since: Option<u128>,
    pending_acks: HashMap<u64, u128>,
}

#[verifier::ext_equal]
pub struct LoopView {
    /// Whether the node has announced itself.
    pub announced: bool,
    /// When the coordinator last connected, while an announcement is due because of it.
    pub coordinator_since: Option<u128>,
    /// The requests whose acknowledgements are under way, by the acknowledgement's number.
    pub pending_acks: Map<u64, u128>,
}

impl View for EventLoop {
    type V = LoopView;

    closed spec fn view(&self) -> LoopView {
        LoopView {
            announced: self.announced,
            coordinator_since: self.coordinator_since,
            pending_acks: self.pending_acks@,
        }
    }
}

/// A loop that nothing has happened to.
pub open spec fn fresh_loop() -> LoopView {
    LoopView { announced: false, coordinator_since: None, pending_acks: Map::empty() }
}

/// Whether the moment after the coordinator's connection has passed.
pub open spec fn announcement_due(l: LoopView, now: u128) -> bool {
    l.coordinator_since matches Some(since) && now >= since + ANNOUNCE_DELAY_MS
}

/// The request whose acknowledgement has this number.
pub open spec fn acked(l: LoopView, ack: u64) -> Option<u128> {
    if l.pending_acks.contains_key(ack) {
        Some(l.pending_acks[ack])
    } else {
        None
    }
}

/// The bid on a published message: there is one if the message stands on the topic for requests
/// and holds a request that the node bids on.
pub open spec fn bid_on(
    node: NodeView,
    topic: Seq<char>,
    request: Option<(u128, Seq<char>)>,
) -> Option<BidView> {
    match request {
        Some(r) => if topic == node.requests_topic {
            bid_for(node.bids, r.0, r.1)
        } else {
            None
        },
        None => None,
    }
}

/// What the loop remembers after an event.
pub open spec fn loop_after(node: NodeView, l: LoopView, event: MeshEventView) -> LoopView {
    match event {
        MeshEventView::Wake { now } => if announcement_due(l, now) {
            LoopView { coordinator_since: None, ..l }
        } else {
            l
        },
        MeshEventView::Announced { published } => LoopView {
            announced: l.announced || published,
            ..l
        },
        MeshEventView::AckSent { ack, request_id } => LoopView {
            pending_acks: l.pending_acks.insert(ack, request_id),
            ..l
        },
        MeshEventView::Connected { peer, now } => if peer == node.coordinator && !l.announced {
            LoopView { coordinator_since: Some(now), ..l }
        } else {
            l
        },
        MeshEventView::AckAnswered { ack, .. } => LoopView {
            pending_acks: l.pending_acks.remove(ack),
            ..l
        },
        MeshEventView::AckFailed { ack } => LoopView {
            pending_acks: l.pending_acks.remove(ack),
            ..l
        },
        _ => l,
    }
}

/// The bids that stand after an event: a bid stands before it is published.
pub open spec fn bids_after(
    node: NodeView,
    bids: Set<u128>,
    event: MeshEventView,
) -> Set<u128> {
    match event {
        MeshEventView::Gossip { topic, request } => match bid_on(node, topic, request) {
            Some(bid) => bids.insert(bid.request_id),
            None => bids,
        },
        _ => bids,
    }
}

/// What an event calls for.
pub open spec fn action_on(node: NodeView, l: LoopView, event: MeshEventView) -> MeshActionView {
    match event {
        MeshEventView::Wake { now } => if announcement_due(l, now) {
            MeshActionView::Announce(capabilities_of(node.bids))
        } else {
            MeshActionView::Nothing
        },
        MeshEventView::Announced { published } => if published {
            MeshActionView::WarmUp(bid_of(node.bids, 0, 0, 0))
        } else {
            MeshActionView::Nothing
        },
        MeshEventView::Tick => if l.announced {
            MeshActionView::Reannounce(capabilities_of(node.bids))
        } else {
            MeshActionView::Nothing
        },
        MeshEventView::AskedToAck(ack) => MeshActionView::SendAck(ack),
        MeshEventView::AskedToReply { channel, reply } => MeshActionView::SendReply {
            channel,
            reply,
        },
        MeshEventView::CommandsClosed => MeshActionView::Stop,
        MeshEventView::AckSent { .. } => MeshActionView::Nothing,
        MeshEventView::Connected { .. } => MeshActionView::Nothing,
        MeshEventView::Gossip { topic, request } => match bid_on(node, topic, request) {
            Some(bid) => MeshActionView::Bid(bid),
            None => MeshActionView::Nothing,
        },
        MeshEventView::AckAnswered { ack, accepted, reason } => MeshActionView::Report(
            if accepted {
                AckOutcomeView::Accepted { request_id: acked(l, ack) }
            } else {
                AckOutcomeView::Rejected { request_id: acked(l, ack), reason }
            },
        ),
        MeshEventView::AckFailed { ack } => MeshActionView::Report(
            AckOutcomeView::Undelivered { request_id: acked(l, ack) },
        ),
        MeshEventView::Dispatched { channel, dispatch } => MeshActionView::Run {
            channel,
            dispatch,
        },
        MeshEventView::Other => MeshActionView::Nothing,
    }
}

impl EventLoop {
    pub fn new() -> (r: Self)
        ensures
            r@ == fresh_loop(),
    {
        let r = EventLoop {
            announced: false,
            coordinator_since: None,
            pending_acks: HashMap::new(),
        };
        assert(r@ =~= fresh_loop());
        r
    }

    /// Whether ticks are to be waited for.
    pub fn announced(&self) -> (r: bool)
        ensures
            r == self@.announced,
    {
        self.announced
    }

    fn take_ack(&mut self, ack: u64) -> (r: Option<u128>)
        ensures
            r == acked(old(self)@, ack),
            final(self)@ == (LoopView {
                pending_acks: old(self)@.pending_acks.remove(ack),
                ..old(self)@
            }),
    {
        self.pending_acks.remove(&ack)
    }

    /// Takes note of an event, and says what it calls for.
    pub fn step(&mut self, node: &Node, inflight: &mut Inflight, event: MeshEvent) -> (r:
        MeshAction)
        ensures
            final(self)@ == loop_after(node@, old(self)@, event@),
            final(inflight)@ == bids_after(node@, old(inflight)@, event@),
            r@ == action_on(node@, old(self)@, event@),
    {
        match event {
            MeshEvent::Wake { now } => {
                let due: bool = match self.coordinator_since {
                    Some(since) => now >= since && now - since >= ANNOUNCE_DELAY_MS,
                    None => false,
                };
                if due {
                    self.coordinator_since = None;
                    MeshAction::Announce(capabilities(&node.bids))
                } else {
                    MeshAction::Nothing
                }
            },
            MeshEvent::Announced { published } => if published {
                self.announced = true;
                MeshAction::WarmUp(warmup_bid(&node.bids))
            } else {
                MeshAction::Nothing
            },
            MeshEvent::Tick => if self.announced {
                MeshAction::Reannounce(capabilities(&node.bids))
            } else {
                MeshAction::Nothing
            },
            MeshEvent::Asked(Command::SendCompletionAck(ack)) => MeshAction::SendAck(ack),
            MeshEvent::Asked(
                Command::SendInferenceReply { channel, reply },
            ) => MeshAction::SendReply { channel, reply },
            MeshEvent::CommandsClosed => MeshAction::Stop,
            MeshEvent::AckSent { ack, request_id } => {
                self.pending_acks.insert(ack, request_id);
                MeshAction::Nothing
            },
            MeshEvent::Connected { peer, now } => {
                if peer == node.coordinator && !self.announced {
                    self.coordinator_since = Some(now);
                }
                MeshAction::Nothing
            },
            MeshEvent::Gossip { topic, request } => match request {
                Some(req) => {
                    if topic == node.requests_topic {
                        match build_bid(&req, &node.bids) {
                            Some(bid) => {
                                inflight.record_bid(req.request_id);
                                MeshAction::Bid(bid)
                            },
                            None => MeshAction::Nothing,
                        }
                    } else {
                        MeshAction::Nothing
                    }
                },
                None => MeshAction::Nothing,
            },
            MeshEvent::AckAnswered { ack, accepted, reason } => {
                let request_id: Option<u128> = self.take_ack(ack);
                if accepted {
                    MeshAction::Report(AckOutcome::Accepted { request_id })
                } else {
                    MeshAction::Report(AckOutcome::Rejected { request_id, reason })
                }
            },
            MeshEvent::AckFailed { ack } => {
                let request_id: Option<u128> = self.take_ack(ack);
                MeshAction::Report(AckOutcome::Undelivered { request_id })
            },
            MeshEvent::Dispatched { channel, dispatch } => MeshAction::Run { channel, dispatch },
            MeshEvent::Other => MeshAction::Nothing,
        }
    }
}

/// What the loop remembers after a series of events.
pub open spec fn loop_of(node: NodeView, events: Seq<MeshEventView>) -> LoopView
    decreases events.len(),
{
    if events.len() == 0 {
        fresh_loop()
    } else {
        loop_after(node, loop_of(node, events.drop_last()), events.last())
    }
}

/// Whether an event is the report that an announcement was published.
pub open spec fn is_announcement(event: MeshEventView) -> bool {
    event == (MeshEventView::Announced { published: true })
}

/// Whether an event sends or settles the acknowledgement with number `ack`.
pub open spec fn concerns_ack(event: MeshEventView, ack: u64) -> bool {
    match event {
        MeshEventView::AckSent { ack: a, .. } => a == ack,
        MeshEventView::AckAnswered { ack: a, .. } => a == ack,
        MeshEventView::AckFailed { ack: a } => a == ack,
        _ => false,
    }
}

/// The node counts as announced from when an announcement was published, for good.
pub proof fn law_announced_once_published(node: NodeView, events: Seq<MeshEventView>)
    ensures
        loop_of(node, events).announced <==> exists|i: int|
            0 <= i < events.len() && is_announcement(#[trigger] events[i]),
    decreases events.len(),
{
    if events.len() > 0 {
        let e = events.drop_last();
        law_announced_once_published(node, e);
        if loop_of(node, e).announced {
            let i = choose|i: int| 0 <= i < e.len() && is_announcement(#[trigger] e[i]);
            assert(is_announcement(events[i]));
        }
        if exists|i: int| 0 <= i < events.len() && is_announcement(#[trigger] events[i]) {
            let i = choose|i: int| 0 <= i < events.len() && is_announcement(#[trigger] events[i]);
            if i < e.len() {
                assert(is_announcement(e[i]));
            }
        }
    }
}

/// Whether the coordinator connected with event number `i`, at time `since`, before the node was
/// announced.
pub open spec fn connects(
    node: NodeView,
    events: Seq<MeshEventView>,
    i: int,
    since: u128,
) -> bool {
    &&& 0 <= i < events.len()
    &&& events[i] == (MeshEventView::Connected { peer: node.coordinator, now: since })
    &&& !loop_of(node, events.subrange(0, i)).announced
}

/// The node announces itself only after the coordinator has connected, and then only once the
/// delay has passed since.
pub proof fn law_announcement_follows_the_coordinator(
    node: NodeView,
    events: Seq<MeshEventView>,
    now: u128,
)
    ensures
        loop_of(node, events).coordinator_since matches Some(since) ==> exists|i: int|
            connects(node, events, i, since),
        action_on(node, loop_of(node, events), MeshEventView::Wake { now }) is Announce ==> exists|
            i: int,
            since: u128,
        |
            connects(node, events, i, since) && now >= since + ANNOUNCE_DELAY_MS,
    decreases events.len(),
{
    let l = loop_of(node, events);
    if events.len() > 0 {
        let e = events.drop_last();
        let n = e.len() as int;
        law_announcement_follows_the_coordinator(node, e, now);
        if l.coordinator_since is Some {
            let since = l.coordinator_since->0;
            if loop_of(node, e).coordinator_since == l.coordinator_since {
                let i = choose|i: int| connects(node, e, i, since);
                assert(events.subrange(0, i) =~= e.subrange(0, i));
                assert(connects(node, events, i, since));
            } else {
                assert(events.subrange(0, n) =~= e);
                assert(connects(node, events, n, since));
            }
        }
    }
    if action_on(node, l, MeshEventView::Wake { now }) is Announce {
        let since = l.coordinator_since->0;
        let i = choose|i: int| connects(node, events, i, since);
        assert(connects(node, events, i, since) && now >= since + ANNOUNCE_DELAY_MS);
    }
}

/// An acknowledgement is known by the request that it was sent for until it is settled, and
/// unknown from then on.
pub proof fn law_acks_are_settled_once(
    node: NodeView,
    before: Seq<MeshEventView>,
    ack: u64,
    request_id: u128,
    between: Seq<MeshEventView>,
    settling: MeshEventView,
)
    requires
        forall|i: int| 0 <= i < between.len() ==> !concerns_ack(#[trigger] between[i], ack),
        settling is AckAnswered || settling is AckFailed,
        concerns_ack(settling, ack),
    ensures
        ({
            let sent = before.push(MeshEventView::AckSent { ack, request_id }) + between;
            &&& acked(loop_of(node, sent), ack) == Some(request_id)
            &&& acked(loop_of(node, sent.push(settling)), ack) is None
            &&& action_on(node, loop_of(node, sent), settling) matches MeshActionView::Report(o)
                && match o {
                AckOutcomeView::Accepted { request_id: r } => r == Some(request_id),
                AckOutcomeView::Rejected { request_id: r, .. } => r == Some(request_id),
                AckOutcomeView::Undelivered { request_id: r } => r == Some(request_id),
            }
        }),
    decreases between.len(),
{
    let first = before.push(MeshEventView::AckSent { ack, request_id });
    let sent = first + between;
    if between.len() == 0 {
        assert(sent =~= first);
        assert(first.drop_last() =~= before);
    } else {
        let b = between.drop_last();
        law_acks_are_settled_once(node, before, ack, request_id, b, settling);
        assert(sent.drop_last() =~= first + b);
        assert(!concerns_ack(between[between.len() - 1], ack));
    }
    assert(sent.push(settling).drop_last() =~= sent);
}

/// Every bid that is published stands among the node's bids, and answers the request that it was
/// published for.
pub proof fn law_published_bids_stand(
    node: NodeView,
    l: LoopView,
    bids: Set<u128>,
    event: MeshEventView,
)
    ensures
        bids.subset_of(bids_after(node, bids, event)),
        action_on(node, l, event) matches MeshActionView::Bid(bid) ==> {
            &&& bids_after(node, bids, event) == bids.insert(bid.request_id)
            &&& event == (MeshEventView::Gossip {
                topic: node.requests_topic,
                request: Some((bid.request_id, node.bids.model)),
            })
        },
        action_on(node, l, event) !is Bid ==> bids_after(node, bids, event) == bids,
{
}

/// A request that the node has just bid on can be dispatched to it: nothing stands against a
/// turn whose token is good, that names no other session and that brings a key if one is needed.
pub proof fn law_a_bid_admits_its_dispatch(
    node: NodeView,
    l: LoopView,
    bids: Set<u128>,
    event: MeshEventView,
    bid: BidView,
    cfg: StateView,
    req: ReqView,
)
    requires
        action_on(node, l, event) == MeshActionView::Bid(bid),
        req.request_id == bid.request_id,
        admissible(cfg, req),
    ensures
        objection(cfg, bids_after(node, bids, event), turn_of(req), Ok(())) is None,
{
}

/// A stage of a turn, whether or not its request named the session.
pub open spec fn however_named(job: JobView) -> JobView {
    match job {
        JobView::VerifyToken { turn } => JobView::VerifyToken { turn: unnamed(turn) },
        JobView::LoadContext { turn } => JobView::LoadContext { turn: unnamed(turn) },
        JobView::Chat { turn, loaded, assembled } => JobView::Chat {
            turn: unnamed(turn),
            loaded,
            assembled,
        },
        JobView::Persist { turn, session, reply } => JobView::Persist {
            turn: unnamed(turn),
            session,
            reply,
        },
        _ => job,
    }
}

pub open spec fn unnamed(turn: TurnView) -> TurnView {
    TurnView { named_session_id: None, ..turn }
}

/// A job that is dispatched over the mesh runs as the same job would over HTTP: through the same
/// stages, to the same end.
pub proof fn law_both_ways_in_run_alike(
    cfg: StateView,
    dispatch: DispatchView,
    key: Option<Seq<u8>>,
    bids: Seq<Set<u128>>,
    events: Seq<EventView>,
    over_mesh: Seq<JobView>,
    over_http: Seq<JobView>,
)
    requires
        is_run(cfg, request_of(dispatch, key), bids, events, over_mesh),
        is_run(
            cfg,
            (ReqView { session_id: Some(dispatch.session_id), ..request_of(dispatch, key) }),
            bids,
            events,
            over_http,
        ),
    ensures
        however_named(over_mesh.last()) == however_named(over_http.last()),
        over_http.last() is Done || over_http.last() is Refused ==> over_mesh.last()
            == over_http.last(),
    decreases events.len(),
{
    let req = request_of(dispatch, key);
    let named = ReqView { session_id: Some(dispatch.session_id), ..req };
    if events.len() > 0 {
        let n = events.len() - 1;
        let (b, e, m, h) = (
            bids.drop_last(),
            events.drop_last(),
            over_mesh.drop_last(),
            over_http.drop_last(),
        );
        assert forall|i: int| 0 <= i < e.len() implies #[trigger] is_step(cfg, b, e, m, i) by {
            assert(is_step(cfg, bids, events, over_mesh, i));
        }
        assert forall|i: int| 0 <= i < e.len() implies #[trigger] is_step(cfg, b, e, h, i) by {
            assert(is_step(cfg, bids, events, over_http, i));
        }
        law_both_ways_in_run_alike(cfg, dispatch, key, b, e, m, h);
        law_a_turn_keeps_to_its_request(cfg, req, b, e, m);
        law_a_turn_keeps_to_its_request(cfg, named, b, e, h);
        assert(is_step(cfg, bids, events, over_mesh, n));
        assert(is_step(cfg, bids, events, over_http, n));
        let (x, y) = (over_mesh.last(), over_http.last());
        if x is Chat && m.last() !is Chat {
            law_assembly_is_unique(
                context_of(x->loaded),
                req.new_user_message,
                budget_for(cfg.model),
                req.memory,
                x->assembled,
                y->assembled,
            );
        }
    }
}

/// The reply to a dispatch bears the dispatch's own numbers, and either an answer or an error.
pub proof fn law_replies_match_their_dispatch(
    cfg: StateView,
    dispatch: DispatchView,
    key: Option<Seq<u8>>,
    bids: Seq<Set<u128>>,
    events: Seq<EventView>,
    jobs: Seq<JobView>,
)
    requires
        is_run(cfg, request_of(dispatch, key), bids, events, jobs),
    ensures
        jobs.last() matches JobView::Done { response, .. } ==> ({
            let reply = reply_for(dispatch.request_id, dispatch.session_id, Ok(response));
            &&& reply.request_id == dispatch.request_id
            &&& reply.session_id == dispatch.session_id
            &&& reply.error is None
            &&& reply.content == response.content
        }),
        jobs.last() matches JobView::Refused { error, .. } ==> ({
            let reply = reply_for(dispatch.request_id, dispatch.session_id, Err(error));
            &&& reply.request_id == dispatch.request_id
            &&& reply.session_id == dispatch.session_id
            &&& reply.error == Some(error.message)
            &&& reply.content.len() == 0
        }),
{
    law_the_answer_is_the_models(cfg, request_of(dispatch, key), bids, events, jobs);
}

/// The node bids on every request for its model that is published on the topic for requests,
/// whatever its number, and on nothing else. Such a request calls for a bid of that number, and
/// the number is among the bids from then on.
pub proof fn law_every_request_for_its_model_gets_a_bid(
    node: NodeView,
    l: LoopView,
    bids: Set<u128>,
    topic: Seq<char>,
    request: Option<(u128, Seq<char>)>,
)
    ensures
        ({
            let event = MeshEventView::Gossip { topic, request };
            let wanted = topic == node.requests_topic && request is Some && (request->0).1
                == node.bids.model;
            &&& wanted <==> action_on(node, l, event) is Bid
            &&& wanted ==> (action_on(node, l, event) matches MeshActionView::Bid(bid)
                && bid.request_id == (request->0).0 && bid.node_peer_id == node.bids.node_peer_id
                && bid.price_per_1k == node.bids.price_per_1k_nanox && bid.latency_ms
                == node.bids.latency_ms && bid.reputation_percent == node.bids.reputation_percent
                && bid.http_endpoint == node.bids.http_endpoint && bid.payout_address
                == node.bids.payout_address)
            &&& wanted ==> bids_after(node, bids, event) == bids.insert((request->0).0)
            &&& !wanted ==> action_on(node, l, event) is Nothing && bids_after(node, bids, event)
                == bids
            &&& loop_after(node, l, event) == l
        }),
{
}

/// The coordinator's connection is answered with an announcement as soon as the loop comes round
/// three seconds later, and not before; other peers are not answered.
pub proof fn law_the_coordinator_is_answered(
    node: NodeView,
    l: LoopView,
    peer: Seq<char>,
    since: u128,
    now: u128,
)
    requires
        !l.announced,
    ensures
        ({
            let connected = loop_after(node, l, MeshEventView::Connected { peer, now: since });
            let wake = MeshEventView::Wake { now };
            &&& peer == node.coordinator ==> connected.coordinator_since == Some(since)
            &&& peer != node.coordinator ==> connected == l
            &&& peer == node.coordinator && now >= since + 3000 ==> (action_on(
                node,
                connected,
                wake,
            ) matches MeshActionView::Announce(caps) && caps.peer_id == node.bids.node_peer_id
                && caps.models == seq![node.bids.model] && caps.max_concurrent_jobs == 4)
            &&& peer == node.coordinator && now >= since + 3000 ==> loop_after(
                node,
                connected,
                wake,
            ).coordinator_since is None
            &&& peer == node.coordinator && now < since + 3000 ==> action_on(node, connected, wake)
                is Nothing && loop_after(node, connected, wake) == connected
            &&& connected.announced == l.announced
            &&& connected.pending_acks == l.pending_acks
            &&& action_on(node, l, MeshEventView::Connected { peer, now: since }) is Nothing
        }),
{
    assert(capabilities_of(node.bids).models =~= seq![node.bids.model]);
}

/// A published announcement is followed by the warm-up bid, on no request and without a promise,
/// and makes the node count as announced; one that failed is not, and does not. Ticks announce
/// the node again exactly while it counts as announced, and an announced node does not start over
/// when the coordinator connects again.
pub proof fn law_announcements_take_their_course(
    node: NodeView,
    l: LoopView,
    bids: Set<u128>,
    peer: Seq<char>,
    now: u128,
)
    ensures
        ({
            let published = MeshEventView::Announced { published: true };
            let failed = MeshEventView::Announced { published: false };
            &&& action_on(node, l, published) matches MeshActionView::WarmUp(bid)
                && bid.request_id == 0 && bid.latency_ms == 0 && bid.reputation_percent == 0
                && bid.node_peer_id == node.bids.node_peer_id && bid.payout_address
                == node.bids.payout_address && bid.price_per_1k == node.bids.price_per_1k_nanox
                && bid.http_endpoint == node.bids.http_endpoint
            &&& loop_after(node, l, published).announced
            &&& loop_after(node, l, published).pending_acks == l.pending_acks
            &&& loop_after(node, l, published).coordinator_since == l.coordinator_since
            &&& bids_after(node, bids, published) == bids
            &&& action_on(node, l, failed) is Nothing
            &&& loop_after(node, l, failed) == l
            &&& l.announced ==> (action_on(node, l, MeshEventView::Tick)
                matches MeshActionView::Reannounce(caps) && caps.peer_id == node.bids.node_peer_id
                && caps.models == seq![node.bids.model] && caps.max_concurrent_jobs == 4)
            &&& !l.announced ==> action_on(node, l, MeshEventView::Tick) is Nothing
            &&& loop_after(node, l, MeshEventView::Tick) == l
            &&& l.announced ==> loop_after(node, l, MeshEventView::Connected { peer, now }) == l
        }),
{
    assert(capabilities_of(node.bids).models =~= seq![node.bids.model]);
}

/// Commands and dispatches are passed on as they are, and touch nothing. The loop ends when, and
/// only when, no command can come any more.
pub proof fn law_commands_are_carried_out(
    node: NodeView,
    l: LoopView,
    bids: Set<u128>,
    ack: AckView,
    channel: u64,
    reply: InferenceReplyView,
    dispatch: DispatchView,
    event: MeshEventView,
)
    ensures
        action_on(node, l, MeshEventView::AskedToAck(ack)) == MeshActionView::SendAck(ack),
        action_on(node, l, MeshEventView::AskedToReply { channel, reply })
            == (MeshActionView::SendReply { channel, reply }),
        action_on(node, l, MeshEventView::Dispatched { channel, dispatch })
            == (MeshActionView::Run { channel, dispatch }),
        action_on(node, l, event) is Stop <==> event is CommandsClosed,
        event is AskedToAck || event is AskedToReply || event is Dispatched || event is Other
            || event is CommandsClosed ==> loop_after(node, l, event) == l,
        event !is Gossip ==> bids_after(node, bids, event) == bids,
        action_on(node, l, MeshEventView::Other) is Nothing,
{
}

/// An acknowledgement that was sent is noted under its number beside the others, and its answer
/// or its failure is reported for the request that it was noted for and takes it off again.
pub proof fn law_acks_are_noted_and_taken_off(
    node: NodeView,
    l: LoopView,
    ack: u64,
    request_id: u128,
    accepted: bool,
    reason: Option<Seq<char>>,
)
    ensures
        ({
            let sent = loop_after(node, l, MeshEventView::AckSent { ack, request_id });
            let answered = MeshEventView::AckAnswered { ack, accepted, reason };
            let lost = MeshEventView::AckFailed { ack };
            let known = if l.pending_acks.dom().contains(ack) {
                Some(l.pending_acks[ack])
            } else {
                None
            };
            &&& sent.pending_acks == l.pending_acks.insert(ack, request_id)
            &&& sent.announced == l.announced
            &&& sent.coordinator_since == l.coordinator_since
            &&& action_on(node, l, MeshEventView::AckSent { ack, request_id }) is Nothing
            &&& accepted ==> action_on(node, l, answered) == MeshActionView::Report(
                AckOutcomeView::Accepted { request_id: known },
            )
            &&& !accepted ==> action_on(node, l, answered) == MeshActionView::Report(
                AckOutcomeView::Rejected { request_id: known, reason },
            )
            &&& action_on(node, l, lost) == MeshActionView::Report(
                AckOutcomeView::Undelivered { request_id: known },
            )
            &&& loop_after(node, l, answered).pending_acks == l.pending_acks.remove(ack)
            &&& loop_after(node, l, answered).announced == l.announced
            &&& loop_after(node, l, answered).coordinator_since == l.coordinator_since
            &&& loop_after(node, l, lost) == loop_after(node, l, answered)
        }),
{
}

/// Nothing has happened to a fresh loop.
pub proof fn law_fresh_loops_know_nothing()
    ensures
        !fresh_loop().announced,
        fresh_loop().coordinator_since is None,
        forall|ack: u64| !#[trigger] fresh_loop().pending_acks.dom().contains(ack),
{
}

/// The identity of an address is the one that it ends with, whatever leads up to it; an address
/// that ends otherwise has none.
pub proof fn law_addresses_end_with_their_peer(way: Seq<Protocol>, peer: String)
    ensures
        suffix_peer(way.push(Protocol::P2p(peer))) == Some(peer@),
        suffix_peer(way.push(Protocol::Other)) is None,
        suffix_peer(Seq::empty()) is None,
{
}

/// Bids and turns go by what the node was started with, field by field, under its own identity.
pub proof fn law_configuration_is_kept_to(cfg: Config, peer_id: Seq<char>)
    ensures
        bids_as(cfg, peer_id).model == cfg.model@,
        bids_as(cfg, peer_id).node_peer_id == peer_id,
        bids_as(cfg, peer_id).price_per_1k_nanox == cfg.price_per_1k_nanox,
        bids_as(cfg, peer_id).latency_ms == cfg.latency_ms,
        bids_as(cfg, peer_id).reputation_percent == cfg.reputation_percent,
        bids_as(cfg, peer_id).http_endpoint == cfg.advertise_url@,
        bids_as(cfg, peer_id).payout_address == cfg.payout_address@,
        serves_as(cfg, peer_id).ollama_url == cfg.ollama_url@,
        serves_as(cfg, peer_id).model == cfg.model@,
        serves_as(cfg, peer_id).node_peer_id == peer_id,
        serves_as(cfg, peer_id).price_per_1k_nanox == cfg.price_per_1k_nanox,
        serves_as(cfg, peer_id).coord_pubkey == cfg.coord_pubkey@,
        serves_as(cfg, peer_id).stateful == cfg.stateful,
{
}

/// A dispatch becomes the turn that it asks for, field by field, with no session named beside its
/// token. A key that cannot be read fails it at once, under its own numbers and in words.
pub proof fn law_dispatches_become_turns(d: DispatchView, key: Option<Seq<u8>>, reason: Seq<char>)
    ensures
        taken(d, Ok(key)) matches Ok(req) && req.new_user_message == d.new_user_message
            && req.request_id == d.request_id && req.token_session_id == d.session_id
            && req.client_pubkey == d.client_pubkey && req.coordinator_pubkey
            == d.coordinator_pubkey && req.session_id is None && req.session_key == key
            && req.memory == d.memory,
        taken(d, Err(SessionKeyErrorView::WrongLength)) matches Err(reply) && reply.request_id
            == d.request_id && reply.session_id == d.session_id && reply.content.len() == 0
            && reply.error == Some("session_key must decode to 32 bytes"@),
        taken(d, Err(SessionKeyErrorView::NotBase64(reason))) matches Err(reply)
            && reply.request_id == d.request_id && reply.session_id == d.session_id
            && reply.content.len() == 0 && reply.error == Some(
            "session_key not valid base64: "@ + reason,
        ),
{
}

/// The key of a dispatch is thirty-two bytes in base64, taken as they are. Nothing at all stands
/// for no key, and anything else is refused.
pub proof fn law_dispatch_keys_are_taken_as_they_are(text: Seq<char>)
    ensures
        text.len() == 0 ==> dispatch_key(text) == Ok::<Option<Seq<u8>>, SessionKeyErrorView>(None),
        text.len() > 0 ==> (base64_standard_decode(text) matches Ok(b) ==> (b.len() == 32
            ==> dispatch_key(text) == Ok::<Option<Seq<u8>>, SessionKeyErrorView>(Some(b))) && (
        b.len() != 32 ==> dispatch_key(text) == Err::<Option<Seq<u8>>, SessionKeyErrorView>(
            SessionKeyErrorView::WrongLength,
        ))),
        text.len() > 0 ==> (base64_standard_decode(text) matches Err(e) ==> dispatch_key(text)
            == Err::<Option<Seq<u8>>, SessionKeyErrorView>(SessionKeyErrorView::NotBase64(e))),
{
}

/// A reply says what the turn came to, field by field: the answer and what it cost, without an
/// error; or the error, with nothing else.
pub proof fn law_replies_say_what_came_of_it(
    request_id: u128,
    session_id: u128,
    response: RespView,
    error: ErrorView,
)
    ensures
        ({
            let reply = reply_for(request_id, session_id, Ok(response));
            &&& reply.request_id == response.request_id
            &&& reply.session_id == response.session_id
            &&& reply.content == response.content
            &&& reply.input_tokens == response.input_tokens
            &&& reply.output_tokens == response.output_tokens
            &&& reply.latency_ms == response.latency_ms
            &&& reply.error is None
        }),
        ({
            let reply = reply_for(request_id, session_id, Err(error));
            &&& reply.request_id == request_id
            &&& reply.session_id == session_id
            &&& reply.content.len() == 0
            &&& reply.input_tokens == 0
            &&& reply.output_tokens == 0
            &&& reply.latency_ms == 0
            &&& reply.error == Some(error.message)
        }),
{
}

/// What the contracts read of dispatches, replies and the node is all there is to them.
pub proof fn law_dispatches_in_full(d: InferenceDispatch, reply: InferenceReply, node: Node)
    ensures
        d@.request_id == d.dispatch_token.request_id,
        d@.session_id == d.dispatch_token.session_id,
        d@.client_pubkey == d.dispatch_token.client_pubkey@,
        d@.coordinator_pubkey == d.dispatch_token.coordinator_pubkey@,
        d@.session_key == d.session_key@,
        d@.new_user_message == d.new_user_message@,
        d@.memory == string_view(d.memwal_context),
        reply@.request_id == reply.request_id,
        reply@.session_id == reply.session_id,
        reply@.content == reply.content@,
        reply@.input_tokens == reply.input_tokens,
        reply@.output_tokens == reply.output_tokens,
        reply@.latency_ms == reply.latency_ms,
        reply@.error == string_view(reply.error),
        node@.bids == node.bids@,
        node@.coordinator == node.coordinator@,
        node@.requests_topic == node.requests_topic@,
{
}

/// What the contracts read of an event is all there is to it.
pub proof fn law_events_in_full(event: MeshEvent)
    ensures
        event matches MeshEvent::Wake { now } ==> event@ == (MeshEventView::Wake { now }),
        event matches MeshEvent::Announced { published } ==> event@ == (MeshEventView::Announced {
            published,
        }),
        event is Tick ==> event@ is Tick,
        event matches MeshEvent::Asked(Command::SendCompletionAck(ack)) ==> event@
            == MeshEventView::AskedToAck(ack@),
        event matches MeshEvent::Asked(Command::SendInferenceReply { channel, reply }) ==> event@
            == (MeshEventView::AskedToReply { channel, reply: reply@ }),
        event is CommandsClosed ==> event@ is CommandsClosed,
        event matches MeshEvent::AckSent { ack, request_id } ==> event@ == (
        MeshEventView::AckSent { ack, request_id }),
        event matches MeshEvent::Connected { peer, now } ==> event@ == (MeshEventView::Connected {
            peer: peer@,
            now,
        }),
        event matches MeshEvent::Gossip { topic, request } ==> (event@
            matches MeshEventView::Gossip { topic: t, request: r } && t == topic@ && (
        request matches Some(q) ==> r == Some((q.request_id, q.model@))) && (request is None
            ==> r is None)),
        event matches MeshEvent::AckAnswered { ack, accepted, reason } ==> event@ == (
        MeshEventView::AckAnswered { ack, accepted, reason: string_view(reason) }),
        event matches MeshEvent::AckFailed { ack } ==> event@ == (MeshEventView::AckFailed { ack }),
        event matches MeshEvent::Dispatched { channel, dispatch } ==> event@ == (
        MeshEventView::Dispatched { channel, dispatch: dispatch@ }),
        event is Other ==> event@ is Other,
{
}

/// What the contracts read of an action and of an outcome is all there is to them.
pub proof fn law_actions_in_full(action: MeshAction, outcome: AckOutcome)
    ensures
        action is Nothing <==> action@ is Nothing,
        action matches MeshAction::Announce(c) ==> action@ == MeshActionView::Announce(c@),
        action matches MeshAction::Reannounce(c) ==> action@ == MeshActionView::Reannounce(c@),
        action matches MeshAction::WarmUp(b) ==> action@ == MeshActionView::WarmUp(b@),
        action matches MeshAction::Bid(b) ==> action@ == MeshActionView::Bid(b@),
        action matches MeshAction::SendAck(a) ==> action@ == MeshActionView::SendAck(a@),
        action matches MeshAction::SendReply { channel, reply } ==> action@ == (
        MeshActionView::SendReply { channel, reply: reply@ }),
        action matches MeshAction::Run { channel, dispatch } ==> action@ == (MeshActionView::Run {
            channel,
            dispatch: dispatch@,
        }),
        action matches MeshAction::Report(o) ==> action@ == MeshActionView::Report(o@),
        action is Stop <==> action@ is Stop,
        outcome matches AckOutcome::Accepted { request_id } ==> outcome@ == (
        AckOutcomeView::Accepted { request_id }),
        outcome matches AckOutcome::Rejected { request_id, reason } ==> outcome@ == (
        AckOutcomeView::Rejected { request_id, reason: string_view(reason) }),
        outcome matches AckOutcome::Undelivered { request_id } ==> outcome@ == (
        AckOutcomeView::Undelivered { request_id }),
{
}

/// The times and bounds that the swarm is run with.
pub proof fn law_times_of_the_mesh()
    ensures
        ANNOUNCE_DELAY_MS == 3000,
        ANNOUNCE_INTERVAL_MS == 10 * ANNOUNCE_DELAY_MS,
        IDLE_TIMEOUT_MS == 2 * ANNOUNCE_INTERVAL_MS,
        COMMAND_QUEUE == 32,
{
}

/// What the contracts read of the results around a dispatch is all there is to them.
pub proof fn law_dispatch_results_in_full(
    req: InferenceReq,
    reply: InferenceReply,
    response: InferenceResp,
    error: ErrorResponse,
    text: String,
)
    ensures
        taken_view(Ok(req)) == Ok::<ReqView, InferenceReplyView>(req@),
        taken_view(Err(reply)) == Err::<ReqView, InferenceReplyView>(reply@),
        outcome_view(Ok(response)) == Ok::<RespView, ErrorView>(response@),
        outcome_view(Err(error)) == Err::<RespView, ErrorView>(error@),
        peer_result_view(Ok(text)) == Ok::<Seq<char>, Seq<char>>(text@),
        peer_result_view(Err(text)) == Err::<Seq<char>, Seq<char>>(text@),
{
}

} // verus!
