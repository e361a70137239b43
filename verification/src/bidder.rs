//! Decides whether to bid on an inference request, and builds the bid.
//!
//! The node bids on every request for the model that it serves. Price, latency, reputation,
//! endpoint and payout address come from its configuration.

use vstd::prelude::*;

verus! {

/// The latency that bids promise where nothing else is configured.
pub const DEFAULT_LATENCY_MS: u32 = 300;

/// The reputation, in hundredths, that bids claim where nothing else is configured.
pub const DEFAULT_REPUTATION_PERCENT: u8 = 90;

/// How many jobs the node says it takes at once.
pub const MAX_CONCURRENT_JOBS: u32 = 4;

/// What the node offers.
pub struct BidConfig {
    pub model: String,
    pub node_peer_id: String,
    pub price_per_1k_nanox: u64,
    /// The latency that bids promise.
    pub latency_ms: u32,
    /// The reputation that bids claim, in hundredths.
    pub reputation_percent: u8,
    pub http_endpoint: String,
    /// The address that is paid when a job is settled on chain. Every bid names it.
    pub payout_address: String,
}

#[verifier::ext_equal]
pub struct BidConfigView {
    pub model: Seq<char>,
    pub node_peer_id: Seq<char>,
    pub price_per_1k_nanox: u64,
    pub latency_ms: u32,
    pub reputation_percent: u8,
    pub http_endpoint: Seq<char>,
    pub payout_address: Seq<char>,
}

impl View for BidConfig {
    type V = BidConfigView;

    open spec fn view(&self) -> BidConfigView {
        BidConfigView {
            model: self.model@,
            node_peer_id: self.node_peer_id@,
            price_per_1k_nanox: self.price_per_1k_nanox,
            latency_ms: self.latency_ms,
            reputation_percent: self.reputation_percent,
            http_endpoint: self.http_endpoint@,
            payout_address: self.payout_address@,
        }
    }
}

/// What the node reads of an auctioned request.
pub struct InferenceRequest {
    pub request_id: u128,
    pub model: String,
}

/// A bid in an auction.
#[derive(Debug)]
pub struct InferenceBid {
    pub request_id: u128,
    pub node_peer_id: String,
    pub price_per_1k: u64,
    pub latency_ms: u32,
    pub reputation_percent: u8,
    pub http_endpoint: String,
    pub payout_address: String,
}

#[verifier::ext_equal]
pub struct BidView {
    pub request_id: u128,
    pub node_peer_id: Seq<char>,
    pub price_per_1k: u64,
    pub latency_ms: u32,
    pub reputation_percent: u8,
    pub http_endpoint: Seq<char>,
    pub payout_address: Seq<char>,
}

impl View for InferenceBid {
    type V = BidView;

    open spec fn view(&self) -> BidView {
        BidView {
            request_id: self.request_id,
            node_peer_id: self.node_peer_id@,
            price_per_1k: self.price_per_1k,
            latency_ms: self.latency_ms,
            reputation_percent: self.reputation_percent,
            http_endpoint: self.http_endpoint@,
            payout_address: self.payout_address@,
        }
    }
}

/// The bid of a node with this configuration on request `request_id`.
pub open spec fn bid_of(
    cfg: BidConfigView,
    request_id: u128,
    latency_ms: u32,
    reputation_percent: u8,
) -> BidView {
    BidView {
        request_id,
        node_peer_id: cfg.node_peer_id,
        price_per_1k: cfg.price_per_1k_nanox,
        latency_ms,
        reputation_percent,
        http_endpoint: cfg.http_endpoint,
        payout_address: cfg.payout_address,
    }
}

/// The bid on a request for `model`: there is one for the model that the node serves.
pub open spec fn bid_for(cfg: BidConfigView, request_id: u128, model: Seq<char>) -> Option<BidView> {
    if model == cfg.model {
        Some(bid_of(cfg, request_id, cfg.latency_ms, cfg.reputation_percent))
    } else {
        None
    }
}

pub open spec fn bid_view(b: Option<InferenceBid>) -> Option<BidView> {
    match b {
        Some(b) => Some(b@),
        None => None,
    }
}

/// The bid on `req`, if it asks for the model that the node serves.
pub fn build_bid(req: &InferenceRequest, cfg: &BidConfig) -> (r: Option<InferenceBid>)
    ensures
        bid_view(r) == bid_for(cfg@, req.request_id, req.model@),
        r is Some <==> req.model@ == cfg.model@,
        r matches Some(bid) ==> bid.request_id == req.request_id && bid.node_peer_id@
            == cfg.node_peer_id@ && bid.price_per_1k == cfg.price_per_1k_nanox && bid.latency_ms
            == cfg.latency_ms && bid.reputation_percent == cfg.reputation_percent
            && bid.http_endpoint@ == cfg.http_endpoint@ && bid.payout_address@
            == cfg.payout_address@,
{
    if req.model != cfg.model {
        return None;
    }
    Some(
        InferenceBid {
            request_id: req.request_id,
            node_peer_id: cfg.node_peer_id.clone(),
            price_per_1k: cfg.price_per_1k_nanox,
            latency_ms: cfg.latency_ms,
            reputation_percent: cfg.reputation_percent,
            http_endpoint: cfg.http_endpoint.clone(),
            payout_address: cfg.payout_address.clone(),
        },
    )
}

/// The bid on no request that is published once, so that the first real bid finds the bid topic
/// already connected.
pub fn warmup_bid(cfg: &BidConfig) -> (r: InferenceBid)
    ensures
        r@ == bid_of(cfg@, 0, 0, 0),
        r.request_id == 0,
        r.node_peer_id@ == cfg.node_peer_id@,
        r.payout_address@ == cfg.payout_address@,
{
    InferenceBid {
        request_id: 0,
        node_peer_id: cfg.node_peer_id.clone(),
        price_per_1k: cfg.price_per_1k_nanox,
        latency_ms: 0,
        reputation_percent: 0,
        http_endpoint: cfg.http_endpoint.clone(),
        payout_address: cfg.payout_address.clone(),
    }
}

/// What the node announces of itself.
#[derive(Debug)]
pub struct NodeCapabilities {
    pub peer_id: String,
    pub models: Vec<String>,
    pub max_concurrent_jobs: u32,
}

#[verifier::ext_equal]
pub struct CapabilitiesView {
    pub peer_id: Seq<char>,
    pub models: Seq<Seq<char>>,
    pub max_concurrent_jobs: u32,
}

impl View for NodeCapabilities {
    type V = CapabilitiesView;

    open spec fn view(&self) -> CapabilitiesView {
        CapabilitiesView {
            peer_id: self.peer_id@,
            models: crate::context::string_views(self.models@),
            max_concurrent_jobs: self.max_concurrent_jobs,
        }
    }
}

/// The capabilities of a node that serves one model.
pub open spec fn capabilities_of(cfg: BidConfigView) -> CapabilitiesView {
    CapabilitiesView {
        peer_id: cfg.node_peer_id,
        models: seq![cfg.model],
        max_concurrent_jobs: 4,
    }
}

/// The announcement of a node with this configuration.
pub fn capabilities(cfg: &BidConfig) -> (r: NodeCapabilities)
    ensures
        r@ == capabilities_of(cfg@),
        r.peer_id@ == cfg.node_peer_id@,
        r.models@.len() == 1,
        r.models@[0]@ == cfg.model@,
{
    let mut models: Vec<String> = Vec::new();
    models.push(cfg.model.clone());
    let r = NodeCapabilities {
        peer_id: cfg.node_peer_id.clone(),
        models,
        max_concurrent_jobs: MAX_CONCURRENT_JOBS,
    };
    assert(r@.models =~= capabilities_of(cfg@).models);
    r
}

/// The node bids on everything for its model and on nothing else, and every bid says what is
/// configured: price, latency, reputation, endpoint and payout address.
pub proof fn law_bids_on_its_model_only(cfg: BidConfigView, request_id: u128, model: Seq<char>)
    ensures
        bid_for(cfg, request_id, model) is Some <==> model == cfg.model,
        bid_for(cfg, request_id, model) matches Some(b) ==> b.request_id == request_id
            && b.price_per_1k == cfg.price_per_1k_nanox && b.latency_ms == cfg.latency_ms
            && b.reputation_percent == cfg.reputation_percent && b.http_endpoint
            == cfg.http_endpoint && b.payout_address == cfg.payout_address,
{
}

/// Bids, announcements and the warm-up bid say what is configured, field by field: every real bid
/// on the request that it answers, the warm-up bid on none and without any promise.
pub proof fn law_offers_say_what_is_configured(
    cfg: BidConfigView,
    request_id: u128,
    latency_ms: u32,
    reputation_percent: u8,
)
    ensures
        ({
            let bid = bid_of(cfg, request_id, latency_ms, reputation_percent);
            &&& bid.request_id == request_id
            &&& bid.node_peer_id == cfg.node_peer_id
            &&& bid.price_per_1k == cfg.price_per_1k_nanox
            &&& bid.latency_ms == latency_ms
            &&& bid.reputation_percent == reputation_percent
            &&& bid.http_endpoint == cfg.http_endpoint
            &&& bid.payout_address == cfg.payout_address
        }),
        bid_for(cfg, request_id, cfg.model) matches Some(bid) && bid.node_peer_id
            == cfg.node_peer_id && bid.request_id == request_id,
        capabilities_of(cfg).peer_id == cfg.node_peer_id,
        capabilities_of(cfg).models.len() == 1,
        capabilities_of(cfg).models[0] == cfg.model,
        capabilities_of(cfg).max_concurrent_jobs == 4,
{
}

/// What the contracts read of a configuration, a bid and an announcement is all there is to them.
pub proof fn law_offers_in_full(cfg: BidConfig, bid: InferenceBid, caps: NodeCapabilities)
    ensures
        cfg@.model == cfg.model@,
        cfg@.node_peer_id == cfg.node_peer_id@,
        cfg@.price_per_1k_nanox == cfg.price_per_1k_nanox,
        cfg@.latency_ms == cfg.latency_ms,
        cfg@.reputation_percent == cfg.reputation_percent,
        cfg@.http_endpoint == cfg.http_endpoint@,
        cfg@.payout_address == cfg.payout_address@,
        bid@.request_id == bid.request_id,
        bid@.node_peer_id == bid.node_peer_id@,
        bid@.price_per_1k == bid.price_per_1k,
        bid@.latency_ms == bid.latency_ms,
        bid@.reputation_percent == bid.reputation_percent,
        bid@.http_endpoint == bid.http_endpoint@,
        bid@.payout_address == bid.payout_address@,
        bid_view(Some(bid)) == Some(bid@),
        bid_view(None) is None,
        caps@.peer_id == caps.peer_id@,
        caps@.models.len() == caps.models@.len(),
        forall|i: int|
            0 <= i < caps.models@.len() ==> #[trigger] caps@.models[i] == caps.models@[i]@,
        caps@.max_concurrent_jobs == caps.max_concurrent_jobs,
{
}

} // verus!
