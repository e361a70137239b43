use pinaivu_node::bidder::{
    build_bid, capabilities, warmup_bid, BidConfig, InferenceRequest, DEFAULT_LATENCY_MS,
    DEFAULT_REPUTATION_PERCENT,
};
use pinaivu_node::inflight::Inflight;
use pinaivu_node::mesh::{bid_config, serving_state, Config};

fn cfg() -> BidConfig {
    BidConfig {
        model: "llama3".into(),
        node_peer_id: "12D3KooW".into(),
        price_per_1k_nanox: 50,
        latency_ms: DEFAULT_LATENCY_MS,
        reputation_percent: DEFAULT_REPUTATION_PERCENT,
        http_endpoint: "http://127.0.0.1:5000".into(),
        payout_address: "0xabc".into(),
    }
}

#[test]
fn bids_on_its_own_model() {
    let bid = build_bid(&InferenceRequest { request_id: 42, model: "llama3".into() }, &cfg()).unwrap();
    assert_eq!(bid.request_id, 42);
    assert_eq!(bid.node_peer_id, "12D3KooW");
    assert_eq!(bid.price_per_1k, 50);
    assert_eq!(bid.latency_ms, 300);
    assert_eq!(f64::from(bid.reputation_percent) / 100.0, 0.9);
    assert_eq!(bid.http_endpoint, "http://127.0.0.1:5000");
    assert_eq!(bid.payout_address, "0xabc");
}

#[test]
fn does_not_bid_on_other_models() {
    for model in ["llama3.1", "Llama3", "", "llama"] {
        assert!(build_bid(&InferenceRequest { request_id: 1, model: model.into() }, &cfg()).is_none());
    }
}

#[test]
fn warmup_bid_is_on_no_request() {
    let bid = warmup_bid(&cfg());
    assert_eq!(bid.request_id, 0);
    assert_eq!(bid.latency_ms, 0);
    assert_eq!(bid.reputation_percent, 0);
    assert_eq!(bid.price_per_1k, 50);
    assert_eq!(bid.node_peer_id, "12D3KooW");
    assert_eq!(bid.http_endpoint, "http://127.0.0.1:5000");
    assert_eq!(bid.payout_address, "0xabc");
}

#[test]
fn announces_one_model_and_four_jobs() {
    let c = capabilities(&cfg());
    assert_eq!(c.peer_id, "12D3KooW");
    assert_eq!(c.models, vec!["llama3".to_string()]);
    assert_eq!(c.max_concurrent_jobs, 4);
}

#[test]
fn bids_are_known_until_forgotten() {
    let mut bids = Inflight::default();
    assert!(!bids.contains(&1));
    bids.record_bid(1);
    bids.record_bid(2);
    bids.record_bid(1);
    assert!(bids.contains(&1));
    bids.forget(&2);
    assert!(bids.contains(&1));
    assert!(!bids.contains(&2));
    bids.forget(&1);
    assert!(!bids.contains(&1));
    bids.forget(&1);
    assert!(!bids.contains(&1));
}

#[test]
fn configuration_reaches_bids_and_turns() {
    let cfg = Config {
        model: "qwen2.5".into(),
        price_per_1k_nanox: 9,
        latency_ms: 450,
        reputation_percent: 60,
        advertise_url: "http://me".into(),
        payout_address: "0x1".into(),
        ollama_url: "http://localhost:11434".into(),
        coord_pubkey: [6u8; 32],
        stateful: true,
    };
    let bids = bid_config(&cfg, "peer");
    assert_eq!(bids.model, "qwen2.5");
    assert_eq!(bids.node_peer_id, "peer");
    assert_eq!(bids.price_per_1k_nanox, 9);
    assert_eq!((bids.latency_ms, bids.reputation_percent), (450, 60));
    let bid = build_bid(&InferenceRequest { request_id: 3, model: "qwen2.5".into() }, &bids).unwrap();
    assert_eq!((bid.latency_ms, bid.reputation_percent), (450, 60));
    assert_eq!(bids.http_endpoint, "http://me");
    assert_eq!(bids.payout_address, "0x1");
    let state = serving_state(cfg, "peer");
    assert_eq!(state.ollama_url, "http://localhost:11434");
    assert_eq!(state.model, "qwen2.5");
    assert_eq!(state.node_peer_id, "peer");
    assert_eq!(state.price_per_1k_nanox, 9);
    assert_eq!(state.coord_pubkey, [6u8; 32]);
    assert!(state.stateful);
}
