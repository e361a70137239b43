use pinaivu_node::config::{advertise_url, context_layer, ContextLayer, IncompleteContextLayer};
use pinaivu_node::identity::{
    coordinator_health_url, load_or_create, parse_coordinator_pubkey, stored_key, IdentityError,
    IdentitySource, PubkeyError,
};

#[test]
fn stored_key_is_read_as_it_is() {
    let file: Vec<u8> = (0..32).collect();
    let mut key = [0u8; 32];
    key.copy_from_slice(&file);
    assert_eq!(stored_key(&file), Ok(key));
    assert_eq!(load_or_create(Some(&file)), Ok(IdentitySource::Stored(key)));
}

#[test]
fn damaged_identity_file_is_an_error() {
    for n in [0usize, 31, 33, 64] {
        assert_eq!(load_or_create(Some(&vec![1u8; n])), Err(IdentityError::WrongLength));
    }
    assert_eq!(IdentityError::WrongLength.message(), "identity file is not 32 bytes");
}

#[test]
fn missing_identity_file_makes_a_new_key() {
    let a = load_or_create(None);
    let b = load_or_create(None);
    assert!(matches!(a, Ok(IdentitySource::Created(_))));
    assert_ne!(a, b);
}

#[test]
fn health_url_has_one_slash() {
    assert_eq!(coordinator_health_url("http://127.0.0.1:4000"), "http://127.0.0.1:4000/enclave_health");
    assert_eq!(coordinator_health_url("http://127.0.0.1:4000///"), "http://127.0.0.1:4000/enclave_health");
    assert_eq!(coordinator_health_url(""), "/enclave_health");
    assert_eq!(coordinator_health_url("//"), "/enclave_health");
}

#[test]
fn published_pubkey_is_read() {
    let key: [u8; 32] = core::array::from_fn(|i| (i * 8 + 3) as u8);
    assert_eq!(parse_coordinator_pubkey(&hex::encode(key)), Ok(key));
    assert_eq!(parse_coordinator_pubkey(&hex::encode_upper(key)), Ok(key));
}

#[test]
fn bad_pubkeys_are_refused() {
    assert_eq!(parse_coordinator_pubkey(""), Err(PubkeyError::WrongLength));
    assert_eq!(parse_coordinator_pubkey("00ff"), Err(PubkeyError::WrongLength));
    assert_eq!(parse_coordinator_pubkey(&"ab".repeat(33)), Err(PubkeyError::WrongLength));
    assert_eq!(parse_coordinator_pubkey("0"), Err(PubkeyError::NotHex));
    assert_eq!(parse_coordinator_pubkey(&"g0".repeat(32)), Err(PubkeyError::NotHex));
    assert_eq!(parse_coordinator_pubkey(&"é".repeat(32)), Err(PubkeyError::NotHex));
    assert_eq!(PubkeyError::NotHex.message(), "decode pubkey hex");
    assert_eq!(PubkeyError::WrongLength.message(), "coordinator pubkey is not 32 bytes");
}

#[test]
fn context_layer_is_all_or_nothing() {
    assert_eq!(context_layer(true, true, false), Ok(ContextLayer::Enabled));
    assert_eq!(context_layer(true, false, true), Ok(ContextLayer::Enabled));
    assert_eq!(context_layer(true, true, true), Ok(ContextLayer::Enabled));
    assert_eq!(context_layer(false, false, false), Ok(ContextLayer::Stateless));
    assert_eq!(context_layer(true, false, false), Err(IncompleteContextLayer));
    assert_eq!(context_layer(false, true, false), Err(IncompleteContextLayer));
    assert_eq!(context_layer(false, false, true), Err(IncompleteContextLayer));
    assert_eq!(
        IncompleteContextLayer.message(),
        "context layer requires BOTH DATABASE_URL and WALRUS_LOCAL_DIR (or WALRUS_PUBLISHER_URL+WALRUS_AGGREGATOR_URL)"
    );
}

#[test]
fn advertised_address() {
    assert_eq!(advertise_url(None, "127.0.0.1:5000"), "http://127.0.0.1:5000");
    assert_eq!(advertise_url(Some("https://node.example"), "127.0.0.1:5000"), "https://node.example");
}
