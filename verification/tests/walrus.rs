use std::collections::HashMap;

use pinaivu_node::walrus::{
    get_failure, get_status, local_blob, local_blob_id, put_failure, put_status, uploaded_id, AlreadyCertified,
    BlobObject, BlobStatus, GetPlan, LocalRead, NewlyCreated, PutPlan, PutResponse, WalrusClient,
    WalrusConfigError, WalrusEnv,
};

fn http(publisher: &str, aggregator: &str, epochs: u32) -> WalrusClient {
    WalrusClient::Http { publisher: publisher.into(), aggregator: aggregator.into(), epochs }
}

fn env(dir: Option<&str>, publisher: Option<&str>, aggregator: Option<&str>, epochs: Option<&str>) -> WalrusEnv {
    WalrusEnv {
        local_dir: dir.map(String::from),
        publisher_url: publisher.map(String::from),
        aggregator_url: aggregator.map(String::from),
        epochs: epochs.map(String::from),
    }
}

/// Files by directory and name.
struct Disk(HashMap<(String, String), Vec<u8>>);

impl Disk {
    fn put(&mut self, w: &WalrusClient, bytes: &[u8]) -> String {
        match w.put_plan(bytes) {
            PutPlan::WriteFile { root, blob_id } => {
                self.0.insert((root, blob_id.clone()), bytes.to_vec());
                blob_id
            }
            PutPlan::Upload { .. } => panic!("not a local directory"),
        }
    }

    fn get(&self, w: &WalrusClient, blob_id: &str) -> Option<Vec<u8>> {
        match w.get_plan(blob_id) {
            GetPlan::ReadFile { root, blob_id } => {
                let read: LocalRead<String> = match self.0.get(&(root, blob_id)) {
                    Some(bytes) => LocalRead::Read(bytes.clone()),
                    None => LocalRead::NotFound,
                };
                local_blob(read).unwrap()
            }
            GetPlan::Download { .. } => panic!("not a local directory"),
        }
    }
}

#[test]
fn local_dir_roundtrip() {
    let mut disk = Disk(HashMap::new());
    let w = WalrusClient::local_dir("blobs".into());
    let id = disk.put(&w, b"the quick brown fox");
    let back = disk.get(&w, &id).unwrap();
    assert_eq!(back, b"the quick brown fox");
}

#[test]
fn local_dir_missing_blob_returns_none() {
    let disk = Disk(HashMap::new());
    let w = WalrusClient::local_dir("blobs".into());
    assert!(disk.get(&w, "nonexistent").is_none());
}

#[test]
fn local_dir_dedupes_identical_payloads() {
    let mut disk = Disk(HashMap::new());
    let w = WalrusClient::local_dir("blobs".into());
    let a = disk.put(&w, b"same bytes");
    let b = disk.put(&w, b"same bytes");
    assert_eq!(a, b, "content-addressed local mock should be stable");
    assert_eq!(disk.0.len(), 1);
}

#[test]
fn unreadable_file_is_an_error() {
    assert_eq!(local_blob(LocalRead::Failed("denied")), Err("denied"));
    assert_eq!(local_blob::<String>(LocalRead::NotFound), Ok(None));
    assert_eq!(local_blob::<String>(LocalRead::Read(vec![1])), Ok(Some(vec![1])));
}

#[test]
fn local_blobs_are_named_by_their_digest() {
    assert_eq!(
        local_blob_id(b"the quick brown fox"),
        "9ecb36561341d18eb65484e833efea61edc74b84cf5e6ae1b81c63533e25fc8f"
    );
    assert_eq!(
        local_blob_id(b""),
        "e3b0c44298fc1c149afbf4c8996fb92427ae41e4649b934ca495991b7852b855"
    );
    assert_ne!(local_blob_id(b"a"), local_blob_id(b"b"));
    for bytes in [&b""[..], &b"a"[..], &[0u8; 1000][..]] {
        assert_eq!(local_blob_id(bytes).len(), 64);
    }
}

#[test]
fn clones_name_the_same_backend() {
    let w = http("http://pub", "http://agg", 7).clone();
    assert!(matches!(w.get_plan("abc"), GetPlan::Download { url } if url == "http://agg/v1/blobs/abc"));
    assert!(matches!(w.put_plan(b"x"), PutPlan::Upload { url } if url == "http://pub/v1/blobs?epochs=7"));
    let w = WalrusClient::local_dir("blobs".into()).clone();
    assert!(matches!(w, WalrusClient::LocalDir { root } if root == "blobs"));
}

#[test]
fn urls_of_the_http_backend() {
    let w = http("http://pub//", "http://agg/", 7);
    assert!(matches!(w.put_plan(b"x"), PutPlan::Upload { url } if url == "http://pub/v1/blobs?epochs=7"));
    assert!(matches!(w.get_plan("abc"), GetPlan::Download { url } if url == "http://agg/v1/blobs/abc"));
    let w = http("http://pub", "http://agg", u32::MAX);
    assert!(matches!(w.put_plan(b"x"), PutPlan::Upload { url } if url == "http://pub/v1/blobs?epochs=4294967295"));
}

#[test]
fn local_directory_comes_first() {
    let w = WalrusClient::from_env(env(Some("d"), Some("p"), Some("a"), None)).unwrap();
    assert!(matches!(w, WalrusClient::LocalDir { root } if root == "d"));
}

#[test]
fn both_addresses_are_needed() {
    assert_eq!(
        WalrusClient::from_env(env(None, None, Some("a"), None)).err(),
        Some(WalrusConfigError::NoPublisher)
    );
    assert_eq!(
        WalrusClient::from_env(env(None, Some("p"), None, None)).err(),
        Some(WalrusConfigError::NoAggregator)
    );
    assert_eq!(
        WalrusConfigError::NoPublisher.message(),
        "WALRUS_PUBLISHER_URL not set (and no WALRUS_LOCAL_DIR)"
    );
    assert_eq!(WalrusConfigError::NoAggregator.message(), "WALRUS_AGGREGATOR_URL not set");
}

#[test]
fn epochs_setting_is_read_or_ignored() {
    let cases = [
        (None, 5),
        (Some("12"), 12),
        (Some("+7"), 7),
        (Some("007"), 7),
        (Some("0"), 0),
        (Some("4294967295"), u32::MAX),
        (Some("4294967296"), 5),
        (Some("-1"), 5),
        (Some("+"), 5),
        (Some(""), 5),
        (Some(" 3"), 5),
        (Some("3x"), 5),
    ];
    for (setting, expected) in cases {
        let w = WalrusClient::from_env(env(None, Some("p"), Some("a"), setting)).unwrap();
        match w {
            WalrusClient::Http { publisher, aggregator, epochs } => {
                assert_eq!(publisher, "p");
                assert_eq!(aggregator, "a");
                assert_eq!(epochs, expected, "{setting:?}");
                assert_eq!(epochs, setting.and_then(|s| s.parse::<u32>().ok()).unwrap_or(5));
            }
            WalrusClient::LocalDir { .. } => panic!("no directory was set"),
        }
    }
}

#[test]
fn statuses_of_blob_requests() {
    assert_eq!(put_status(200), BlobStatus::Success);
    assert_eq!(put_status(299), BlobStatus::Success);
    assert_eq!(put_status(199), BlobStatus::Failure);
    assert_eq!(put_status(300), BlobStatus::Failure);
    assert_eq!(put_status(404), BlobStatus::Failure);
    assert_eq!(get_status(404), BlobStatus::Missing);
    assert_eq!(get_status(204), BlobStatus::Success);
    assert_eq!(get_status(500), BlobStatus::Failure);
}

#[test]
fn failures_in_words() {
    assert_eq!(put_failure("503 Service Unavailable", "busy"), "walrus put_blob HTTP 503 Service Unavailable: busy");
    assert_eq!(get_failure("500 Internal Server Error", ""), "walrus get_blob HTTP 500 Internal Server Error: ");
}

#[test]
fn uploaded_blob_is_named_in_either_place() {
    let new = |id: &str| Some(NewlyCreated { blob_object: BlobObject { blob_id: id.into() } });
    let old = |id: &str| Some(AlreadyCertified { blob_id: id.into() });
    assert_eq!(uploaded_id(PutResponse { newly_created: new("n"), already_certified: None }), Ok("n".into()));
    assert_eq!(uploaded_id(PutResponse { newly_created: None, already_certified: old("o") }), Ok("o".into()));
    assert_eq!(uploaded_id(PutResponse { newly_created: new("n"), already_certified: old("o") }), Ok("n".into()));
    assert_eq!(
        uploaded_id(PutResponse { newly_created: None, already_certified: None }),
        Err("walrus put_blob: no blobId in response".into())
    );
}
