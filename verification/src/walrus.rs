//! Blob storage for session blobs.
//!
//! Walrus addresses blobs by their content: storing bytes gives an identifier, and the
//! identifier gives the bytes back. Which blob belongs to which session is kept elsewhere.
//!
//! There are two backends. One talks to a publisher and an aggregator over HTTP. The other
//! keeps each blob as a file that is named by its digest, for tests and local work.

use crate::context::string_view;
use crate::encoding::{hex_encode, hex_text, sha256, sha256_digest, SHA256_MAX_BYTES};
use crate::text::{decimal, decimal_text, parse_u32, trim_end_slashes, u32_of_text,
    without_end_slashes};
use vstd::prelude::*;

verus! {

/// For how many epochs a blob is stored where the configuration does not say.
pub const DEFAULT_EPOCHS: u32 = 5;

/// Where blobs are kept.
#[derive(Debug)]
pub enum WalrusClient {
    Http { publisher: String, aggregator: String, epochs: u32 },
    LocalDir { root: String },
}

impl Clone for WalrusClient {
    fn clone(&self) -> (r: Self)
        ensures
            r == *self,
    {
        match self {
            WalrusClient::Http { publisher, aggregator, epochs } => WalrusClient::Http {
                publisher: publisher.clone(),
                aggregator: aggregator.clone(),
                epochs: *epochs,
            },
            WalrusClient::LocalDir { root } => WalrusClient::LocalDir { root: root.clone() },
        }
    }
}

#[verifier::ext_equal]
pub enum WalrusView {
    Http { publisher: Seq<char>, aggregator: Seq<char>, epochs: u32 },
    LocalDir { root: Seq<char> },
}

impl View for WalrusClient {
    type V = WalrusView;

    open spec fn view(&self) -> WalrusView {
        match self {
            WalrusClient::Http { publisher, aggregator, epochs } => WalrusView::Http {
                publisher: publisher@,
                aggregator: aggregator@,
                epochs: *epochs,
            },
            WalrusClient::LocalDir { root } => WalrusView::LocalDir { root: root@ },
        }
    }
}

/// The settings that name a backend, as far as they are set.
pub struct WalrusEnv {
    pub local_dir: Option<String>,
    pub publisher_url: Option<String>,
    pub aggregator_url: Option<String>,
    pub epochs: Option<String>,
}

#[derive(Debug, Clone, Copy, PartialEq, Eq, Structural)]
pub enum WalrusConfigError {
    NoPublisher,
    NoAggregator,
}

pub open spec fn config_error_text(e: WalrusConfigError) -> Seq<char> {
    match e {
        WalrusConfigError::NoPublisher => "WALRUS_PUBLISHER_URL not set (and no WALRUS_LOCAL_DIR)"@,
        WalrusConfigError::NoAggregator => "WALRUS_AGGREGATOR_URL not set"@,
    }
}

impl WalrusConfigError {
    /// What is missing, in words.
    pub fn message(&self) -> (r: String)
        ensures
            r@ == config_error_text(*self),
    {
        match self {
            WalrusConfigError::NoPublisher => String::from_str(
                "WALRUS_PUBLISHER_URL not set (and no WALRUS_LOCAL_DIR)",
            ),
            WalrusConfigError::NoAggregator => String::from_str("WALRUS_AGGREGATOR_URL not set"),
        }
    }
}

/// The number of epochs that a setting asks for. What does not read as a number is ignored.
pub open spec fn epochs_setting(setting: Option<Seq<char>>) -> u32 {
    match setting {
        Some(s) => match u32_of_text(s) {
            Some(n) => n,
            None => 5,
        },
        None => 5,
    }
}

/// The backend that the settings name. A local directory comes first.
pub open spec fn configured(
    local_dir: Option<Seq<char>>,
    publisher_url: Option<Seq<char>>,
    aggregator_url: Option<Seq<char>>,
    epochs: Option<Seq<char>>,
) -> Result<WalrusView, WalrusConfigError> {
    match (local_dir, publisher_url, aggregator_url) {
        (Some(root), _, _) => Ok(WalrusView::LocalDir { root }),
        (None, None, _) => Err(WalrusConfigError::NoPublisher),
        (None, Some(_), None) => Err(WalrusConfigError::NoAggregator),
        (None, Some(publisher), Some(aggregator)) => Ok(
            WalrusView::Http { publisher, aggregator, epochs: epochs_setting(epochs) },
        ),
    }
}

pub open spec fn client_view(r: Result<WalrusClient, WalrusConfigError>) -> Result<
    WalrusView,
    WalrusConfigError,
> {
    match r {
        Ok(c) => Ok(c@),
        Err(e) => Err(e),
    }
}

/// Where a blob is written, and under which name if the backend leaves the name to us.
#[derive(Debug)]
pub enum PutPlan {
    WriteFile { root: String, blob_id: String },
    Upload { url: String },
}

#[verifier::ext_equal]
pub enum PutPlanView {
    WriteFile { root: Seq<char>, blob_id: Seq<char> },
    Upload { url: Seq<char> },
}

impl View for PutPlan {
    type V = PutPlanView;

    open spec fn view(&self) -> PutPlanView {
        match self {
            PutPlan::WriteFile { root, blob_id } => PutPlanView::WriteFile {
                root: root@,
                blob_id: blob_id@,
            },
            PutPlan::Upload { url } => PutPlanView::Upload { url: url@ },
        }
    }
}

/// Where a blob is read.
#[derive(Debug)]
pub enum GetPlan {
    ReadFile { root: String, blob_id: String },
    Download { url: String },
}

#[verifier::ext_equal]
pub enum GetPlanView {
    ReadFile { root: Seq<char>, blob_id: Seq<char> },
    Download { url: Seq<char> },
}

impl View for GetPlan {
    type V = GetPlanView;

    open spec fn view(&self) -> GetPlanView {
        match self {
            GetPlan::ReadFile { root, blob_id } => GetPlanView::ReadFile {
                root: root@,
                blob_id: blob_id@,
            },
            GetPlan::Download { url } => GetPlanView::Download { url: url@ },
        }
    }
}

/// The name of a blob in a local directory: the digest of its bytes, in hexadecimal.
pub open spec fn local_id(bytes: Seq<u8>) -> Seq<char> {
    hex_text(sha256_digest(bytes))
}

/// Where `bytes` are stored.
pub open spec fn put_target(client: WalrusView, bytes: Seq<u8>) -> PutPlanView {
    match client {
        WalrusView::LocalDir { root } => PutPlanView::WriteFile { root, blob_id: local_id(bytes) },
        WalrusView::Http { publisher, epochs, .. } => PutPlanView::Upload {
            url: without_end_slashes(publisher) + "/v1/blobs?epochs="@ + decimal_text(epochs as nat),
        },
    }
}

/// Where the blob behind an identifier is found.
pub open spec fn get_target(client: WalrusView, blob_id: Seq<char>) -> GetPlanView {
    match client {
        WalrusView::LocalDir { root } => GetPlanView::ReadFile { root, blob_id },
        WalrusView::Http { aggregator, .. } => GetPlanView::Download {
            url: without_end_slashes(aggregator) + "/v1/blobs/"@ + blob_id,
        },
    }
}

/// The digest name of a blob: two digits for each byte of the digest.
pub fn local_blob_id(bytes: &[u8]) -> (r: String)
    requires
        bytes@.len() < SHA256_MAX_BYTES,
    ensures
        r@ == local_id(bytes@),
        r@.len() == 64,
{
    let digest: [u8; 32] = sha256(bytes);
    hex_encode(&digest)
}

impl WalrusClient {
    /// The backend that the settings name: a local directory if one is set, else a publisher
    /// and an aggregator, of which both must be set.
    pub fn from_env(env: WalrusEnv) -> (r: Result<Self, WalrusConfigError>)
        ensures
            client_view(r) == configured(
                string_view(env.local_dir),
                string_view(env.publisher_url),
                string_view(env.aggregator_url),
                string_view(env.epochs),
            ),
    {
        if let Some(dir) = env.local_dir {
            return Ok(WalrusClient::local_dir(dir));
        }
        let publisher = match env.publisher_url {
            Some(url) => url,
            None => {
                return Err(WalrusConfigError::NoPublisher);
            },
        };
        let aggregator = match env.aggregator_url {
            Some(url) => url,
            None => {
                return Err(WalrusConfigError::NoAggregator);
            },
        };
        let epochs: u32 = match env.epochs {
            Some(s) => match parse_u32(s.as_str()) {
                Some(n) => n,
                None => DEFAULT_EPOCHS,
            },
            None => DEFAULT_EPOCHS,
        };
        Ok(WalrusClient::Http { publisher, aggregator, epochs })
    }

    /// A backend that keeps its blobs under `root`.
    pub fn local_dir(root: String) -> (r: Self)
        ensures
            r == (WalrusClient::LocalDir { root }),
    {
        WalrusClient::LocalDir { root }
    }

    /// Where to store `bytes`.
    pub fn put_plan(&self, bytes: &[u8]) -> (r: PutPlan)
        requires
            bytes@.len() < SHA256_MAX_BYTES,
        ensures
            r@ == put_target(self@, bytes@),
            r@ matches PutPlanView::WriteFile { blob_id, .. } ==> blob_id.len() == 64,
    {
        match self {
            WalrusClient::LocalDir { root } => PutPlan::WriteFile {
                root: root.clone(),
                blob_id: local_blob_id(bytes),
            },
            WalrusClient::Http { publisher, epochs, .. } => {
                let url = trim_end_slashes(publisher.as_str()).concat("/v1/blobs?epochs=").concat(
                    decimal(*epochs).as_str(),
                );
                PutPlan::Upload { url }
            },
        }
    }

    /// Where to find the blob behind `blob_id`.
    pub fn get_plan(&self, blob_id: &str) -> (r: GetPlan)
        ensures
            r@ == get_target(self@, blob_id@),
            r matches GetPlan::ReadFile { blob_id: id, .. } ==> id@ == blob_id@,
    {
        match self {
            WalrusClient::LocalDir { root } => GetPlan::ReadFile {
                root: root.clone(),
                blob_id: blob_id.to_owned(),
            },
            WalrusClient::Http { aggregator, .. } => {
                let url = trim_end_slashes(aggregator.as_str()).concat("/v1/blobs/").concat(blob_id);
                GetPlan::Download { url }
            },
        }
    }
}

/// What a status code says of a request for a blob.
#[derive(Debug, Clone, Copy, PartialEq, Eq, Structural)]
pub enum BlobStatus {
    /// The body holds the answer.
    Success,
    /// The blob is unknown or has expired.
    Missing,
    /// The body holds what went wrong.
    Failure,
}

/// Reads the status of an upload.
pub fn put_status(code: u16) -> (r: BlobStatus)
    ensures
        r == (if 200 <= code < 300 { BlobStatus::Success } else { BlobStatus::Failure }),
{
    if code >= 200 && code < 300 {
        BlobStatus::Success
    } else {
        BlobStatus::Failure
    }
}

/// Reads the status of a download. A blob that is not found is no error.
pub fn get_status(code: u16) -> (r: BlobStatus)
    ensures
        r == (if code == 404 {
            BlobStatus::Missing
        } else if 200 <= code < 300 {
            BlobStatus::Success
        } else {
            BlobStatus::Failure
        }),
{
    if code == 404 {
        BlobStatus::Missing
    } else {
        put_status(code)
    }
}

/// What the attempt to read a blob's file came to.
pub enum LocalRead<E> {
    Read(Vec<u8>),
    NotFound,
    Failed(E),
}

/// The blob that a file holds. A file that is not there is no error: the blob is unknown.
pub fn local_blob<E>(read: LocalRead<E>) -> (r: Result<Option<Vec<u8>>, E>)
    ensures
        r == (match read {
            LocalRead::Read(bytes) => Ok(Some(bytes)),
            LocalRead::NotFound => Ok(None),
            LocalRead::Failed(e) => Err(e),
        }),
{
    match read {
        LocalRead::Read(bytes) => Ok(Some(bytes)),
        LocalRead::NotFound => Ok(None),
        LocalRead::Failed(e) => Err(e),
    }
}

/// The error of an upload that was answered with a failure.
pub fn put_failure(status: &str, body: &str) -> (r: String)
    ensures
        r@ == "walrus put_blob HTTP "@ + status@ + ": "@ + body@,
{
    String::from_str("walrus put_blob HTTP ").concat(status).concat(": ").concat(body)
}

/// The error of a download that was answered with a failure.
pub fn get_failure(status: &str, body: &str) -> (r: String)
    ensures
        r@ == "walrus get_blob HTTP "@ + status@ + ": "@ + body@,
{
    String::from_str("walrus get_blob HTTP ").concat(status).concat(": ").concat(body)
}

/// The publisher's answer to an upload. It names the blob in one of two places.
#[derive(Debug)]
pub struct PutResponse {
    pub newly_created: Option<NewlyCreated>,
    pub already_certified: Option<AlreadyCertified>,
}

#[derive(Debug)]
pub struct NewlyCreated {
    pub blob_object: BlobObject,
}

#[derive(Debug)]
pub struct BlobObject {
    pub blob_id: String,
}

#[derive(Debug)]
pub struct AlreadyCertified {
    pub blob_id: String,
}

impl PutResponse {
    /// The identifier of the blob. That of a new blob comes first.
    pub fn blob_id(self) -> (r: Option<String>)
        ensures
            r == (match (self.newly_created, self.already_certified) {
                (Some(nc), _) => Some(nc.blob_object.blob_id),
                (None, Some(ac)) => Some(ac.blob_id),
                (None, None) => None,
            }),
    {
        match self.newly_created {
            Some(nc) => Some(nc.blob_object.blob_id),
            None => match self.already_certified {
                Some(ac) => Some(ac.blob_id),
                None => None,
            },
        }
    }
}

/// The identifier in the publisher's answer, or the error of an answer without one.
pub fn uploaded_id(response: PutResponse) -> (r: Result<String, String>)
    ensures
        r is Ok <==> (response.newly_created is Some || response.already_certified is Some),
        r matches Ok(id) ==> id == (match response.newly_created {
            Some(nc) => nc.blob_object.blob_id,
            None => response.already_certified->0.blob_id,
        }),
        r matches Err(e) ==> e@ == "walrus put_blob: no blobId in response"@,
{
    match response.blob_id() {
        Some(id) => Ok(id),
        None => Err(String::from_str("walrus put_blob: no blobId in response")),
    }
}

/// A local blob is read under the very name that it was written under.
pub proof fn law_local_blob_is_found_again(root: Seq<char>, bytes: Seq<u8>)
    ensures
        put_target(WalrusView::LocalDir { root }, bytes) matches PutPlanView::WriteFile {
            root: r,
            blob_id,
        } && get_target(WalrusView::LocalDir { root }, blob_id) == (GetPlanView::ReadFile {
            root: r,
            blob_id,
        }),
{
}

/// Equal bytes are stored once, under one name, and bytes share a name only where they share
/// their digest.
pub proof fn law_local_names_follow_content(a: Seq<u8>, b: Seq<u8>)
    ensures
        a == b ==> local_id(a) == local_id(b),
        local_id(a) == local_id(b) ==> sha256_digest(a) == sha256_digest(b),
{
    if local_id(a) == local_id(b) {
        crate::encoding::law_hex_tells_bytes_apart(sha256_digest(a), sha256_digest(b));
    }
}

/// A local directory is used wherever one is set, and without one both addresses are needed.
pub proof fn law_backend_choice(
    local_dir: Option<Seq<char>>,
    publisher_url: Option<Seq<char>>,
    aggregator_url: Option<Seq<char>>,
    epochs: Option<Seq<char>>,
)
    ensures
        configured(local_dir, publisher_url, aggregator_url, epochs) is Ok <==> (local_dir is Some
            || (publisher_url is Some && aggregator_url is Some)),
        local_dir is Some ==> configured(local_dir, publisher_url, aggregator_url, epochs) == Ok::<
            WalrusView,
            WalrusConfigError,
        >(WalrusView::LocalDir { root: local_dir->0 }),
{
}

/// Blobs are put where they will be looked for: as a file under the directory, or at the
/// publisher; and they are looked for there under the identifier that was given, or at the
/// aggregator.
pub proof fn law_where_blobs_go(
    root: Seq<char>,
    publisher: Seq<char>,
    aggregator: Seq<char>,
    epochs: u32,
    bytes: Seq<u8>,
    blob_id: Seq<char>,
)
    ensures
        put_target(WalrusView::LocalDir { root }, bytes) == (PutPlanView::WriteFile {
            root,
            blob_id: hex_text(sha256_digest(bytes)),
        }),
        get_target(WalrusView::LocalDir { root }, blob_id) == (GetPlanView::ReadFile {
            root,
            blob_id,
        }),
        put_target(WalrusView::Http { publisher, aggregator, epochs }, bytes)
            == (PutPlanView::Upload {
            url: without_end_slashes(publisher) + "/v1/blobs?epochs="@ + decimal_text(
                epochs as nat,
            ),
        }),
        get_target(WalrusView::Http { publisher, aggregator, epochs }, blob_id)
            == (GetPlanView::Download {
            url: without_end_slashes(aggregator) + "/v1/blobs/"@ + blob_id,
        }),
{
}

/// The settings, case by case: a directory comes before everything else; without one a missing
/// publisher is reported before a missing aggregator; and with both the epochs are those of the
/// setting if it is a number, and five if it is not or is not set.
pub proof fn law_settings_case_by_case(
    root: Seq<char>,
    publisher: Seq<char>,
    aggregator: Seq<char>,
    setting: Seq<char>,
    publisher_url: Option<Seq<char>>,
    aggregator_url: Option<Seq<char>>,
    epochs: Option<Seq<char>>,
)
    ensures
        configured(Some(root), publisher_url, aggregator_url, epochs) == Ok::<
            WalrusView,
            WalrusConfigError,
        >(WalrusView::LocalDir { root }),
        configured(None, None, aggregator_url, epochs) == Err::<WalrusView, WalrusConfigError>(
            WalrusConfigError::NoPublisher,
        ),
        configured(None, Some(publisher), None, epochs) == Err::<WalrusView, WalrusConfigError>(
            WalrusConfigError::NoAggregator,
        ),
        configured(None, Some(publisher), Some(aggregator), None) == Ok::<
            WalrusView,
            WalrusConfigError,
        >(WalrusView::Http { publisher, aggregator, epochs: 5 }),
        u32_of_text(setting) matches Some(n) ==> configured(
            None,
            Some(publisher),
            Some(aggregator),
            Some(setting),
        ) == Ok::<WalrusView, WalrusConfigError>(
            WalrusView::Http { publisher, aggregator, epochs: n },
        ),
        u32_of_text(setting) is None ==> configured(
            None,
            Some(publisher),
            Some(aggregator),
            Some(setting),
        ) == Ok::<WalrusView, WalrusConfigError>(
            WalrusView::Http { publisher, aggregator, epochs: 5 },
        ),
{
}

/// What the contracts read of a backend and of a plan is all there is to them.
pub proof fn law_backends_in_full(client: WalrusClient, put: PutPlan, get: GetPlan)
    ensures
        client matches WalrusClient::Http { publisher, aggregator, epochs } ==> client@
            == (WalrusView::Http { publisher: publisher@, aggregator: aggregator@, epochs }),
        client matches WalrusClient::LocalDir { root } ==> client@ == (WalrusView::LocalDir {
            root: root@,
        }),
        client_view(Ok(client)) == Ok::<WalrusView, WalrusConfigError>(client@),
        client_view(Err(WalrusConfigError::NoPublisher)) == Err::<WalrusView, WalrusConfigError>(
            WalrusConfigError::NoPublisher,
        ),
        client_view(Err(WalrusConfigError::NoAggregator)) == Err::<WalrusView, WalrusConfigError>(
            WalrusConfigError::NoAggregator,
        ),
        put matches PutPlan::WriteFile { root, blob_id } ==> put@ == (PutPlanView::WriteFile {
            root: root@,
            blob_id: blob_id@,
        }),
        put matches PutPlan::Upload { url } ==> put@ == (PutPlanView::Upload { url: url@ }),
        get matches GetPlan::ReadFile { root, blob_id } ==> get@ == (GetPlanView::ReadFile {
            root: root@,
            blob_id: blob_id@,
        }),
        get matches GetPlan::Download { url } ==> get@ == (GetPlanView::Download { url: url@ }),
{
}

} // verus!
