//! Loads what is known of a session.
//!
//! The session's row is looked up first. Without one the session is new, and its context is
//! empty. With one the facts about the user and the latest summary are read, and, if the row
//! names a blob, the blob is fetched and decrypted with the key of the session. What it
//! decrypts to is the stored conversation.

use super::{string_view, string_views, ContextView, Message, SessionContext};
use crate::cipher::{aes256_gcm_decrypt, cipher_error_text, open, opened, CipherError};
use vstd::prelude::*;

verus! {

/// How many facts about a user are read, latest first.
pub const RECENT_FACTS_LIMIT: i64 = 50;

/// A session as it stands before a turn.
pub struct LoadedSession {
    pub context: SessionContext,
    /// The blob that holds the conversation so far, which the next one will point back to.
    pub prev_blob_id: Option<String>,
    /// Whether the session had a row already. Without one the first turn inserts it.
    pub existed: bool,
}

#[verifier::ext_equal]
pub struct LoadedView {
    pub context: ContextView,
    pub prev_blob_id: Option<Seq<char>>,
    pub existed: bool,
}

impl View for LoadedSession {
    type V = LoadedView;

    open spec fn view(&self) -> LoadedView {
        LoadedView {
            context: self.context@,
            prev_blob_id: string_view(self.prev_blob_id),
            existed: self.existed,
        }
    }
}

/// The session of a turn that nothing came before.
pub open spec fn cold_start() -> LoadedView {
    LoadedView { context: super::empty_context(), prev_blob_id: None, existed: false }
}

/// A session with a row.
pub open spec fn existing_session(
    facts: Seq<Seq<char>>,
    summary: Option<Seq<char>>,
    prev_blob_id: Option<Seq<char>>,
    messages: Seq<super::MessageView>,
) -> LoadedView {
    LoadedView {
        context: ContextView { user_facts: facts, summary, recent_messages: messages },
        prev_blob_id,
        existed: true,
    }
}

/// Why a session could not be loaded.
#[derive(Debug)]
pub enum LoadError {
    /// The blob that the row names is gone.
    BlobMissing { blob_id: String },
    /// The blob does not open with the key of the session.
    Decrypt(CipherError),
}

#[verifier::ext_equal]
pub enum LoadErrorView {
    BlobMissing { blob_id: Seq<char> },
    Decrypt(CipherError),
}

impl View for LoadError {
    type V = LoadErrorView;

    open spec fn view(&self) -> LoadErrorView {
        match self {
            LoadError::BlobMissing { blob_id } => LoadErrorView::BlobMissing { blob_id: blob_id@ },
            LoadError::Decrypt(e) => LoadErrorView::Decrypt(*e),
        }
    }
}

pub open spec fn load_error_text(e: LoadErrorView) -> Seq<char> {
    match e {
        LoadErrorView::BlobMissing { blob_id } => "walrus blob "@ + blob_id + " missing"@,
        LoadErrorView::Decrypt(c) => "decrypt session blob: "@ + cipher_error_text(c),
    }
}

impl LoadError {
    /// What went wrong, in words.
    pub fn message(&self) -> (r: String)
        ensures
            r@ == load_error_text(self@),
    {
        match self {
            LoadError::BlobMissing { blob_id } => String::from_str("walrus blob ").concat(
                blob_id.as_str(),
            ).concat(" missing"),
            LoadError::Decrypt(e) => String::from_str("decrypt session blob: ").concat(
                e.message().as_str(),
            ),
        }
    }
}

/// What the lookup of the row leads to.
pub enum AfterRow {
    /// There is no row: the session is new.
    Done(LoadedSession),
    /// There is one. Facts and summary are read next.
    ReadContext { prev_blob_id: Option<String> },
}

/// Takes the row of a session, if it has one, and in it the identifier of its blob.
pub fn after_row(row: Option<Option<String>>) -> (r: AfterRow)
    ensures
        row is None ==> (r matches AfterRow::Done(s) && s@ == cold_start()),
        row is None ==> (r matches AfterRow::Done(s) && !s.existed && s.prev_blob_id is None
            && s.context.user_facts@.len() == 0 && s.context.summary is None
            && s.context.recent_messages@.len() == 0),
        row matches Some(id) ==> (r matches AfterRow::ReadContext { prev_blob_id } && prev_blob_id
            == id),
{
    match row {
        None => {
            let s = LoadedSession {
                context: SessionContext::default(),
                prev_blob_id: None,
                existed: false,
            };
            AfterRow::Done(s)
        },
        Some(prev_blob_id) => AfterRow::ReadContext { prev_blob_id },
    }
}

/// A session of which all is known but the messages in its blob.
pub struct PendingHistory {
    pub blob_id: String,
    pub user_facts: Vec<String>,
    pub summary: Option<String>,
}

/// What facts and summary lead to.
pub enum AfterContext {
    /// The row names no blob: the session has no messages yet.
    Done(LoadedSession),
    /// The blob is fetched next.
    FetchBlob(PendingHistory),
}

/// Takes the facts and the summary of a session that has a row.
pub fn after_context(
    prev_blob_id: Option<String>,
    user_facts: Vec<String>,
    summary: Option<String>,
) -> (r: AfterContext)
    ensures
        prev_blob_id is None ==> (r matches AfterContext::Done(s) && s@ == existing_session(
            string_views(user_facts@),
            string_view(summary),
            None,
            Seq::empty(),
        )),
        prev_blob_id is None ==> (r matches AfterContext::Done(s) && s.existed
            && s.prev_blob_id is None && s.context.user_facts == user_facts && s.context.summary
            == summary && s.context.recent_messages@.len() == 0),
        prev_blob_id matches Some(id) ==> r == AfterContext::FetchBlob(
            (PendingHistory { blob_id: id, user_facts, summary }),
        ),
{
    match prev_blob_id {
        None => {
            let s = LoadedSession {
                context: SessionContext { user_facts, summary, recent_messages: Vec::new() },
                prev_blob_id: None,
                existed: true,
            };
            assert(s@.context.recent_messages =~= Seq::empty());
            AfterContext::Done(s)
        },
        Some(blob_id) => AfterContext::FetchBlob(PendingHistory { blob_id, user_facts, summary }),
    }
}

/// What a fetched blob comes to under the key of the session.
pub open spec fn history_bytes(
    blob_id: Seq<char>,
    key: Seq<u8>,
    fetched: Option<Seq<u8>>,
) -> Result<Seq<u8>, LoadErrorView> {
    match fetched {
        None => Err(LoadErrorView::BlobMissing { blob_id }),
        Some(blob) => match opened(key, blob) {
            Ok(p) => Ok(p),
            Err(e) => Err(LoadErrorView::Decrypt(e)),
        },
    }
}

pub open spec fn history_view(r: Result<Vec<u8>, LoadError>) -> Result<Seq<u8>, LoadErrorView> {
    match r {
        Ok(p) => Ok(p@),
        Err(e) => Err(e@),
    }
}

pub open spec fn blob_view(b: Option<Vec<u8>>) -> Option<Seq<u8>> {
    match b {
        Some(b) => Some(b@),
        None => None,
    }
}

/// What a session loads as, from its row, the facts about its user, its summary and its blob,
/// where `decode` reads the encoded conversation. Nothing where loading fails.
pub open spec fn loaded_from(
    row: Option<Option<Seq<char>>>,
    facts: Seq<Seq<char>>,
    summary: Option<Seq<char>>,
    key: Seq<u8>,
    fetched: Option<Seq<u8>>,
    decode: spec_fn(Seq<u8>) -> Option<Seq<super::MessageView>>,
) -> Option<LoadedView> {
    match row {
        None => Some(cold_start()),
        Some(None) => Some(existing_session(facts, summary, None, Seq::empty())),
        Some(Some(blob_id)) => match history_bytes(blob_id, key, fetched) {
            Ok(encoded) => match decode(encoded) {
                Some(messages) => Some(existing_session(facts, summary, Some(blob_id), messages)),
                None => None,
            },
            Err(_) => None,
        },
    }
}

impl PendingHistory {
    /// Takes the blob and decrypts it. The result is the encoded conversation.
    pub fn decrypt(&self, key: &[u8; 32], fetched: Option<Vec<u8>>) -> (r: Result<
        Vec<u8>,
        LoadError,
    >)
        ensures
            history_view(r) == history_bytes(self.blob_id@, key@, blob_view(fetched)),
    {
        match fetched {
            None => Err(LoadError::BlobMissing { blob_id: self.blob_id.clone() }),
            Some(blob) => self.decrypted(open(key, blob.as_slice())),
        }
    }

    /// Takes what decryption came to.
    pub fn decrypted(&self, result: Result<Vec<u8>, CipherError>) -> (r: Result<Vec<u8>, LoadError>)
        ensures
            r == (match result {
                Ok(p) => Ok(p),
                Err(e) => Err(LoadError::Decrypt(e)),
            }),
    {
        match result {
            Ok(p) => Ok(p),
            Err(e) => Err(LoadError::Decrypt(e)),
        }
    }

    /// Takes the decoded conversation, which completes the session.
    pub fn finish(self, messages: Vec<Message>) -> (r: LoadedSession)
        ensures
            r@ == existing_session(
                string_views(self.user_facts@),
                string_view(self.summary),
                Some(self.blob_id@),
                super::message_views(messages@),
            ),
            r.context.user_facts == self.user_facts,
            r.context.summary == self.summary,
            r.context.recent_messages == messages,
            r.prev_blob_id == Some(self.blob_id),
            r.existed,
    {
        LoadedSession {
            context: SessionContext {
                user_facts: self.user_facts,
                summary: self.summary,
                recent_messages: messages,
            },
            prev_blob_id: Some(self.blob_id),
            existed: true,
        }
    }
}

/// A session with a row, with or without a blob, shows each thing that was read, as it was read:
/// the facts, the summary, the blob and the messages.
pub proof fn law_what_was_read_is_shown(
    facts: Seq<Seq<char>>,
    summary: Option<Seq<char>>,
    prev_blob_id: Option<Seq<char>>,
    messages: Seq<super::MessageView>,
)
    ensures
        ({
            let session = existing_session(facts, summary, prev_blob_id, messages);
            &&& session.context.user_facts == facts
            &&& session.context.summary == summary
            &&& session.context.recent_messages == messages
            &&& session.prev_blob_id == prev_blob_id
            &&& session.existed
        }),
{
}

/// A new session shows nothing, and is known to be new.
pub proof fn law_new_sessions_show_nothing()
    ensures
        cold_start().context.user_facts.len() == 0,
        cold_start().context.summary is None,
        cold_start().context.recent_messages.len() == 0,
        cold_start().prev_blob_id is None,
        !cold_start().existed,
{
}

/// Loading, case by case. Whatever the blob, facts and summary are shown as they were read; a row
/// without a blob has no messages; a row with one has the messages that the blob holds; and a
/// blob that is gone, does not open or does not decode fails the loading.
pub proof fn law_loading_case_by_case(
    facts: Seq<Seq<char>>,
    summary: Option<Seq<char>>,
    blob_id: Seq<char>,
    key: Seq<u8>,
    blob: Seq<u8>,
    decode: spec_fn(Seq<u8>) -> Option<Seq<super::MessageView>>,
)
    ensures
        loaded_from(None, facts, summary, key, None, decode) matches Some(l) && !l.existed
            && l.prev_blob_id is None && l.context.user_facts.len() == 0 && l.context.summary is None
            && l.context.recent_messages.len() == 0,
        loaded_from(Some(None), facts, summary, key, None, decode) matches Some(l) && l.existed
            && l.prev_blob_id is None && l.context.user_facts == facts && l.context.summary == summary
            && l.context.recent_messages.len() == 0,
        loaded_from(Some(Some(blob_id)), facts, summary, key, None, decode) is None,
        blob.len() < 12 ==> loaded_from(
            Some(Some(blob_id)),
            facts,
            summary,
            key,
            Some(blob),
            decode,
        ) is None,
        blob.len() >= 12 ==> ({
            let plain = aes256_gcm_decrypt(
                key,
                blob.subrange(0, 12),
                blob.subrange(12, blob.len() as int),
            );
            let loaded = loaded_from(Some(Some(blob_id)), facts, summary, key, Some(blob), decode);
            &&& loaded is Some <==> plain is Some && decode(plain->0) is Some
            &&& loaded matches Some(l) ==> l.existed && l.prev_blob_id == Some(blob_id)
                && l.context.user_facts == facts && l.context.summary == summary
                && l.context.recent_messages == decode(plain->0)->0
        }),
{
}

/// Why a conversation cannot be had: the blob is gone, is too short for a nonce, or does not
/// authenticate under the key. Otherwise it is what the blob decrypts to.
pub proof fn law_why_a_history_cannot_be_had(blob_id: Seq<char>, key: Seq<u8>, blob: Seq<u8>)
    ensures
        history_bytes(blob_id, key, None) == Err::<Seq<u8>, LoadErrorView>(
            LoadErrorView::BlobMissing { blob_id },
        ),
        blob.len() < 12 ==> history_bytes(blob_id, key, Some(blob)) == Err::<
            Seq<u8>,
            LoadErrorView,
        >(LoadErrorView::Decrypt(CipherError::TooShort)),
        blob.len() >= 12 ==> ({
            let plain = aes256_gcm_decrypt(
                key,
                blob.subrange(0, 12),
                blob.subrange(12, blob.len() as int),
            );
            &&& plain is None ==> history_bytes(blob_id, key, Some(blob)) == Err::<
                Seq<u8>,
                LoadErrorView,
            >(LoadErrorView::Decrypt(CipherError::AuthFailed))
            &&& plain is Some ==> history_bytes(blob_id, key, Some(blob)) == Ok::<
                Seq<u8>,
                LoadErrorView,
            >(plain->0)
        }),
        load_error_text(LoadErrorView::BlobMissing { blob_id }) == "walrus blob "@ + blob_id
            + " missing"@,
        load_error_text(LoadErrorView::Decrypt(CipherError::TooShort)) == "decrypt session blob: "@
            + "ciphertext too short to contain a nonce"@,
        load_error_text(LoadErrorView::Decrypt(CipherError::AuthFailed))
            == "decrypt session blob: "@
            + "AEAD authentication failed (wrong key or tampered ciphertext)"@,
{
}

/// What the contracts read of a loaded session is all there is to it.
pub proof fn law_loaded_sessions_in_full(session: LoadedSession, blob: Option<Vec<u8>>)
    ensures
        session@.context == session.context@,
        session.prev_blob_id matches Some(id) ==> session@.prev_blob_id == Some(id@),
        session.prev_blob_id is None ==> session@.prev_blob_id is None,
        session@.existed == session.existed,
        blob matches Some(b) ==> blob_view(blob) == Some(b@),
        blob is None ==> blob_view(blob) is None,
{
}

/// What the contracts read of a failed or decrypted history is all there is to it.
pub proof fn law_load_errors_in_full(error: LoadError, bytes: Vec<u8>)
    ensures
        error matches LoadError::BlobMissing { blob_id } ==> error@ == (
        LoadErrorView::BlobMissing { blob_id: blob_id@ }),
        error matches LoadError::Decrypt(e) ==> error@ == LoadErrorView::Decrypt(e),
        history_view(Ok(bytes)) == Ok::<Seq<u8>, LoadErrorView>(bytes@),
        history_view(Err(error)) == Err::<Seq<u8>, LoadErrorView>(error@),
{
}

} // verus!
