//! Writes a completed turn back.
//!
//! The conversation with the new turn is encoded, encrypted and stored as a new blob. Then the
//! session's row is inserted or brought up to date, a row for the turn is added, and this node
//! is noted as warm for the session, so that later turns are routed back to it.

use super::fetch::{existing_session, history_bytes, loaded_from, LoadErrorView};
use super::{message, message_views, string_view, Message, MessageView, SessionBlob};
use crate::cipher::{seal, sealed, MAX_PLAINTEXT, NONCE_LEN, TAG_LEN};
use crate::encoding::{is_random_uuid, random_uuid, uuid_text, uuid_to_string};
use vstd::prelude::*;

verus! {

/// A turn that is to be written back.
pub struct CommitInput<'a> {
    pub session_id: u128,
    pub request_id: u128,
    pub user_address: &'a str,
    pub model_id: &'a str,
    pub node_peer_id: &'a str,
    pub new_user_message: &'a str,
    pub assistant_reply: &'a str,
    pub input_tokens: u32,
    pub output_tokens: u32,
    pub latency_ms: u32,
    pub cost_nanox: u64,
    pub prior_messages: Vec<Message>,
    pub prev_blob_id: Option<String>,
    /// Whether the session has a row already.
    pub session_existed: bool,
}

#[verifier::ext_equal]
pub struct CommitView {
    pub session_id: u128,
    pub request_id: u128,
    pub user_address: Seq<char>,
    pub model_id: Seq<char>,
    pub node_peer_id: Seq<char>,
    pub new_user_message: Seq<char>,
    pub assistant_reply: Seq<char>,
    pub input_tokens: u32,
    pub output_tokens: u32,
    pub latency_ms: u32,
    pub cost_nanox: u64,
    pub prior_messages: Seq<MessageView>,
    pub prev_blob_id: Option<Seq<char>>,
    pub session_existed: bool,
}

impl<'a> View for CommitInput<'a> {
    type V = CommitView;

    open spec fn view(&self) -> CommitView {
        CommitView {
            session_id: self.session_id,
            request_id: self.request_id,
            user_address: self.user_address@,
            model_id: self.model_id@,
            node_peer_id: self.node_peer_id@,
            new_user_message: self.new_user_message@,
            assistant_reply: self.assistant_reply@,
            input_tokens: self.input_tokens,
            output_tokens: self.output_tokens,
            latency_ms: self.latency_ms,
            cost_nanox: self.cost_nanox,
            prior_messages: message_views(self.prior_messages@),
            prev_blob_id: string_view(self.prev_blob_id),
            session_existed: self.session_existed,
        }
    }
}

/// What was written.
pub struct CommitOutput {
    pub walrus_blob_id: String,
    pub turn_id: u128,
}

/// A conversation with one more turn: what the user said, and what the model answered.
pub open spec fn with_turn(
    prior: Seq<MessageView>,
    user: Seq<char>,
    assistant: Seq<char>,
) -> Seq<MessageView> {
    prior.push(MessageView { role: "user"@, content: user }).push(
        MessageView { role: "assistant"@, content: assistant },
    )
}

/// Adds a turn to a conversation.
pub fn extend_history(prior: Vec<Message>, user: &str, assistant: &str) -> (r: Vec<Message>)
    ensures
        message_views(r@) == with_turn(message_views(prior@), user@, assistant@),
        r@.len() == prior@.len() + 2,
        r@.subrange(0, prior@.len() as int) == prior@,
        r@[prior@.len() as int].role@ == "user"@,
        r@[prior@.len() as int].content@ == user@,
        r@[prior@.len() as int + 1].role@ == "assistant"@,
        r@[prior@.len() as int + 1].content@ == assistant@,
{
    let mut messages: Vec<Message> = prior;
    messages.push(message("user", user));
    messages.push(message("assistant", assistant));
    assert(message_views(messages@) =~= with_turn(message_views(prior@), user@, assistant@));
    assert(messages@.subrange(0, prior@.len() as int) =~= prior@);
    messages
}

/// The blob of a session after a turn.
pub fn updated_blob(prior: Vec<Message>, user: &str, assistant: &str) -> (r: SessionBlob)
    ensures
        r.version == SessionBlob::CURRENT_VERSION,
        message_views(r.messages@) == with_turn(message_views(prior@), user@, assistant@),
        r.messages@.len() == prior@.len() + 2,
        r.messages@.subrange(0, prior@.len() as int) == prior@,
        r.messages@[prior@.len() as int].role@ == "user"@,
        r.messages@[prior@.len() as int].content@ == user@,
        r.messages@[prior@.len() as int + 1].role@ == "assistant"@,
        r.messages@[prior@.len() as int + 1].content@ == assistant@,
{
    SessionBlob::new(extend_history(prior, user, assistant))
}

/// Encrypts an encoded conversation for storage. Wherever the result is kept, loading it with
/// the same key gives the conversation back, as far as the encoding reads back.
pub fn encrypt_history(key: &[u8; 32], encoded: &[u8]) -> (r: Vec<u8>)
    requires
        encoded@.len() <= MAX_PLAINTEXT,
    ensures
        r@ == sealed(key@, r@.subrange(0, NONCE_LEN as int), encoded@),
        r@.len() == NONCE_LEN + encoded@.len() + TAG_LEN,
        forall|blob_id: Seq<char>|
            #[trigger] history_bytes(blob_id, key@, Some(r@)) == Ok::<Seq<u8>, LoadErrorView>(
                encoded@,
            ),
        forall|
            blob_id: Seq<char>,
            facts: Seq<Seq<char>>,
            summary: Option<Seq<char>>,
            decode: spec_fn(Seq<u8>) -> Option<Seq<MessageView>>,
        | #[trigger]
            loaded_from(Some(Some(blob_id)), facts, summary, key@, Some(r@), decode) == (
            match decode(encoded@) {
                Some(messages) => Some(existing_session(facts, summary, Some(blob_id), messages)),
                None => None,
            }),
{
    seal(key, encoded)
}

/// The signed number with the same 64 bits.
pub open spec fn as_signed64(n: u64) -> int {
    if n <= i64::MAX {
        n as int
    } else {
        n - 0x1_0000_0000_0000_0000
    }
}

/// The signed number with the same 32 bits.
pub open spec fn as_signed32(n: u32) -> int {
    if n <= i32::MAX {
        n as int
    } else {
        n - 0x1_0000_0000
    }
}

fn signed64(n: u64) -> (r: i64)
    ensures
        r == as_signed64(n),
{
    if n <= i64::MAX as u64 {
        n as i64
    } else {
        -((u64::MAX - n) as i64) - 1
    }
}

fn signed32(n: u32) -> (r: i32)
    ensures
        r == as_signed32(n),
{
    if n <= i32::MAX as u32 {
        n as i32
    } else {
        -((u32::MAX - n) as i32) - 1
    }
}

/// What happens to the row of the session.
pub enum SessionWrite {
    /// A new row, or one that appeared meanwhile, which the turn is then added to.
    Insert {
        session_id: u128,
        user_address: String,
        model_id: String,
        walrus_blob_id: String,
        total_tokens: i64,
        cost_nanox: i64,
    },
    /// The turn is added to the row, and the row points back to the blob before.
    Update {
        session_id: u128,
        walrus_blob_id: String,
        prev_blob_id: Option<String>,
        total_tokens: i64,
        cost_nanox: i64,
    },
}

#[verifier::ext_equal]
pub enum SessionWriteView {
    Insert {
        session_id: u128,
        user_address: Seq<char>,
        model_id: Seq<char>,
        walrus_blob_id: Seq<char>,
        total_tokens: int,
        cost_nanox: int,
    },
    Update {
        session_id: u128,
        walrus_blob_id: Seq<char>,
        prev_blob_id: Option<Seq<char>>,
        total_tokens: int,
        cost_nanox: int,
    },
}

impl View for SessionWrite {
    type V = SessionWriteView;

    open spec fn view(&self) -> SessionWriteView {
        match self {
            SessionWrite::Insert {
                session_id,
                user_address,
                model_id,
                walrus_blob_id,
                total_tokens,
                cost_nanox,
            } => SessionWriteView::Insert {
                session_id: *session_id,
                user_address: user_address@,
                model_id: model_id@,
                walrus_blob_id: walrus_blob_id@,
                total_tokens: *total_tokens as int,
                cost_nanox: *cost_nanox as int,
            },
            SessionWrite::Update {
                session_id,
                walrus_blob_id,
                prev_blob_id,
                total_tokens,
                cost_nanox,
            } => SessionWriteView::Update {
                session_id: *session_id,
                walrus_blob_id: walrus_blob_id@,
                prev_blob_id: string_view(*prev_blob_id),
                total_tokens: *total_tokens as int,
                cost_nanox: *cost_nanox as int,
            },
        }
    }
}

/// The row of a turn.
pub struct TurnRow {
    pub turn_id: u128,
    pub session_id: u128,
    pub user_address: String,
    pub request_id: String,
    pub node_peer_id: String,
    pub input_tokens: i32,
    pub output_tokens: i32,
    pub latency_ms: i32,
    pub cost_nanox: i64,
}

#[verifier::ext_equal]
pub struct TurnRowView {
    pub turn_id: u128,
    pub session_id: u128,
    pub user_address: Seq<char>,
    pub request_id: Seq<char>,
    pub node_peer_id: Seq<char>,
    pub input_tokens: int,
    pub output_tokens: int,
    pub latency_ms: int,
    pub cost_nanox: int,
}

impl View for TurnRow {
    type V = TurnRowView;

    open spec fn view(&self) -> TurnRowView {
        TurnRowView {
            turn_id: self.turn_id,
            session_id: self.session_id,
            user_address: self.user_address@,
            request_id: self.request_id@,
            node_peer_id: self.node_peer_id@,
            input_tokens: self.input_tokens as int,
            output_tokens: self.output_tokens as int,
            latency_ms: self.latency_ms as int,
            cost_nanox: self.cost_nanox as int,
        }
    }
}

/// The row that notes this node as warm for a session.
pub struct WarmRow {
    pub node_peer_id: String,
    pub session_id: u128,
}

/// All that one turn writes to the database, in one transaction.
pub struct CommitPlan {
    pub session: SessionWrite,
    pub turn: TurnRow,
    pub warm: WarmRow,
}

/// What a turn does to the row of its session.
pub open spec fn session_write(input: CommitView, blob_id: Seq<char>) -> SessionWriteView {
    if input.session_existed {
        SessionWriteView::Update {
            session_id: input.session_id,
            walrus_blob_id: blob_id,
            prev_blob_id: input.prev_blob_id,
            total_tokens: input.input_tokens + input.output_tokens,
            cost_nanox: as_signed64(input.cost_nanox),
        }
    } else {
        SessionWriteView::Insert {
            session_id: input.session_id,
            user_address: input.user_address,
            model_id: input.model_id,
            walrus_blob_id: blob_id,
            total_tokens: input.input_tokens + input.output_tokens,
            cost_nanox: as_signed64(input.cost_nanox),
        }
    }
}

/// The row of a turn.
pub open spec fn turn_row(input: CommitView, turn_id: u128) -> TurnRowView {
    TurnRowView {
        turn_id,
        session_id: input.session_id,
        user_address: input.user_address,
        request_id: uuid_text(input.request_id),
        node_peer_id: input.node_peer_id,
        input_tokens: as_signed32(input.input_tokens),
        output_tokens: as_signed32(input.output_tokens),
        latency_ms: as_signed32(input.latency_ms),
        cost_nanox: as_signed64(input.cost_nanox),
    }
}

/// What a turn writes, once its blob is stored under `walrus_blob_id`.
pub fn commit_plan(input: &CommitInput, walrus_blob_id: &str, turn_id: u128) -> (r: CommitPlan)
    ensures
        r.session@ == session_write(input@, walrus_blob_id@),
        r.turn@ == turn_row(input@, turn_id),
        input.session_existed <==> r.session is Update,
        r.session matches SessionWrite::Insert {
            session_id,
            user_address,
            model_id,
            walrus_blob_id: blob_id,
            total_tokens,
            ..
        } ==> session_id == input.session_id && user_address@ == input.user_address@ && model_id@
            == input.model_id@ && blob_id@ == walrus_blob_id@ && total_tokens == input.input_tokens
            + input.output_tokens,
        r.session matches SessionWrite::Update {
            session_id,
            walrus_blob_id: blob_id,
            prev_blob_id,
            total_tokens,
            ..
        } ==> session_id == input.session_id && blob_id@ == walrus_blob_id@ && prev_blob_id
            == input.prev_blob_id && total_tokens == input.input_tokens + input.output_tokens,
        r.turn.turn_id == turn_id,
        r.turn.session_id == input.session_id,
        r.turn.user_address@ == input.user_address@,
        r.turn.node_peer_id@ == input.node_peer_id@,
        r.warm.node_peer_id@ == input.node_peer_id@,
        r.warm.session_id == input.session_id,
{
    let total_tokens: i64 = input.input_tokens as i64 + input.output_tokens as i64;
    let cost_nanox: i64 = signed64(input.cost_nanox);
    let session = if !input.session_existed {
        SessionWrite::Insert {
            session_id: input.session_id,
            user_address: input.user_address.to_owned(),
            model_id: input.model_id.to_owned(),
            walrus_blob_id: walrus_blob_id.to_owned(),
            total_tokens,
            cost_nanox,
        }
    } else {
        SessionWrite::Update {
            session_id: input.session_id,
            walrus_blob_id: walrus_blob_id.to_owned(),
            prev_blob_id: input.prev_blob_id.clone(),
            total_tokens,
            cost_nanox,
        }
    };
    let turn = TurnRow {
        turn_id,
        session_id: input.session_id,
        user_address: input.user_address.to_owned(),
        request_id: uuid_to_string(input.request_id),
        node_peer_id: input.node_peer_id.to_owned(),
        input_tokens: signed32(input.input_tokens),
        output_tokens: signed32(input.output_tokens),
        latency_ms: signed32(input.latency_ms),
        cost_nanox,
    };
    let warm = WarmRow {
        node_peer_id: input.node_peer_id.to_owned(),
        session_id: input.session_id,
    };
    CommitPlan { session, turn, warm }
}

/// An identifier for a new turn. It rests on chance, but for the marks of a random identifier.
pub fn new_turn_id() -> (r: u128)
    ensures
        is_random_uuid(r),
{
    random_uuid()
}

/// The blob that the row of a session names after a turn.
pub open spec fn blob_in_row(write: SessionWriteView) -> Seq<char> {
    match write {
        SessionWriteView::Insert { walrus_blob_id, .. } => walrus_blob_id,
        SessionWriteView::Update { walrus_blob_id, .. } => walrus_blob_id,
    }
}

/// Loading gives back what was committed. Where the stored blob opens to the encoded
/// conversation, as that of [`encrypt_history`] does, and the encoding reads back, the session
/// loads with that blob as the one before, as one that existed, and with the conversation as it
/// was plus the turn's question and answer.
pub proof fn law_load_gives_back_what_was_committed(
    input: CommitView,
    blob_id: Seq<char>,
    key: Seq<u8>,
    encoded: Seq<u8>,
    blob: Seq<u8>,
    facts: Seq<Seq<char>>,
    summary: Option<Seq<char>>,
    decode: spec_fn(Seq<u8>) -> Option<Seq<MessageView>>,
)
    ensures
        ({
            let stored = with_turn(
                input.prior_messages,
                input.new_user_message,
                input.assistant_reply,
            );
            let row = Some(Some(blob_in_row(session_write(input, blob_id))));
            history_bytes(blob_id, key, Some(blob)) == Ok::<Seq<u8>, LoadErrorView>(encoded)
                && decode(encoded) == Some(stored) ==> ({
                &&& loaded_from(row, facts, summary, key, Some(blob), decode) == Some(
                    existing_session(facts, summary, Some(blob_id), stored),
                )
                &&& existing_session(facts, summary, Some(blob_id), stored).existed
                &&& existing_session(facts, summary, Some(blob_id), stored).prev_blob_id == Some(
                    blob_id,
                )
                &&& existing_session(facts, summary, Some(blob_id), stored).context.recent_messages
                    == input.prior_messages + seq![
                    MessageView { role: "user"@, content: input.new_user_message },
                    MessageView { role: "assistant"@, content: input.assistant_reply },
                ]
            })
        }),
{
    assert(with_turn(input.prior_messages, input.new_user_message, input.assistant_reply)
        =~= input.prior_messages + seq![
        MessageView { role: "user"@, content: input.new_user_message },
        MessageView { role: "assistant"@, content: input.assistant_reply },
    ]);
}

/// A conversation only grows: every turn keeps what came before and adds two messages.
pub proof fn law_history_only_grows(prior: Seq<MessageView>, user: Seq<char>, assistant: Seq<char>)
    ensures
        prior.is_prefix_of(with_turn(prior, user, assistant)),
        with_turn(prior, user, assistant).len() == prior.len() + 2,
{
    let longer = with_turn(prior, user, assistant);
    assert(longer.subrange(0, prior.len() as int) =~= prior);
}

/// A turn adds the user's message and then the model's answer, under those roles, and changes
/// nothing that came before.
pub proof fn law_a_turn_adds_question_and_answer(
    prior: Seq<MessageView>,
    user: Seq<char>,
    assistant: Seq<char>,
)
    ensures
        with_turn(prior, user, assistant).len() == prior.len() + 2,
        forall|i: int|
            0 <= i < prior.len() ==> #[trigger] with_turn(prior, user, assistant)[i] == prior[i],
        with_turn(prior, user, assistant)[prior.len() as int].role == "user"@,
        with_turn(prior, user, assistant)[prior.len() as int].content == user,
        with_turn(prior, user, assistant)[prior.len() as int + 1].role == "assistant"@,
        with_turn(prior, user, assistant)[prior.len() as int + 1].content == assistant,
{
}

/// Every turn adds all of its tokens to its session, whatever the history: as many as its own row
/// says, for counts that fit the row.
pub proof fn law_sessions_count_every_token(input: CommitView, blob_id: Seq<char>, turn_id: u128)
    ensures
        ({
            let added = match session_write(input, blob_id) {
                SessionWriteView::Insert { total_tokens, .. } => total_tokens,
                SessionWriteView::Update { total_tokens, .. } => total_tokens,
            };
            &&& added == input.input_tokens + input.output_tokens
            &&& input.input_tokens < 0x8000_0000 && input.output_tokens < 0x8000_0000 ==> added
                == turn_row(input, turn_id).input_tokens + turn_row(input, turn_id).output_tokens
        }),
{
}

/// Every turn adds its cost to its session, and the session and the turn agree on it.
pub proof fn law_sessions_count_every_cost(input: CommitView, blob_id: Seq<char>, turn_id: u128)
    ensures
        ({
            let added = match session_write(input, blob_id) {
                SessionWriteView::Insert { cost_nanox, .. } => cost_nanox,
                SessionWriteView::Update { cost_nanox, .. } => cost_nanox,
            };
            &&& added == turn_row(input, turn_id).cost_nanox
            &&& input.cost_nanox < 0x8000_0000_0000_0000 ==> added == input.cost_nanox
            &&& input.cost_nanox >= 0x8000_0000_0000_0000 ==> added == input.cost_nanox
                - 0x1_0000_0000_0000_0000
        }),
{
}

/// A session without a row gets one, that names its user, its model and its blob. A session with
/// one keeps it, and the row names the new blob and points back to the one before.
pub proof fn law_rows_name_their_session(input: CommitView, blob_id: Seq<char>)
    ensures
        input.session_existed <==> session_write(input, blob_id) is Update,
        session_write(input, blob_id) matches SessionWriteView::Insert {
            session_id,
            user_address,
            model_id,
            walrus_blob_id,
            ..
        } ==> session_id == input.session_id && user_address == input.user_address && model_id
            == input.model_id && walrus_blob_id == blob_id,
        session_write(input, blob_id) matches SessionWriteView::Update {
            session_id,
            walrus_blob_id,
            prev_blob_id,
            ..
        } ==> session_id == input.session_id && walrus_blob_id == blob_id && prev_blob_id
            == input.prev_blob_id,
{
}

/// The row of a turn says who asked what of which node, under the turn's own identifier, and
/// holds every number that fits a signed column unchanged; a greater one keeps its bits.
pub proof fn law_turn_rows_say_what_happened(input: CommitView, turn_id: u128)
    ensures
        ({
            let row = turn_row(input, turn_id);
            &&& row.turn_id == turn_id
            &&& row.session_id == input.session_id
            &&& row.user_address == input.user_address
            &&& row.request_id == uuid_text(input.request_id)
            &&& row.node_peer_id == input.node_peer_id
            &&& input.input_tokens < 0x8000_0000 ==> row.input_tokens == input.input_tokens
            &&& input.input_tokens >= 0x8000_0000 ==> row.input_tokens == input.input_tokens
                - 0x1_0000_0000
            &&& input.output_tokens < 0x8000_0000 ==> row.output_tokens == input.output_tokens
            &&& input.output_tokens >= 0x8000_0000 ==> row.output_tokens == input.output_tokens
                - 0x1_0000_0000
            &&& input.latency_ms < 0x8000_0000 ==> row.latency_ms == input.latency_ms
            &&& input.latency_ms >= 0x8000_0000 ==> row.latency_ms == input.latency_ms
                - 0x1_0000_0000
        }),
{
}

/// What the contracts read of a turn to be written, and of the rows, is all there is to them.
pub proof fn law_commits_in_full(input: CommitInput, write: SessionWrite, row: TurnRow)
    ensures
        input@.session_id == input.session_id,
        input@.request_id == input.request_id,
        input@.user_address == input.user_address@,
        input@.model_id == input.model_id@,
        input@.node_peer_id == input.node_peer_id@,
        input@.new_user_message == input.new_user_message@,
        input@.assistant_reply == input.assistant_reply@,
        input@.input_tokens == input.input_tokens,
        input@.output_tokens == input.output_tokens,
        input@.latency_ms == input.latency_ms,
        input@.cost_nanox == input.cost_nanox,
        input@.prior_messages.len() == input.prior_messages@.len(),
        forall|i: int|
            0 <= i < input.prior_messages@.len() ==> #[trigger] input@.prior_messages[i]
                == input.prior_messages@[i]@,
        input.prev_blob_id matches Some(id) ==> input@.prev_blob_id == Some(id@),
        input.prev_blob_id is None ==> input@.prev_blob_id is None,
        input@.session_existed == input.session_existed,
        write matches SessionWrite::Insert {
            session_id,
            user_address,
            model_id,
            walrus_blob_id,
            total_tokens,
            cost_nanox,
        } ==> (write@ matches SessionWriteView::Insert {
            session_id: s,
            user_address: u,
            model_id: m,
            walrus_blob_id: b,
            total_tokens: t,
            cost_nanox: c,
        } && s == session_id && u == user_address@ && m == model_id@ && b == walrus_blob_id@ && t
            == total_tokens && c == cost_nanox),
        write matches SessionWrite::Update {
            session_id,
            walrus_blob_id,
            prev_blob_id,
            total_tokens,
            cost_nanox,
        } ==> (write@ matches SessionWriteView::Update {
            session_id: s,
            walrus_blob_id: b,
            prev_blob_id: p,
            total_tokens: t,
            cost_nanox: c,
        } && s == session_id && b == walrus_blob_id@ && p == string_view(prev_blob_id) && t
            == total_tokens && c == cost_nanox),
        row@.turn_id == row.turn_id,
        row@.session_id == row.session_id,
        row@.user_address == row.user_address@,
        row@.request_id == row.request_id@,
        row@.node_peer_id == row.node_peer_id@,
        row@.input_tokens == row.input_tokens,
        row@.output_tokens == row.output_tokens,
        row@.latency_ms == row.latency_ms,
        row@.cost_nanox == row.cost_nanox,
{
}

} // verus!
