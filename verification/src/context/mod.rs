//! Per-session context.
//!
//! A turn loads the conversation so far, assembles the window that fits the model,
//! and writes the longer conversation back once the model has answered.

use vstd::prelude::*;

pub mod assemble;
pub mod fetch;
pub mod persist;

verus! {

/// One message of a conversation.
#[derive(Debug)]
pub struct Message {
    pub role: String,
    pub content: String,
}

#[verifier::ext_equal]
pub struct MessageView {
    pub role: Seq<char>,
    pub content: Seq<char>,
}

impl View for Message {
    type V = MessageView;

    open spec fn view(&self) -> MessageView {
        MessageView { role: self.role@, content: self.content@ }
    }
}

impl Clone for Message {
    fn clone(&self) -> (r: Self)
        ensures
            r == *self,
    {
        Message { role: self.role.clone(), content: self.content.clone() }
    }
}

/// The contents of a list of messages.
pub open spec fn message_views(messages: Seq<Message>) -> Seq<MessageView> {
    Seq::new(messages.len(), |i: int| messages[i]@)
}

/// The contents of a list of strings.
pub open spec fn string_views(strings: Seq<String>) -> Seq<Seq<char>> {
    Seq::new(strings.len(), |i: int| strings[i]@)
}

/// The contents of a string that may be absent.
pub open spec fn string_view(s: Option<String>) -> Option<Seq<char>> {
    match s {
        Some(s) => Some(s@),
        None => None,
    }
}

/// The contents of a borrowed string that may be absent.
pub open spec fn str_view(s: Option<&str>) -> Option<Seq<char>> {
    match s {
        Some(s) => Some(s@),
        None => None,
    }
}

/// A copy of a list of messages.
pub fn clone_messages(messages: &Vec<Message>) -> (r: Vec<Message>)
    ensures
        r@ == messages@,
{
    let mut out: Vec<Message> = Vec::new();
    let mut i: usize = 0;
    while i < messages.len()
        invariant
            i <= messages@.len(),
            out@ == messages@.subrange(0, i as int),
        decreases messages@.len() - i,
    {
        out.push(messages[i].clone());
        assert(out@ =~= messages@.subrange(0, i + 1));
        i += 1;
    }
    assert(out@ =~= messages@);
    out
}

/// A message of the given role.
pub fn message(role: &str, content: &str) -> (r: Message)
    ensures
        r@ == (MessageView { role: role@, content: content@ }),
{
    Message { role: role.to_owned(), content: content.to_owned() }
}

/// Everything known of a session when a turn begins. Empty for cold starts.
#[derive(Debug)]
pub struct SessionContext {
    /// Long-term facts about the user, for the system prompt.
    pub user_facts: Vec<String>,
    /// Rolling summary of older messages, which it replaces in the window.
    pub summary: Option<String>,
    /// Verbatim recent turns, most recent last.
    pub recent_messages: Vec<Message>,
}

#[verifier::ext_equal]
pub struct ContextView {
    pub user_facts: Seq<Seq<char>>,
    pub summary: Option<Seq<char>>,
    pub recent_messages: Seq<MessageView>,
}

/// The context of a session that nothing is known of.
pub open spec fn empty_context() -> ContextView {
    ContextView { user_facts: Seq::empty(), summary: None, recent_messages: Seq::empty() }
}

impl View for SessionContext {
    type V = ContextView;

    open spec fn view(&self) -> ContextView {
        ContextView {
            user_facts: string_views(self.user_facts@),
            summary: string_view(self.summary),
            recent_messages: message_views(self.recent_messages@),
        }
    }
}

impl Default for SessionContext {
    fn default() -> (r: Self)
        ensures
            r@ == empty_context(),
            r.user_facts@.len() == 0,
            r.summary is None,
            r.recent_messages@.len() == 0,
    {
        let r = SessionContext {
            user_facts: Vec::new(),
            summary: None,
            recent_messages: Vec::new(),
        };
        assert(r@ =~= empty_context());
        r
    }
}

/// What is stored, encrypted, of a session. The version leaves room for other shapes later.
#[derive(Debug)]
pub struct SessionBlob {
    pub version: u32,
    pub messages: Vec<Message>,
}

impl SessionBlob {
    pub const CURRENT_VERSION: u32 = 1;

    pub fn new(messages: Vec<Message>) -> (r: Self)
        ensures
            r.version == Self::CURRENT_VERSION,
            r.messages == messages,
    {
        SessionBlob { version: Self::CURRENT_VERSION, messages }
    }
}

/// What the contracts read of a session's context is all there is to it: every fact, the
/// summary, and role and content of every message, in order.
pub proof fn law_contexts_in_full(ctx: SessionContext)
    ensures
        ctx@.user_facts.len() == ctx.user_facts@.len(),
        forall|i: int|
            0 <= i < ctx.user_facts@.len() ==> #[trigger] ctx@.user_facts[i]
                == ctx.user_facts@[i]@,
        ctx.summary matches Some(s) ==> ctx@.summary == Some(s@),
        ctx.summary is None ==> ctx@.summary is None,
        ctx@.recent_messages.len() == ctx.recent_messages@.len(),
        forall|i: int|
            0 <= i < ctx.recent_messages@.len() ==> (#[trigger] ctx@.recent_messages[i]).role
                == ctx.recent_messages@[i].role@ && ctx@.recent_messages[i].content
                == ctx.recent_messages@[i].content@,
{
}

/// What the contracts read of texts that may be absent, and of lists, is all there is to them.
pub proof fn law_lists_in_full(
    text: Option<String>,
    borrowed: Option<&str>,
    texts: Seq<String>,
    messages: Seq<Message>,
)
    ensures
        text matches Some(s) ==> string_view(text) == Some(s@),
        text is None ==> string_view(text) is None,
        borrowed matches Some(s) ==> str_view(borrowed) == Some(s@),
        borrowed is None ==> str_view(borrowed) is None,
        string_views(texts).len() == texts.len(),
        forall|i: int| 0 <= i < texts.len() ==> #[trigger] string_views(texts)[i] == texts[i]@,
        message_views(messages).len() == messages.len(),
        forall|i: int|
            0 <= i < messages.len() ==> (#[trigger] message_views(messages)[i]).role
                == messages[i].role@ && message_views(messages)[i].content == messages[i].content@,
{
}

/// Nothing is known of a session at first: no fact, no summary, no message.
pub proof fn law_nothing_is_known_at_first()
    ensures
        empty_context().user_facts.len() == 0,
        empty_context().summary is None,
        empty_context().recent_messages.len() == 0,
{
}

} // verus!
