//! The request to the local model server, and its answer.

use crate::context::assemble::Assembled;
use crate::context::{Message, MessageView};
use crate::text::{trim_end_slashes, without_end_slashes};
use vstd::prelude::*;

verus! {

/// What the model answered, and what it cost.
pub struct OllamaReply {
    pub content: String,
    pub prompt_tokens: u32,
    pub completion_tokens: u32,
    pub latency_ms: u32,
}

#[verifier::ext_equal]
pub struct ReplyView {
    pub content: Seq<char>,
    pub prompt_tokens: u32,
    pub completion_tokens: u32,
    pub latency_ms: u32,
}

impl View for OllamaReply {
    type V = ReplyView;

    open spec fn view(&self) -> ReplyView {
        ReplyView {
            content: self.content@,
            prompt_tokens: self.prompt_tokens,
            completion_tokens: self.completion_tokens,
            latency_ms: self.latency_ms,
        }
    }
}

/// A message as the model server takes it.
#[derive(Clone, Copy)]
pub struct ChatMessage<'a> {
    pub role: &'a str,
    pub content: &'a str,
}

impl<'a> View for ChatMessage<'a> {
    type V = MessageView;

    open spec fn view(&self) -> MessageView {
        MessageView { role: self.role@, content: self.content@ }
    }
}

/// The contents of a list of chat messages.
pub open spec fn chat_views(messages: Seq<ChatMessage>) -> Seq<MessageView> {
    Seq::new(messages.len(), |i: int| messages[i]@)
}

/// What is sent: the system prompt, then the assembled messages.
pub open spec fn chat_of(
    system_prompt: Seq<char>,
    messages: Seq<MessageView>,
) -> Seq<MessageView> {
    seq![MessageView { role: "system"@, content: system_prompt }] + messages
}

/// The list of messages that is sent for an assembled context.
pub fn chat_messages<'a>(assembled: &'a Assembled) -> (r: Vec<ChatMessage<'a>>)
    ensures
        chat_views(r@) == chat_of(assembled@.system_prompt, assembled@.messages),
        r@.len() == assembled.messages@.len() + 1,
        r@[0].role@ == "system"@,
        r@[0].content@ == assembled.system_prompt@,
        forall|i: int|
            0 <= i < assembled.messages@.len() ==> (#[trigger] r@[i + 1]).role@
                == assembled.messages@[i].role@ && r@[i + 1].content@
                == assembled.messages@[i].content@,
{
    let mut out: Vec<ChatMessage<'a>> = Vec::new();
    out.push(ChatMessage { role: "system", content: assembled.system_prompt.as_str() });
    let mut i: usize = 0;
    while i < assembled.messages.len()
        invariant
            i <= assembled.messages@.len(),
            out@.len() == i + 1,
            out@[0]@ == (MessageView { role: "system"@, content: assembled.system_prompt@ }),
            forall|j: int| 0 <= j < i ==> (#[trigger] out@[j + 1])@ == assembled.messages@[j]@,
        decreases assembled.messages@.len() - i,
    {
        let m: &'a Message = &assembled.messages[i];
        let ghost before = out@;
        out.push(ChatMessage { role: m.role.as_str(), content: m.content.as_str() });
        assert forall|j: int| 0 <= j < i + 1 implies (#[trigger] out@[j + 1])@
            == assembled.messages@[j]@ by {
            if j < i {
                assert(out@[j + 1] == before[j + 1]);
            }
        }
        i += 1;
    }
    proof {
        let want = chat_of(assembled@.system_prompt, assembled@.messages);
        assert forall|j: int| 0 <= j < want.len() implies chat_views(out@)[j] == want[j] by {
            if j > 0 {
                assert(out@[(j - 1) + 1]@ == assembled.messages@[j - 1]@);
            }
        }
        assert(chat_views(out@) =~= want);
    }
    out
}

/// The address of the chat endpoint.
pub fn chat_url(ollama_url: &str) -> (r: String)
    ensures
        r@ == without_end_slashes(ollama_url@) + "/api/chat"@,
{
    trim_end_slashes(ollama_url).concat("/api/chat")
}

/// Milliseconds as they are reported: the low 32 bits.
pub fn reported_latency(elapsed_ms: u128) -> (r: u32)
    ensures
        r == elapsed_ms % 0x1_0000_0000,
{
    let low: u128 = elapsed_ms % 0x1_0000_0000;
    low as u32
}

/// The model is sent the system prompt first and then every assembled message, each in its place
/// and with nothing added or left out.
pub proof fn law_chat_has_every_message(system_prompt: Seq<char>, messages: Seq<MessageView>)
    ensures
        chat_of(system_prompt, messages).len() == messages.len() + 1,
        chat_of(system_prompt, messages)[0].role == "system"@,
        chat_of(system_prompt, messages)[0].content == system_prompt,
        forall|i: int|
            0 <= i < messages.len() ==> #[trigger] chat_of(system_prompt, messages)[i + 1].role
                == messages[i].role && chat_of(system_prompt, messages)[i + 1].content
                == messages[i].content,
{
}

/// What the contracts read of chat messages and of the model's answer is all there is to them.
pub proof fn law_chat_in_full(messages: Seq<ChatMessage>, reply: OllamaReply)
    ensures
        chat_views(messages).len() == messages.len(),
        forall|i: int|
            0 <= i < messages.len() ==> (#[trigger] chat_views(messages)[i]).role
                == messages[i].role@ && chat_views(messages)[i].content == messages[i].content@,
        reply@.content == reply.content@,
        reply@.prompt_tokens == reply.prompt_tokens,
        reply@.completion_tokens == reply.completion_tokens,
        reply@.latency_ms == reply.latency_ms,
{
}

} // verus!
