//! Assembles the message list that is sent to the model.
//!
//! Tokens are counted roughly, at four characters each. The history is walked from the most
//! recent message backwards, and what no longer fits the budget is left out.

use super::{empty_context, message, message_views, str_view, string_views, ContextView, Message, MessageView,
    SessionContext};
use crate::text::starts_with;
use vstd::prelude::*;

verus! {

pub const DEFAULT_SYSTEM_PROMPT: &'static str =
    "You are a helpful AI assistant running on the Pinaivu network. Answer concisely and accurately based on the conversation history.";

pub const APPROX_CHARS_PER_TOKEN: usize = 4;

/// What a message costs beyond its content, for the role and bookkeeping.
pub const MESSAGE_OVERHEAD: usize = 4;

const SMALL_WINDOW: usize = 8192;

const LARGE_WINDOW: usize = 32768;

const OUTPUT_RESERVE: usize = 2048;

/// How many tokens a model takes, and how many of them are kept for its answer.
#[derive(Debug, Clone, Copy)]
pub struct Budget {
    pub model_context_window: usize,
    pub reserved_for_output: usize,
}

/// The context window of a model family.
pub open spec fn context_window(model: Seq<char>) -> usize {
    if "llama3.1:70b"@.is_prefix_of(model) || "qwen"@.is_prefix_of(model) {
        32768
    } else {
        8192
    }
}

/// The budget of a model: its window, of which a fixed part is kept for the answer.
pub open spec fn budget_for(model: Seq<char>) -> Budget {
    Budget { model_context_window: context_window(model), reserved_for_output: 2048 }
}

/// How many tokens of input a budget leaves.
pub open spec fn input_tokens(budget: Budget) -> nat {
    if budget.model_context_window >= budget.reserved_for_output {
        (budget.model_context_window - budget.reserved_for_output) as nat
    } else {
        0
    }
}

/// A name that starts as a small family's does starts as no large family's.
proof fn lemma_small_family(model: Seq<char>)
    requires
        "llama3.1:8b"@.is_prefix_of(model) || "llama3.2"@.is_prefix_of(model),
    ensures
        !"llama3.1:70b"@.is_prefix_of(model),
        !"qwen"@.is_prefix_of(model),
{
    reveal_strlit("llama3.1:8b");
    reveal_strlit("llama3.2");
    reveal_strlit("llama3.1:70b");
    reveal_strlit("qwen");
    if "llama3.1:8b"@.is_prefix_of(model) {
        assert(model.subrange(0, 11)[0] == 'l');
        assert(model.subrange(0, 11)[9] == '8');
    } else {
        assert(model.subrange(0, 8)[0] == 'l');
        assert(model.subrange(0, 8)[7] == '2');
    }
    if "llama3.1:70b"@.is_prefix_of(model) {
        assert(model.subrange(0, 12)[7] == '1');
        assert(model.subrange(0, 12)[9] == '7');
    }
    if "qwen"@.is_prefix_of(model) {
        assert(model.subrange(0, 4)[0] == 'q');
    }
}

impl Budget {
    /// The budget of a model family.
    pub fn for_model(model: &str) -> (r: Self)
        ensures
            r == budget_for(model@),
    {
        let model_context_window: usize = if starts_with(model, "llama3.1:8b") || starts_with(
            model,
            "llama3.2",
        ) {
            proof {
                lemma_small_family(model@);
            }
            SMALL_WINDOW
        } else if starts_with(model, "llama3.1:70b") {
            LARGE_WINDOW
        } else if starts_with(model, "qwen") {
            LARGE_WINDOW
        } else {
            SMALL_WINDOW
        };
        Budget { model_context_window, reserved_for_output: OUTPUT_RESERVE }
    }

    /// What is left for the input.
    pub fn input_budget_tokens(&self) -> (r: usize)
        ensures
            r == input_tokens(*self),
    {
        self.model_context_window.saturating_sub(self.reserved_for_output)
    }
}

/// The rough number of tokens of a text: a quarter of its characters, rounded up.
pub open spec fn token_estimate(s: Seq<char>) -> nat {
    (s.len() + 3) / 4
}

/// Estimates the tokens of a text.
pub fn approx_tokens(s: &str) -> (r: usize)
    ensures
        r == token_estimate(s@),
        s@.len() <= 4 * r < s@.len() + 4,
        r <= usize::MAX / 4 + 1,
{
    let n: usize = s.unicode_len();
    let whole: usize = n / APPROX_CHARS_PER_TOKEN;
    if n % APPROX_CHARS_PER_TOKEN == 0 {
        whole
    } else {
        whole + 1
    }
}

/// One line for each fact, in order.
pub open spec fn fact_lines(facts: Seq<Seq<char>>) -> Seq<char>
    decreases facts.len(),
{
    if facts.len() == 0 {
        Seq::empty()
    } else {
        fact_lines(facts.drop_last()) + "- "@ + facts.last() + "\n"@
    }
}

/// The part of the system prompt that lists what is known of the user.
pub open spec fn facts_section(facts: Seq<Seq<char>>) -> Seq<char> {
    if facts.len() == 0 {
        Seq::empty()
    } else {
        "\n\nKnown facts about the user:\n"@ + fact_lines(facts)
    }
}

/// The part of the system prompt that recalls the conversation before the window.
pub open spec fn summary_section(summary: Option<Seq<char>>) -> Seq<char> {
    match summary {
        Some(s) => "\nEarlier conversation summary:\n"@ + s + "\n"@,
        None => Seq::empty(),
    }
}

/// The system prompt of a session.
pub open spec fn system_prompt_text(ctx: ContextView) -> Seq<char> {
    DEFAULT_SYSTEM_PROMPT@ + facts_section(ctx.user_facts) + summary_section(ctx.summary)
}

/// A system prompt with memory from other sessions in front of it, where there is any.
pub open spec fn with_memory(memory: Option<Seq<char>>, prompt: Seq<char>) -> Seq<char> {
    match memory {
        Some(m) => m + "\n\n"@ + prompt,
        None => prompt,
    }
}

/// Builds the system prompt with the facts and the summary that there are.
pub fn render_system_prompt(ctx: &SessionContext) -> (out: String)
    ensures
        out@ == system_prompt_text(ctx@),
{
    let mut out = String::from_str(DEFAULT_SYSTEM_PROMPT);
    let ghost facts = string_views(ctx.user_facts@);
    if ctx.user_facts.len() > 0 {
        out.append("\n\nKnown facts about the user:\n");
        let ghost head = out@;
        let mut i: usize = 0;
        assert(out@ =~= head + fact_lines(facts.subrange(0, 0)));
        while i < ctx.user_facts.len()
            invariant
                i <= ctx.user_facts@.len(),
                facts == string_views(ctx.user_facts@),
                out@ == head + fact_lines(facts.subrange(0, i as int)),
            decreases ctx.user_facts@.len() - i,
        {
            out.append("- ");
            out.append(ctx.user_facts[i].as_str());
            out.append("\n");
            proof {
                let longer = facts.subrange(0, i + 1);
                assert(longer.drop_last() =~= facts.subrange(0, i as int));
                assert(longer.last() == facts[i as int]);
                assert(out@ =~= head + fact_lines(longer));
            }
            i += 1;
        }
        assert(facts.subrange(0, facts.len() as int) =~= facts);
        assert(out@ =~= DEFAULT_SYSTEM_PROMPT@ + facts_section(facts));
    }
    assert(out@ =~= DEFAULT_SYSTEM_PROMPT@ + facts_section(facts));
    if let Some(s) = &ctx.summary {
        out.append("\nEarlier conversation summary:\n");
        out.append(s.as_str());
        out.append("\n");
    }
    assert(out@ =~= system_prompt_text(ctx@));
    out
}

/// What goes to the model.
pub struct Assembled {
    pub messages: Vec<Message>,
    pub system_prompt: String,
}

#[verifier::ext_equal]
pub struct AssembledView {
    pub messages: Seq<MessageView>,
    pub system_prompt: Seq<char>,
}

impl View for Assembled {
    type V = AssembledView;

    open spec fn view(&self) -> AssembledView {
        AssembledView {
            messages: message_views(self.messages@),
            system_prompt: self.system_prompt@,
        }
    }
}

/// The tokens that a message of the history takes.
pub open spec fn message_cost(m: MessageView) -> nat {
    token_estimate(m.content) + 4
}

/// The tokens that a run of messages takes.
pub open spec fn history_cost(messages: Seq<MessageView>) -> nat
    decreases messages.len(),
{
    if messages.len() == 0 {
        0
    } else {
        message_cost(messages[0]) + history_cost(messages.subrange(1, messages.len() as int))
    }
}

/// The last `k` messages of a history.
pub open spec fn latest(history: Seq<MessageView>, k: nat) -> Seq<MessageView> {
    history.subrange(history.len() - k, history.len() as int)
}

/// Whether the last `k` messages are what a history may contribute, next to `base` tokens that
/// are spent in any case: they fit the budget, and with one more they would not.
pub open spec fn is_window(history: Seq<MessageView>, base: nat, budget: nat, k: nat) -> bool {
    &&& k <= history.len()
    &&& k > 0 ==> base + history_cost(latest(history, k)) <= budget
    &&& k < history.len() ==> base + history_cost(latest(history, k + 1)) > budget
}

/// The user turn that closes every message list.
pub open spec fn user_turn(content: Seq<char>) -> MessageView {
    MessageView { role: "user"@, content }
}

/// What a session, a new message and a memory assemble to under a budget.
pub open spec fn assembles_to(
    ctx: ContextView,
    new_user_message: Seq<char>,
    budget: Budget,
    memory: Option<Seq<char>>,
    out: AssembledView,
) -> bool {
    let kept = (out.messages.len() - 1) as nat;
    let base = token_estimate(out.system_prompt) + token_estimate(new_user_message);
    &&& out.messages.len() > 0
    &&& out.system_prompt == with_memory(memory, system_prompt_text(ctx))
    &&& is_window(ctx.recent_messages, base, input_tokens(budget), kept)
    &&& out.messages == latest(ctx.recent_messages, kept).push(user_turn(new_user_message))
}

/// Produces the message list for the model. The new user message is always in it; older
/// messages are left out, oldest first, where the budget is exceeded.
pub fn build(ctx: &SessionContext, new_user_message: &str, budget: Budget) -> (r: Assembled)
    ensures
        assembles_to(ctx@, new_user_message@, budget, None, r@),
        0 < r.messages@.len() <= ctx.recent_messages@.len() + 1,
        r.messages@.last().role@ == "user"@,
        r.messages@.last().content@ == new_user_message@,
{
    build_with_memory(ctx, new_user_message, budget, None)
}

/// As [`build`], with memory from other sessions put in front of the system prompt.
pub fn build_with_memory(
    ctx: &SessionContext,
    new_user_message: &str,
    budget: Budget,
    memory: Option<&str>,
) -> (r: Assembled)
    ensures
        assembles_to(ctx@, new_user_message@, budget, str_view(memory), r@),
        0 < r.messages@.len() <= ctx.recent_messages@.len() + 1,
        r.messages@.last().role@ == "user"@,
        r.messages@.last().content@ == new_user_message@,
{
    let rendered = render_system_prompt(ctx);
    let system_prompt = match memory {
        Some(m) => {
            let p = String::from_str(m).concat("\n\n").concat(rendered.as_str());
            assert(p@ =~= with_memory(Some(m@), rendered@));
            p
        },
        None => rendered,
    };
    let budget_tokens: usize = budget.input_budget_tokens();
    let base: usize = approx_tokens(system_prompt.as_str()) + approx_tokens(new_user_message);
    let ghost history = ctx@.recent_messages;

    let n: usize = ctx.recent_messages.len();
    let mut used: usize = base;
    let mut first: usize = n;
    assert(latest(history, 0) =~= Seq::<MessageView>::empty());
    while first > 0
        invariant_except_break
            first <= n,
            first < n ==> used <= budget_tokens,
        invariant
            n == history.len(),
            history == message_views(ctx.recent_messages@),
            first <= n,
            used == base + history_cost(latest(history, (n - first) as nat)),
            first < n ==> used <= budget_tokens,
        ensures
            is_window(history, base as nat, budget_tokens as nat, (n - first) as nat),
        decreases first,
    {
        let m = &ctx.recent_messages[first - 1];
        let cost: usize = approx_tokens(m.content.as_str()) + MESSAGE_OVERHEAD;
        proof {
            let shorter = latest(history, (n - first) as nat);
            let longer = latest(history, (n - first + 1) as nat);
            assert(longer[0] == history[first - 1]);
            assert(longer.subrange(1, longer.len() as int) =~= shorter);
            assert(history_cost(longer) == cost + history_cost(shorter));
        }
        if used > budget_tokens || cost > budget_tokens - used {
            break;
        }
        used += cost;
        first -= 1;
    }

    let mut messages: Vec<Message> = Vec::new();
    let mut i: usize = first;
    while i < n
        invariant
            first <= i <= n,
            n == ctx.recent_messages@.len(),
            messages@ == ctx.recent_messages@.subrange(first as int, i as int),
        decreases n - i,
    {
        messages.push(ctx.recent_messages[i].clone());
        assert(messages@ =~= ctx.recent_messages@.subrange(first as int, i + 1));
        i += 1;
    }
    messages.push(message("user", new_user_message));
    let r = Assembled { messages, system_prompt };
    assert(r@.messages =~= latest(history, (n - first) as nat).push(
        user_turn(new_user_message@),
    ));
    r
}

/// Taking in an older message never makes a run of messages cheaper.
proof fn lemma_history_cost_grows(history: Seq<MessageView>, j: nat, k: nat)
    requires
        j <= k <= history.len(),
    ensures
        history_cost(latest(history, j)) + 4 * (k - j) <= history_cost(latest(history, k)),
    decreases k - j,
{
    if j < k {
        lemma_history_cost_grows(history, j, (k - 1) as nat);
        let longer = latest(history, k);
        assert(longer.subrange(1, longer.len() as int) =~= latest(history, (k - 1) as nat));
    }
}

/// The window is the longest run of recent messages that fits: no longer one does.
pub proof fn law_window_is_longest(
    history: Seq<MessageView>,
    base: nat,
    budget: nat,
    k: nat,
    j: nat,
)
    requires
        is_window(history, base, budget, k),
        0 < j <= history.len(),
        base + history_cost(latest(history, j)) <= budget,
    ensures
        j <= k,
{
    if k < j {
        lemma_history_cost_grows(history, k + 1, j);
    }
}

/// There is one window only, so that a session assembles in one way only.
pub proof fn law_assembly_is_unique(
    ctx: ContextView,
    new_user_message: Seq<char>,
    budget: Budget,
    memory: Option<Seq<char>>,
    a: AssembledView,
    b: AssembledView,
)
    requires
        assembles_to(ctx, new_user_message, budget, memory, a),
        assembles_to(ctx, new_user_message, budget, memory, b),
    ensures
        a == b,
{
    let base = token_estimate(a.system_prompt) + token_estimate(new_user_message);
    let tokens = input_tokens(budget);
    let i = (a.messages.len() - 1) as nat;
    let j = (b.messages.len() - 1) as nat;
    if i > 0 {
        law_window_is_longest(ctx.recent_messages, base, tokens, j, i);
    }
    if j > 0 {
        law_window_is_longest(ctx.recent_messages, base, tokens, i, j);
    }
}

/// The new user message is always sent, last, and what stands before it is the most recent
/// part of the history in its own order.
pub proof fn law_new_message_closes_the_history(
    ctx: ContextView,
    new_user_message: Seq<char>,
    budget: Budget,
    memory: Option<Seq<char>>,
    out: AssembledView,
)
    requires
        assembles_to(ctx, new_user_message, budget, memory, out),
    ensures
        out.messages.last() == user_turn(new_user_message),
        out.messages.drop_last().is_suffix_of(ctx.recent_messages),
{
    let kept = (out.messages.len() - 1) as nat;
    assert(out.messages.drop_last() =~= latest(ctx.recent_messages, kept));
}

/// With any of the history in it, what is sent stays within the budget.
pub proof fn law_history_respects_the_budget(
    ctx: ContextView,
    new_user_message: Seq<char>,
    budget: Budget,
    memory: Option<Seq<char>>,
    out: AssembledView,
)
    requires
        assembles_to(ctx, new_user_message, budget, memory, out),
        out.messages.len() > 1,
    ensures
        token_estimate(out.system_prompt) + token_estimate(new_user_message) + history_cost(
            out.messages.drop_last(),
        ) <= input_tokens(budget),
{
    let kept = (out.messages.len() - 1) as nat;
    assert(out.messages.drop_last() =~= latest(ctx.recent_messages, kept));
}

/// A history that fits as a whole is sent as a whole.
pub proof fn law_fitting_history_is_kept(
    ctx: ContextView,
    new_user_message: Seq<char>,
    budget: Budget,
    memory: Option<Seq<char>>,
    out: AssembledView,
)
    requires
        assembles_to(ctx, new_user_message, budget, memory, out),
        token_estimate(out.system_prompt) + token_estimate(new_user_message) + history_cost(
            ctx.recent_messages,
        ) <= input_tokens(budget),
    ensures
        out.messages == ctx.recent_messages.push(user_turn(new_user_message)),
{
    let history = ctx.recent_messages;
    let kept = (out.messages.len() - 1) as nat;
    let base = token_estimate(out.system_prompt) + token_estimate(new_user_message);
    assert(latest(history, history.len()) =~= history);
    if history.len() > 0 {
        law_window_is_longest(history, base, input_tokens(budget), kept, history.len());
    }
}

/// A session that nothing is known of sends the new message alone, with the default prompt.
pub proof fn law_empty_context_sends_one_turn(
    new_user_message: Seq<char>,
    budget: Budget,
    out: AssembledView,
)
    requires
        assembles_to(empty_context(), new_user_message, budget, None, out),
    ensures
        out.messages == seq![user_turn(new_user_message)],
        out.system_prompt == DEFAULT_SYSTEM_PROMPT@,
{
    assert(out.messages =~= seq![user_turn(new_user_message)]);
    assert(out.system_prompt =~= DEFAULT_SYSTEM_PROMPT@);
}

/// A larger budget never sends less of the history.
pub proof fn law_larger_budget_keeps_more(
    ctx: ContextView,
    new_user_message: Seq<char>,
    small: Budget,
    large: Budget,
    memory: Option<Seq<char>>,
    a: AssembledView,
    b: AssembledView,
)
    requires
        assembles_to(ctx, new_user_message, small, memory, a),
        assembles_to(ctx, new_user_message, large, memory, b),
        input_tokens(small) <= input_tokens(large),
    ensures
        a.messages.is_suffix_of(b.messages),
{
    let history = ctx.recent_messages;
    let base = token_estimate(a.system_prompt) + token_estimate(new_user_message);
    let i = (a.messages.len() - 1) as nat;
    let j = (b.messages.len() - 1) as nat;
    if i > 0 {
        law_window_is_longest(history, base, input_tokens(large), j, i);
    }
    assert(a.messages =~= b.messages.subrange(b.messages.len() - a.messages.len(), b.messages.len() as int));
}

/// Four characters make a token, and a part of a token counts as a whole one.
pub proof fn law_four_characters_make_a_token(s: Seq<char>, t: Seq<char>)
    ensures
        s.len() <= 4 * token_estimate(s) < s.len() + 4,
        s.len() <= t.len() ==> token_estimate(s) <= token_estimate(t),
        token_estimate(s + t) <= token_estimate(s) + token_estimate(t),
{
}

/// Every name that begins as a large family's has the large window, every other has the small
/// one, and the same part of either is kept for the answer.
pub proof fn law_windows_go_by_family(model: Seq<char>, rest: Seq<char>)
    ensures
        budget_for(model).reserved_for_output == 2048,
        budget_for("qwen"@ + rest).model_context_window == 32768,
        budget_for("llama3.1:70b"@ + rest).model_context_window == 32768,
        budget_for(model).model_context_window == 32768 || budget_for(model).model_context_window
            == 8192,
        (model.len() < 4 || model.subrange(0, 4) != "qwen"@) && (model.len() < 12
            || model.subrange(0, 12) != "llama3.1:70b"@) ==> budget_for(model).model_context_window
            == 8192,
        input_tokens(budget_for(model)) == 30720 || input_tokens(budget_for(model)) == 6144,
{
    reveal_strlit("qwen");
    reveal_strlit("llama3.1:70b");
    assert(("qwen"@ + rest).subrange(0, 4) =~= "qwen"@);
    assert(("llama3.1:70b"@ + rest).subrange(0, 12) =~= "llama3.1:70b"@);
}

/// Input and reserve share the window. A reserve beyond the window leaves nothing.
pub proof fn law_input_is_what_the_reserve_leaves(budget: Budget)
    ensures
        budget.reserved_for_output <= budget.model_context_window ==> input_tokens(budget)
            + budget.reserved_for_output == budget.model_context_window,
        budget.reserved_for_output > budget.model_context_window ==> input_tokens(budget) == 0,
{
}

proof fn lemma_history_cost_last(messages: Seq<MessageView>)
    requires
        messages.len() > 0,
    ensures
        history_cost(messages) == history_cost(messages.drop_last()) + message_cost(
            messages.last(),
        ),
    decreases messages.len(),
{
    let rest = messages.subrange(1, messages.len() as int);
    if messages.len() == 1 {
        assert(messages.drop_last() =~= Seq::<MessageView>::empty());
        assert(rest =~= Seq::<MessageView>::empty());
    } else {
        lemma_history_cost_last(rest);
        let front = messages.drop_last();
        assert(front.subrange(1, front.len() as int) =~= rest.drop_last());
    }
}

proof fn lemma_history_cost_is_a_sum(
    messages: Seq<MessageView>,
    charge: spec_fn(int, MessageView) -> int,
)
    requires
        forall|sum: int, m: MessageView| #[trigger]
            charge(sum, m) == sum + (m.content.len() + 3) / 4 + 4,
    ensures
        messages.fold_left(0int, charge) == history_cost(messages),
    decreases messages.len(),
{
    reveal_with_fuel(Seq::fold_left, 2);
    if messages.len() > 0 {
        lemma_history_cost_is_a_sum(messages.drop_last(), charge);
        lemma_history_cost_last(messages);
    }
}

/// What is sent, counted in characters. Prompt and new message take a token for every four of
/// their characters, rounded up, and a message of the history takes four tokens more than that.
/// `charge` adds one message of the history to a sum.
///
/// The history contributes its latest messages, unchanged and in order; together they fit what
/// the reserve leaves of the window; and any greater number of them would not. A history that
/// fits as a whole is sent as a whole.
pub proof fn law_window_in_characters(
    ctx: ContextView,
    new_user_message: Seq<char>,
    budget: Budget,
    memory: Option<Seq<char>>,
    out: AssembledView,
    charge: spec_fn(int, MessageView) -> int,
)
    requires
        assembles_to(ctx, new_user_message, budget, memory, out),
        forall|sum: int, m: MessageView| #[trigger]
            charge(sum, m) == sum + (m.content.len() + 3) / 4 + 4,
    ensures
        ({
            let history = ctx.recent_messages;
            let n = history.len() as int;
            let kept = out.messages.len() - 1;
            let room = if budget.model_context_window >= budget.reserved_for_output {
                budget.model_context_window - budget.reserved_for_output
            } else {
                0
            };
            let base = (out.system_prompt.len() + 3) / 4 + (new_user_message.len() + 3) / 4;
            &&& 0 <= kept <= n
            &&& out.messages[kept].role == "user"@
            &&& out.messages[kept].content == new_user_message
            &&& forall|i: int|
                0 <= i < kept ==> #[trigger] out.messages[i] == history[n - kept + i]
            &&& kept > 0 ==> base + history.subrange(n - kept, n).fold_left(0int, charge) <= room
            &&& forall|j: int|
                kept < j <= n ==> base + #[trigger] history.subrange(n - j, n).fold_left(
                    0int,
                    charge,
                ) > room
            &&& base + history.fold_left(0int, charge) <= room ==> kept == n
        }),
{
    let history = ctx.recent_messages;
    let n = history.len() as int;
    let kept = out.messages.len() - 1;
    let base = token_estimate(out.system_prompt) + token_estimate(new_user_message);
    lemma_history_cost_is_a_sum(history.subrange(n - kept, n), charge);
    assert forall|j: int| kept < j <= n implies base + #[trigger] history.subrange(
        n - j,
        n,
    ).fold_left(0int, charge) > input_tokens(budget) by {
        lemma_history_cost_is_a_sum(history.subrange(n - j, n), charge);
        if base + history_cost(latest(history, j as nat)) <= input_tokens(budget) {
            law_window_is_longest(history, base, input_tokens(budget), kept as nat, j as nat);
        }
    }
    lemma_history_cost_is_a_sum(history, charge);
    assert(history.subrange(0, n) =~= history);
    if kept < n {
        assert(base + history.subrange(n - n, n).fold_left(0int, charge) > input_tokens(budget));
    }
}

/// The system prompt, piece by piece: the default alone where nothing is known; a heading before
/// the first fact; a line for each fact, in order; and the summary behind them. The messages of
/// the session leave no trace in it.
pub proof fn law_system_prompt_piece_by_piece(
    facts: Seq<Seq<char>>,
    fact: Seq<char>,
    summary: Seq<char>,
    messages: Seq<MessageView>,
)
    ensures
        system_prompt_text(
            ContextView { user_facts: Seq::empty(), summary: None, recent_messages: messages },
        ) == DEFAULT_SYSTEM_PROMPT@,
        system_prompt_text(
            ContextView { user_facts: seq![fact], summary: None, recent_messages: messages },
        ) == DEFAULT_SYSTEM_PROMPT@ + "\n\nKnown facts about the user:\n"@ + "- "@ + fact + "\n"@,
        facts.len() > 0 ==> system_prompt_text(
            ContextView { user_facts: facts.push(fact), summary: None, recent_messages: messages },
        ) == system_prompt_text(
            ContextView { user_facts: facts, summary: None, recent_messages: messages },
        ) + "- "@ + fact + "\n"@,
        system_prompt_text(
            ContextView { user_facts: facts, summary: Some(summary), recent_messages: messages },
        ) == system_prompt_text(
            ContextView { user_facts: facts, summary: None, recent_messages: messages },
        ) + "\nEarlier conversation summary:\n"@ + summary + "\n"@,
{
    reveal_with_fuel(fact_lines, 2);
    let one = seq![fact];
    assert(one.drop_last() =~= Seq::<Seq<char>>::empty());
    assert(facts.push(fact).drop_last() =~= facts);
    assert(system_prompt_text(
        ContextView { user_facts: Seq::empty(), summary: None, recent_messages: messages },
    ) =~= DEFAULT_SYSTEM_PROMPT@);
    assert(system_prompt_text(
        ContextView { user_facts: one, summary: None, recent_messages: messages },
    ) =~= DEFAULT_SYSTEM_PROMPT@ + "\n\nKnown facts about the user:\n"@ + "- "@ + fact + "\n"@);
    if facts.len() > 0 {
        assert(system_prompt_text(
            ContextView { user_facts: facts.push(fact), summary: None, recent_messages: messages },
        ) =~= system_prompt_text(
            ContextView { user_facts: facts, summary: None, recent_messages: messages },
        ) + "- "@ + fact + "\n"@);
    }
    assert(system_prompt_text(
        ContextView { user_facts: facts, summary: Some(summary), recent_messages: messages },
    ) =~= system_prompt_text(
        ContextView { user_facts: facts, summary: None, recent_messages: messages },
    ) + "\nEarlier conversation summary:\n"@ + summary + "\n"@);
}

/// Memory goes in front of the prompt that the session gives, with an empty line between, and
/// takes nothing from it. Without memory the prompt is the session's alone.
pub proof fn law_memory_leads_the_prompt(
    ctx: ContextView,
    new_user_message: Seq<char>,
    budget: Budget,
    memory: Seq<char>,
    with: AssembledView,
    without: AssembledView,
)
    requires
        assembles_to(ctx, new_user_message, budget, Some(memory), with),
        assembles_to(ctx, new_user_message, budget, None, without),
    ensures
        with.system_prompt == memory + "\n\n"@ + without.system_prompt,
        without.system_prompt == system_prompt_text(ctx),
        with.messages.is_suffix_of(without.messages),
{
    reveal_strlit("\n\n");
    let history = ctx.recent_messages;
    let small = token_estimate(without.system_prompt) + token_estimate(new_user_message);
    let large = token_estimate(with.system_prompt) + token_estimate(new_user_message);
    let i = (with.messages.len() - 1) as nat;
    let j = (without.messages.len() - 1) as nat;
    assert(small <= large);
    if i > 0 {
        law_window_is_longest(history, small, input_tokens(budget), j, i);
    }
    assert(with.messages =~= without.messages.subrange(
        without.messages.len() - with.messages.len(),
        without.messages.len() as int,
    ));
}

/// What the contracts read of an assembled window is all there is to it.
pub proof fn law_assembled_in_full(a: Assembled)
    ensures
        a@.system_prompt == a.system_prompt@,
        a@.messages.len() == a.messages@.len(),
        forall|i: int|
            0 <= i < a.messages@.len() ==> (#[trigger] a@.messages[i]).role
                == a.messages@[i].role@ && a@.messages[i].content == a.messages@[i].content@,
{
}

} // verus!
