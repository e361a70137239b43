use pinaivu_node::context::assemble::{
    approx_tokens, build, build_with_memory, render_system_prompt, Budget, DEFAULT_SYSTEM_PROMPT,
};
use pinaivu_node::context::{Message, SessionContext};

fn msg(role: &str, content: &str) -> Message {
    Message { role: role.into(), content: content.into() }
}

#[test]
fn empty_context_yields_single_user_turn() {
    let ctx = SessionContext::default();
    let a = build(&ctx, "hi", Budget::for_model("llama3.2:1b"));
    assert_eq!(a.messages.len(), 1);
    assert_eq!(a.messages[0].role, "user");
    assert_eq!(a.messages[0].content, "hi");
}

#[test]
fn facts_and_summary_render_into_system_prompt() {
    let ctx = SessionContext {
        user_facts: vec!["user prefers Rust".into()],
        summary: Some("earlier: discussed P2P".into()),
        recent_messages: vec![],
    };
    let a = build(&ctx, "go on", Budget::for_model("llama3.2:1b"));
    assert!(a.system_prompt.contains("user prefers Rust"));
    assert!(a.system_prompt.contains("discussed P2P"));
}

#[test]
fn recent_messages_appear_in_chronological_order() {
    let ctx = SessionContext {
        user_facts: vec![],
        summary: None,
        recent_messages: vec![
            msg("user", "first"),
            msg("assistant", "answer-1"),
            msg("user", "second"),
            msg("assistant", "answer-2"),
        ],
    };
    let a = build(&ctx, "third", Budget::for_model("llama3.2:1b"));
    let contents: Vec<&str> = a.messages.iter().map(|m| m.content.as_str()).collect();
    assert_eq!(contents, vec!["first", "answer-1", "second", "answer-2", "third"]);
}

#[test]
fn oldest_messages_dropped_when_over_budget() {
    let big = "x".repeat(20_000); // approx 5k tokens each
    let ctx = SessionContext {
        user_facts: vec![],
        summary: None,
        recent_messages: vec![msg("user", &big), msg("assistant", &big), msg("user", &big)],
    };
    let budget = Budget { model_context_window: 8_192, reserved_for_output: 2_048 };
    let a = build(&ctx, "tiny new message", budget);
    // We must keep the new user message; we must NOT keep all three
    // big history messages — they would blow the budget.
    assert_eq!(a.messages.last().unwrap().content, "tiny new message");
    assert!(a.messages.len() < 4);
}

#[test]
fn windows_of_model_families() {
    let cases = [
        ("llama3.1:8b", 8_192),
        ("llama3.2", 8_192),
        ("llama3.2:1b", 8_192),
        ("llama3.1:70b", 32_768),
        ("llama3.1:70b-instruct", 32_768),
        ("qwen", 32_768),
        ("qwen2.5:7b", 32_768),
        ("llama3", 8_192),
        ("Qwen", 8_192),
        ("", 8_192),
    ];
    for (model, window) in cases {
        let b = Budget::for_model(model);
        assert_eq!(b.model_context_window, window, "{model}");
        assert_eq!(b.reserved_for_output, 2_048);
        assert_eq!(b.input_budget_tokens(), window - 2_048);
    }
}

#[test]
fn reserve_beyond_the_window_leaves_nothing() {
    let b = Budget { model_context_window: 10, reserved_for_output: 11 };
    assert_eq!(b.input_budget_tokens(), 0);
}

#[test]
fn tokens_round_up() {
    assert_eq!(approx_tokens(""), 0);
    assert_eq!(approx_tokens("a"), 1);
    assert_eq!(approx_tokens("abcd"), 1);
    assert_eq!(approx_tokens("abcde"), 2);
    // Characters count, not bytes.
    assert_eq!(approx_tokens("ééé"), 1);
    assert_eq!(approx_tokens("\u{e9}\u{e9}\u{e9}\u{e9}"), 1);
    assert_eq!(approx_tokens("ééééé"), 2);
}

#[test]
fn system_prompt_in_full() {
    let ctx = SessionContext {
        user_facts: vec!["a".into(), "b".into()],
        summary: Some("s".into()),
        recent_messages: vec![],
    };
    assert_eq!(
        render_system_prompt(&ctx),
        format!("{DEFAULT_SYSTEM_PROMPT}\n\nKnown facts about the user:\n- a\n- b\n\nEarlier conversation summary:\ns\n")
    );
    assert_eq!(render_system_prompt(&SessionContext::default()), DEFAULT_SYSTEM_PROMPT);
    assert_eq!(
        DEFAULT_SYSTEM_PROMPT,
        "You are a helpful AI assistant running on the Pinaivu network. Answer concisely and accurately based on the conversation history."
    );
}

#[test]
fn memory_goes_before_the_system_prompt() {
    let ctx = SessionContext::default();
    let budget = Budget::for_model("llama3");
    let a = build_with_memory(&ctx, "hi", budget, Some("remembered"));
    assert_eq!(a.system_prompt, format!("remembered\n\n{DEFAULT_SYSTEM_PROMPT}"));
    let b = build_with_memory(&ctx, "hi", budget, None);
    assert_eq!(b.system_prompt, DEFAULT_SYSTEM_PROMPT);
}

#[test]
fn window_ends_exactly_at_the_budget() {
    // The default prompt takes 33 tokens and "tiny" takes one; each message takes 5.
    let ctx = SessionContext {
        user_facts: vec![],
        summary: None,
        recent_messages: vec![msg("user", "a"), msg("assistant", "b"), msg("user", "c")],
    };
    let base = approx_tokens(DEFAULT_SYSTEM_PROMPT) + 1;
    for (extra, kept) in [(0, 0), (4, 0), (5, 1), (9, 1), (10, 2), (14, 2), (15, 3), (100, 3)] {
        let budget = Budget { model_context_window: base + extra, reserved_for_output: 0 };
        let a = build(&ctx, "tiny", budget);
        assert_eq!(a.messages.len(), kept + 1, "{extra}");
        let contents: Vec<&str> = a.messages.iter().map(|m| m.content.as_str()).collect();
        let all = ["a", "b", "c", "tiny"];
        assert_eq!(contents, all[3 - kept..].to_vec());
    }
}

#[test]
fn walk_stops_at_the_first_message_that_does_not_fit() {
    let big = "x".repeat(4_000);
    let ctx = SessionContext {
        user_facts: vec![],
        summary: None,
        recent_messages: vec![msg("user", "small"), msg("assistant", &big), msg("user", "last")],
    };
    let budget = Budget { model_context_window: 200, reserved_for_output: 0 };
    let a = build(&ctx, "new", budget);
    let contents: Vec<&str> = a.messages.iter().map(|m| m.content.as_str()).collect();
    assert_eq!(contents, vec!["last", "new"]);
}

#[test]
fn new_message_is_sent_even_without_a_budget() {
    let ctx = SessionContext {
        user_facts: vec![],
        summary: None,
        recent_messages: vec![msg("user", "old")],
    };
    let budget = Budget { model_context_window: 0, reserved_for_output: 0 };
    let a = build(&ctx, "new", budget);
    assert_eq!(a.messages.len(), 1);
    assert_eq!(a.messages[0].content, "new");
}
