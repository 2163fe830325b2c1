use llm_engine::format_prompt;
use llm_engine::LlmChatMessage;

fn msg(role: &str, content: &str) -> LlmChatMessage {
    LlmChatMessage { role: role.to_string(), content: content.to_string() }
}

#[test]
fn single_user_turn_no_system() {
    let messages = vec![msg("user", "Hello")];
    let p = format_prompt(&messages, None);
    assert_eq!(p, "<|im_start|>user\nHello<|im_end|>\n<|im_start|>assistant\n");
}

#[test]
fn system_block_comes_first() {
    let messages = vec![msg("user", "Hi")];
    let sys = "Be brief.".to_string();
    let p = format_prompt(&messages, Some(&sys));
    assert_eq!(
        p,
        "<|im_start|>system\nBe brief.<|im_end|>\n<|im_start|>user\nHi<|im_end|>\n<|im_start|>assistant\n"
    );
}

#[test]
fn empty_turns_with_system_only() {
    let messages: Vec<LlmChatMessage> = Vec::new();
    let sys = "You are helpful.".to_string();
    let p = format_prompt(&messages, Some(&sys));
    assert_eq!(
        p,
        "<|im_start|>system\nYou are helpful.<|im_end|>\n<|im_start|>assistant\n"
    );
}

#[test]
fn turn_order_is_preserved() {
    let messages = vec![msg("user", "one"), msg("assistant", "two"), msg("user", "three")];
    let p = format_prompt(&messages, None);
    assert_eq!(
        p,
        "<|im_start|>user\none<|im_end|>\n<|im_start|>assistant\ntwo<|im_end|>\n<|im_start|>user\nthree<|im_end|>\n<|im_start|>assistant\n"
    );
}

#[test]
fn unrecognized_role_defaults_to_user() {
    let messages = vec![msg("narrator", "once upon a time")];
    let p = format_prompt(&messages, None);
    assert_eq!(p, "<|im_start|>user\nonce upon a time<|im_end|>\n<|im_start|>assistant\n");
}

#[test]
fn system_role_turn_keeps_its_tag() {
    let messages = vec![msg("system", "context"), msg("assistant", "ok")];
    let p = format_prompt(&messages, None);
    assert_eq!(
        p,
        "<|im_start|>system\ncontext<|im_end|>\n<|im_start|>assistant\nok<|im_end|>\n<|im_start|>assistant\n"
    );
}

#[test]
fn formatting_is_deterministic() {
    let messages = vec![msg("user", "same input"), msg("assistant", "same output")];
    let sys = "stable".to_string();
    let a = format_prompt(&messages, Some(&sys));
    let b = format_prompt(&messages, Some(&sys));
    assert_eq!(a, b);
}

#[test]
fn empty_turns_no_system_is_only_the_marker() {
    let messages: Vec<LlmChatMessage> = Vec::new();
    let p = format_prompt(&messages, None);
    assert_eq!(p, "<|im_start|>assistant\n");
}
