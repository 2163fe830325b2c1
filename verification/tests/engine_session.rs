use llm_engine::api::{chat_over_events, complete_response, preload_message, status_of};
use llm_engine::generation::{choose_seed, GenerationSession, Phase, TokenEvent};
use llm_engine::manager::InstanceManager;
use llm_engine::{LlmChatMessage, LlmChatRequest};

fn ev(eog: bool, fragment: &str) -> TokenEvent {
    TokenEvent { eog, fragment: fragment.to_string() }
}

fn request(max_tokens: Option<u32>, temperature_milli: Option<u32>) -> LlmChatRequest {
    LlmChatRequest {
        messages: vec![LlmChatMessage { role: "user".to_string(), content: "Hello".to_string() }],
        system_prompt: None,
        temperature_milli,
        max_tokens,
    }
}

#[test]
fn stub_emits_one_token_then_end() {
    // A stub backend samples "A", then an end-of-generation token.
    let req = request(Some(5), Some(0));
    let name = "test-model".to_string();
    let events = vec![ev(false, "A"), ev(true, "")];
    let r = chat_over_events(&req, &name, 3, &events);
    assert_eq!(r.content, "A");
    assert_eq!(r.tokens_generated, 1);
    assert!(r.done);
    assert_eq!(r.model, "test-model");
}

#[test]
fn stub_never_ends_stops_at_max_tokens() {
    // The stub never emits an end token: the loop stops at the bound.
    let req = request(Some(5), Some(0));
    let name = "test-model".to_string();
    let events = vec![
        ev(false, "A"),
        ev(false, "A"),
        ev(false, "A"),
        ev(false, "A"),
        ev(false, "A"),
        ev(false, "A"),
        ev(false, "A"),
    ];
    let r = chat_over_events(&req, &name, 3, &events);
    assert_eq!(r.tokens_generated, 5);
    assert_eq!(r.content, "AAAAA");
    assert!(r.done);
}

#[test]
fn session_phases_follow_the_stopping_rules() {
    let mut s = GenerationSession::new(10, 3);
    assert_eq!(s.phase, Phase::Decoding);
    s.accept_token(false, "x");
    assert_eq!(s.phase, Phase::Decoding);
    assert_eq!(s.tokens_generated, 1);
    assert_eq!(s.n_cur, 11);
    s.accept_token(false, "y");
    s.accept_token(false, "z");
    assert_eq!(s.phase, Phase::MaxTokensReached);
    assert_eq!(s.tokens_generated, 3);
    assert_eq!(s.buffer, "xyz");
    assert_eq!(s.n_cur, 13);
}

#[test]
fn end_token_stops_strictly_before_the_bound() {
    let mut s = GenerationSession::new(0, 4);
    s.accept_token(false, "ab");
    s.accept_token(true, "");
    assert_eq!(s.phase, Phase::EndOfSequence);
    assert!(s.tokens_generated < s.max_tokens);
    assert_eq!(s.buffer, "ab");
}

#[test]
fn zero_token_budget_is_complete_at_once() {
    let s = GenerationSession::new(7, 0);
    assert_eq!(s.phase, Phase::MaxTokensReached);
    let name = "m".to_string();
    let r = complete_response(&s, &name);
    assert_eq!(r.content, "");
    assert_eq!(r.tokens_generated, 0);
    assert!(r.done);
}

#[test]
fn replay_is_deterministic() {
    let req = request(None, Some(0));
    let name = "m".to_string();
    let events = vec![ev(false, "He"), ev(false, "llo"), ev(true, "")];
    let a = chat_over_events(&req, &name, 2, &events);
    let b = chat_over_events(&req, &name, 2, &events);
    assert_eq!(a.content, b.content);
    assert_eq!(a.tokens_generated, b.tokens_generated);
    assert_eq!(a.content, "Hello");
}

#[test]
fn response_content_is_cleaned() {
    let req = request(Some(8), None);
    let name = "m".to_string();
    let events = vec![ev(false, "  An answer"), ev(false, "<|im_end|>"), ev(true, "")];
    let r = chat_over_events(&req, &name, 1, &events);
    assert_eq!(r.content, "An answer");
    assert_eq!(r.tokens_generated, 2);
}

#[test]
fn request_defaults_apply() {
    let req = request(None, None);
    assert_eq!(req.resolved_max_tokens(), 512);
    assert_eq!(req.resolved_temperature_milli(), 700);
    let req2 = request(Some(32), Some(0));
    assert_eq!(req2.resolved_max_tokens(), 32);
    assert_eq!(req2.resolved_temperature_milli(), 0);
}

#[test]
fn zero_temperature_uses_the_fixed_seed() {
    assert_eq!(choose_seed(0), 0);
    assert_eq!(choose_seed(0), 0);
}

#[test]
fn manager_loads_at_most_once() {
    let mut m: InstanceManager<u32> = InstanceManager::new();
    assert!(m.needs_load());
    assert_eq!(m.loads, 0);
    m.install(42, "qwen".to_string());
    assert!(!m.needs_load());
    assert_eq!(m.loads, 1);
    let inst = m.get().expect("instance cached after install");
    assert_eq!(inst.handle, 42);
    assert_eq!(inst.model_name, "qwen");
    assert_eq!(m.cached_model_name().unwrap(), "qwen");
}

#[test]
fn failed_load_does_not_poison_the_manager() {
    // A failed attempt installs nothing; the manager still accepts a load.
    let mut m: InstanceManager<u32> = InstanceManager::new();
    assert!(m.needs_load());
    // The backend load failed: nothing is installed.
    assert!(m.needs_load());
    assert_eq!(m.loads, 0);
    // A later attempt succeeds.
    m.install(7, "recovered".to_string());
    assert!(!m.needs_load());
    assert_eq!(m.cached_model_name().unwrap(), "recovered");
}

#[test]
fn status_reports_a_loaded_model() {
    let st = status_of(&Ok("qwen".to_string()));
    assert!(st.available);
    assert_eq!(st.model.as_deref(), Some("qwen"));
    assert!(st.error.is_none());
    assert!(st.is_on_device);
}

#[test]
fn status_reports_an_unavailable_model() {
    let st = status_of(&Err("No model file found. Please download a GGUF model.".to_string()));
    assert!(!st.available);
    assert!(st.model.is_none());
    assert_eq!(
        st.error.as_deref(),
        Some("No model file found. Please download a GGUF model.")
    );
    assert!(st.is_on_device);
}

#[test]
fn preload_confirmation_names_the_model() {
    let name = "qwen2.5-7b-instruct-q4_k_m".to_string();
    assert_eq!(preload_message(&name), "Model loaded: qwen2.5-7b-instruct-q4_k_m");
}
