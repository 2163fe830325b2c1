//! The engine's request and response types, and the assembly of responses
//! and status reports from verified state.

use vstd::prelude::*;

use crate::generation::{
    spec_events, spec_run, GenerationSession, SessionModel, TokenEvent, DEFAULT_MAX_TOKENS,
    DEFAULT_TEMPERATURE_MILLI,
};
use crate::text::{finalize_content, spec_finalize};
use crate::LlmChatMessage;

verus! {

/// Status of the on-device engine, as reported to the host.
#[derive(Debug)]
pub struct LlmStatus {
    pub available: bool,
    pub model: Option<String>,
    pub error: Option<String>,
    pub is_on_device: bool,
}

/// A chat completion request.  The sampling temperature is carried in
/// thousandths, so a value of `700` stands for seven tenths.
#[derive(Debug)]
pub struct LlmChatRequest {
    pub messages: Vec<LlmChatMessage>,
    pub system_prompt: Option<String>,
    pub temperature_milli: Option<u32>,
    pub max_tokens: Option<u32>,
}

/// A completed chat response.
#[derive(Debug)]
pub struct LlmChatResponse {
    pub content: String,
    pub model: String,
    pub done: bool,
    pub tokens_generated: u32,
}

impl LlmChatRequest {
    /// The requested generation bound, or the engine default.
    pub fn resolved_max_tokens(&self) -> (m: u32)
        ensures
            m == (match self.max_tokens {
                Some(v) => v,
                None => DEFAULT_MAX_TOKENS,
            }),
    {
        match self.max_tokens {
            Some(v) => v,
            None => DEFAULT_MAX_TOKENS,
        }
    }

    /// The requested sampling temperature in thousandths, or the engine
    /// default.
    pub fn resolved_temperature_milli(&self) -> (t: u32)
        ensures
            t == (match self.temperature_milli {
                Some(v) => v,
                None => DEFAULT_TEMPERATURE_MILLI,
            }),
    {
        match self.temperature_milli {
            Some(v) => v,
            None => DEFAULT_TEMPERATURE_MILLI,
        }
    }
}

/// Builds the status report from the outcome of an instance load attempt:
/// a loaded model's display name on success, the load error's description
/// on failure.  The engine always runs on the device.
pub fn status_of(load_result: &Result<String, String>) -> (st: LlmStatus)
    ensures
        st.is_on_device,
        load_result is Ok ==> st.available && st.model == Some(load_result->Ok_0) && st.error
            is None,
        load_result is Err ==> !st.available && st.model is None && st.error == Some(
            load_result->Err_0,
        ),
{
    match load_result {
        Ok(name) => LlmStatus {
            available: true,
            model: Some(name.clone()),
            error: None,
            is_on_device: true,
        },
        Err(e) => LlmStatus {
            available: false,
            model: None,
            error: Some(e.clone()),
            is_on_device: true,
        },
    }
}

/// The confirmation text returned by a successful preload.
pub fn preload_message(model_name: &String) -> (r: String)
    ensures
        r@ == "Model loaded: "@ + model_name@,
{
    let mut r = String::from_str("Model loaded: ");
    r.append(model_name.as_str());
    r
}

/// Assembles the response for a finished generation session: the output
/// buffer cleaned into the final content, the generated-token count, and
/// the serving model's display name.
pub fn complete_response(session: &GenerationSession, model_name: &String) -> (r: LlmChatResponse)
    requires
        !(session@.phase is Decoding),
    ensures
        r.content@ == spec_finalize(session@.buffer),
        r.model == model_name,
        r.done,
        r.tokens_generated as int == session@.tokens_generated,
{
    LlmChatResponse {
        content: finalize_content(&session.buffer),
        model: model_name.clone(),
        done: true,
        tokens_generated: session.tokens_generated,
    }
}

/// The session state after prefill of `prompt_len` prompt tokens under the
/// request's resolved generation bound.
pub open spec fn spec_initial_session(request: LlmChatRequest, prompt_len: int) -> SessionModel {
    let max = match request.max_tokens {
        Some(v) => v as int,
        None => DEFAULT_MAX_TOKENS as int,
    };
    SessionModel {
        max_tokens: max,
        prompt_len: prompt_len,
        tokens_generated: 0,
        n_cur: prompt_len,
        buffer: Seq::empty(),
        phase: if max == 0 {
            crate::generation::Phase::MaxTokensReached
        } else {
            crate::generation::Phase::Decoding
        },
    }
}

/// Runs the decode phase of a chat request over a recorded sequence of
/// sampler outcomes and assembles the response: the whole request, as a
/// pure function of the prompt length and the outcomes the backend hands
/// back.  `tokens_generated` never exceeds the request's resolved bound.
pub fn chat_over_events(
    request: &LlmChatRequest,
    model_name: &String,
    prompt_len: usize,
    events: &Vec<TokenEvent>,
) -> (r: LlmChatResponse)
    requires
        prompt_len + (match request.max_tokens {
            Some(v) => v,
            None => DEFAULT_MAX_TOKENS,
        }) <= usize::MAX,
    ensures
        ({
            let mf = spec_run(spec_initial_session(*request, prompt_len as int), spec_events(
                events@,
            ));
            &&& r.content@ == spec_finalize(mf.buffer)
            &&& r.tokens_generated as int == mf.tokens_generated
            &&& r.tokens_generated as int <= spec_initial_session(
                *request,
                prompt_len as int,
            ).max_tokens
            &&& r.model == model_name
            &&& r.done
        }),
{
    let max_tokens = request.resolved_max_tokens();
    let mut session = GenerationSession::new(prompt_len, max_tokens);
    proof {
        assert(session@ == spec_initial_session(*request, prompt_len as int));
    }
    session.run_over(events);
    proof {
        crate::generation::lemma_run_preserves_wf(
            spec_initial_session(*request, prompt_len as int),
            spec_events(events@),
        );
    }
    let response = LlmChatResponse {
        content: finalize_content(&session.buffer),
        model: model_name.clone(),
        done: true,
        tokens_generated: session.tokens_generated,
    };
    response
}

/// The decode phase is deterministic: identical requests, prompt lengths,
/// and sampler outcome sequences yield identical final content and
/// identical token counts.  At temperature zero the sampler itself runs
/// under a fixed seed, so repeated identical requests replay the same
/// outcomes against a fixed model.
pub proof fn lemma_chat_deterministic(
    r1: LlmChatRequest,
    p1: int,
    e1: Seq<(bool, Seq<char>)>,
    r2: LlmChatRequest,
    p2: int,
    e2: Seq<(bool, Seq<char>)>,
)
    requires
        r1.max_tokens == r2.max_tokens,
        p1 == p2,
        e1 == e2,
    ensures
        spec_finalize(spec_run(spec_initial_session(r1, p1), e1).buffer) == spec_finalize(
            spec_run(spec_initial_session(r2, p2), e2).buffer,
        ),
        spec_run(spec_initial_session(r1, p1), e1).tokens_generated == spec_run(
            spec_initial_session(r2, p2),
            e2,
        ).tokens_generated,
{
}

} // verus!
