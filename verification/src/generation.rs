//! The per-request generation session: prefill bookkeeping followed by
//! token-by-token decode/sample steps, with the stopping rules of the
//! engine.  The session is a value passed by exclusive ownership through
//! the decode loop; the application shell (or a test's fake token source)
//! hands it one sampled token at a time.

use vstd::prelude::*;

verus! {

/// Tokens a request may occupy in one execution context.
pub const CONTEXT_WINDOW: u32 = 4096;

/// Generation length bound used when a request names none.
pub const DEFAULT_MAX_TOKENS: u32 = 512;

/// Sampling temperature, in thousandths, used when a request names none.
pub const DEFAULT_TEMPERATURE_MILLI: u32 = 700;

/// Where a generation session stands.
#[derive(Debug, Clone, Copy, PartialEq, Eq, Structural)]
pub enum Phase {
    /// Still sampling tokens.
    Decoding,
    /// The model surfaced an end-of-generation token; it was not emitted.
    EndOfSequence,
    /// Exactly `max_tokens` tokens were accepted with no end token seen.
    MaxTokensReached,
}

/// One decode-step outcome handed back by the backend: either the sampled
/// token was an end-of-generation token, or it decoded to a text fragment.
#[derive(Debug)]
pub struct TokenEvent {
    pub eog: bool,
    pub fragment: String,
}

/// Mathematical model of a generation session.
pub struct SessionModel {
    pub max_tokens: int,
    pub prompt_len: int,
    pub tokens_generated: int,
    pub n_cur: int,
    pub buffer: Seq<char>,
    pub phase: Phase,
}

impl SessionModel {
    /// Session well-formedness: the generated-token count never exceeds the
    /// requested bound, the cursor counts prompt tokens plus generated
    /// tokens, and a finished-by-bound session generated exactly the bound.
    pub open spec fn wf(self) -> bool {
        &&& 0 <= self.tokens_generated <= self.max_tokens
        &&& 0 <= self.prompt_len
        &&& self.n_cur == self.prompt_len + self.tokens_generated
        &&& (self.phase is Decoding ==> self.tokens_generated < self.max_tokens)
        &&& (self.phase is EndOfSequence ==> self.tokens_generated < self.max_tokens)
        &&& (self.phase is MaxTokensReached ==> self.tokens_generated == self.max_tokens)
    }
}

/// The transition taken for one sampled token while decoding: an
/// end-of-generation token finishes the session without being emitted;
/// any other token's fragment is appended, the counters advance, and the
/// session finishes once `max_tokens` tokens were accepted.
pub open spec fn spec_step(m: SessionModel, eog: bool, frag: Seq<char>) -> SessionModel {
    if eog {
        SessionModel { phase: Phase::EndOfSequence, ..m }
    } else {
        SessionModel {
            buffer: m.buffer + frag,
            tokens_generated: m.tokens_generated + 1,
            n_cur: m.n_cur + 1,
            phase: if m.tokens_generated + 1 == m.max_tokens {
                Phase::MaxTokensReached
            } else {
                Phase::Decoding
            },
            ..m
        }
    }
}

/// Replays a sequence of decode-step outcomes from a session state:
/// steps are taken in order while the session is decoding.
pub open spec fn spec_run(m: SessionModel, events: Seq<(bool, Seq<char>)>) -> SessionModel
    decreases events.len(),
{
    if events.len() == 0 || !(m.phase is Decoding) {
        m
    } else {
        spec_run(spec_step(m, events[0].0, events[0].1), events.drop_first())
    }
}

/// View of a sequence of decode-step outcomes.
pub open spec fn spec_events(events: Seq<TokenEvent>) -> Seq<(bool, Seq<char>)> {
    events.map(|i: int, e: TokenEvent| (e.eog, e.fragment@))
}

/// Transient per-request state of the decode loop.
pub struct GenerationSession {
    pub max_tokens: u32,
    pub prompt_len: usize,
    pub tokens_generated: u32,
    pub n_cur: usize,
    pub buffer: String,
    pub phase: Phase,
}

impl View for GenerationSession {
    type V = SessionModel;

    open spec fn view(&self) -> SessionModel {
        SessionModel {
            max_tokens: self.max_tokens as int,
            prompt_len: self.prompt_len as int,
            tokens_generated: self.tokens_generated as int,
            n_cur: self.n_cur as int,
            buffer: self.buffer@,
            phase: self.phase,
        }
    }
}

impl GenerationSession {
    /// Starts a session right after a successful prefill of `prompt_len`
    /// tokens.  A zero token budget is complete at once.
    pub fn new(prompt_len: usize, max_tokens: u32) -> (s: GenerationSession)
        requires
            prompt_len + max_tokens <= usize::MAX,
        ensures
            s@.wf(),
            s@.max_tokens == max_tokens,
            s@.prompt_len == prompt_len,
            s@.tokens_generated == 0,
            s@.n_cur == prompt_len,
            s@.buffer == Seq::<char>::empty(),
            s@.phase == (if max_tokens == 0 {
                Phase::MaxTokensReached
            } else {
                Phase::Decoding
            }),
    {
        GenerationSession {
            max_tokens,
            prompt_len,
            tokens_generated: 0,
            n_cur: prompt_len,
            buffer: String::new(),
            phase: if max_tokens == 0 {
                Phase::MaxTokensReached
            } else {
                Phase::Decoding
            },
        }
    }

    /// Whether the decode loop should take another step.
    pub fn is_decoding(&self) -> (b: bool)
        ensures
            b == (self@.phase is Decoding),
    {
        self.phase == Phase::Decoding
    }

    /// Accepts one sampled token.  An end-of-generation token stops the
    /// session without being emitted; otherwise the fragment is appended
    /// to the output buffer in generation order and the cursor advances.
    pub fn accept_token(&mut self, eog: bool, fragment: &str)
        requires
            old(self)@.wf(),
            old(self)@.phase is Decoding,
            old(self).prompt_len + old(self).max_tokens <= usize::MAX,
        ensures
            final(self)@ == spec_step(old(self)@, eog, fragment@),
            final(self)@.wf(),
            final(self)@.n_cur >= old(self)@.n_cur,
            final(self).prompt_len + final(self).max_tokens <= usize::MAX,
    {
        if eog {
            self.phase = Phase::EndOfSequence;
        } else {
            self.buffer.append(fragment);
            self.tokens_generated = self.tokens_generated + 1;
            self.n_cur = self.n_cur + 1;
            if self.tokens_generated == self.max_tokens {
                self.phase = Phase::MaxTokensReached;
            }
        }
    }

    /// Replays a pre-recorded sequence of decode-step outcomes, in order,
    /// while the session is decoding.  The whole decode loop is a pure
    /// function of the starting state and the outcome sequence.
    pub fn run_over(&mut self, events: &Vec<TokenEvent>)
        requires
            old(self)@.wf(),
            old(self).prompt_len + old(self).max_tokens <= usize::MAX,
        ensures
            final(self)@ == spec_run(old(self)@, spec_events(events@)),
            final(self)@.wf(),
    {
        let ghost m0 = self@;
        let ghost all = spec_events(events@);
        proof {
            assert(all.skip(0) =~= all);
        }
        let mut i: usize = 0;
        while i < events.len() && self.is_decoding()
            invariant
                i <= events@.len(),
                all == spec_events(events@),
                all.len() == events@.len(),
                self@.wf(),
                self.prompt_len + self.max_tokens <= usize::MAX,
                spec_run(m0, all) == spec_run(self@, all.skip(i as int)),
            decreases events@.len() - i,
        {
            let ghost before = self@;
            let ev = &events[i];
            self.accept_token(ev.eog, ev.fragment.as_str());
            proof {
                assert(all.skip(i as int)[0] == (ev.eog, ev.fragment@));
                assert(all.skip(i as int).drop_first() =~= all.skip(i + 1));
                assert(spec_run(before, all.skip(i as int)) == spec_run(
                    spec_step(before, ev.eog, ev.fragment@),
                    all.skip(i + 1),
                ));
            }
            i += 1;
        }
        proof {
            if i == events@.len() {
                assert(all.skip(i as int) =~= Seq::<(bool, Seq<char>)>::empty());
            }
            assert(spec_run(self@, all.skip(i as int)) == self@);
        }
    }
}

/// A decoding step never pushes the generated-token count past the bound:
/// well-formedness is preserved by every step.
pub proof fn lemma_step_preserves_wf(m: SessionModel, eog: bool, frag: Seq<char>)
    requires
        m.wf(),
        m.phase is Decoding,
    ensures
        spec_step(m, eog, frag).wf(),
{
}

/// In every reachable session state, `tokens_generated` never exceeds the
/// requested `max_tokens`.
pub proof fn lemma_tokens_never_exceed_max(m: SessionModel)
    requires
        m.wf(),
    ensures
        m.tokens_generated <= m.max_tokens,
{
}

/// Replaying any outcome sequence preserves well-formedness, and the
/// cursor only grows.
pub proof fn lemma_run_preserves_wf(m: SessionModel, events: Seq<(bool, Seq<char>)>)
    requires
        m.wf(),
    ensures
        spec_run(m, events).wf(),
        spec_run(m, events).n_cur >= m.n_cur,
        spec_run(m, events).max_tokens == m.max_tokens,
        spec_run(m, events).prompt_len == m.prompt_len,
    decreases events.len(),
{
    if events.len() == 0 || !(m.phase is Decoding) {
    } else {
        lemma_step_preserves_wf(m, events[0].0, events[0].1);
        lemma_run_preserves_wf(spec_step(m, events[0].0, events[0].1), events.drop_first());
    }
}

/// If the session fits the context window at the start (prompt plus token
/// budget within capacity), the cursor never exceeds the window.
pub proof fn lemma_cursor_bounded(m: SessionModel)
    requires
        m.wf(),
        m.prompt_len + m.max_tokens <= CONTEXT_WINDOW,
    ensures
        m.n_cur <= CONTEXT_WINDOW,
{
}

/// An end-of-generation token surfacing while decoding stops the session
/// strictly before the bound: the end token is not counted, and
/// `tokens_generated` stays below `max_tokens`.
pub proof fn lemma_eog_stops_early(m: SessionModel, frag: Seq<char>)
    requires
        m.wf(),
        m.phase is Decoding,
    ensures
        spec_step(m, true, frag).phase is EndOfSequence,
        spec_step(m, true, frag).tokens_generated == m.tokens_generated,
        spec_step(m, true, frag).tokens_generated < m.max_tokens,
        spec_step(m, true, frag).buffer == m.buffer,
{
}

/// Relies on rand::random: a fresh pseudorandom seed; nothing can be
/// promised of its value.
#[verifier::external_body]
fn random_seed() -> u32 {
    rand::random::<u32>()
}

/// The sampling seed for one decode step.  At temperature zero sampling is
/// greedy under a fixed seed, which makes generation deterministic; at any
/// positive temperature a fresh random seed is drawn for the step.
pub fn choose_seed(temperature_milli: u32) -> (s: u32)
    ensures
        temperature_milli == 0 ==> s == 0,
{
    if temperature_milli == 0 {
        0
    } else {
        random_seed()
    }
}

/// Decoded fragments are appended to the output buffer in generation
/// order: a step never reorders or drops what was already produced.
pub proof fn lemma_fragment_appended(m: SessionModel, frag: Seq<char>)
    ensures
        spec_step(m, false, frag).buffer == m.buffer + frag,
{
}

/// Replay is deterministic: identical starting states and identical
/// outcome sequences end in identical sessions.
pub proof fn lemma_run_deterministic(
    m1: SessionModel,
    e1: Seq<(bool, Seq<char>)>,
    m2: SessionModel,
    e2: Seq<(bool, Seq<char>)>,
)
    requires
        m1 == m2,
        e1 == e2,
    ensures
        spec_run(m1, e1) == spec_run(m2, e2),
{
}

} // verus!

