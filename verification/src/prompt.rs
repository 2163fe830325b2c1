//! Prompt formatting: turns an ordered conversation plus an optional system
//! instruction into a single model-readable prompt string, using the fixed
//! turn-delimiter template `<|im_start|>{role}\n{content}<|im_end|>\n` and a
//! trailing open assistant marker.  A pure, deterministic string transform.

use vstd::prelude::*;

use crate::LlmChatMessage;

verus! {

/// The role tag emitted for a turn: recognized roles map to themselves,
/// anything else defaults to `user`.
pub open spec fn spec_role_tag(role: Seq<char>) -> Seq<char> {
    if role == "assistant"@ {
        "assistant"@
    } else if role == "system"@ {
        "system"@
    } else {
        "user"@
    }
}

/// One delimited block of the prompt.
pub open spec fn spec_block(tag: Seq<char>, content: Seq<char>) -> Seq<char> {
    "<|im_start|>"@ + tag + "\n"@ + content + "<|im_end|>\n"@
}

/// The concatenation of the blocks of all turns, in conversation order.
pub open spec fn spec_prompt_body(msgs: Seq<LlmChatMessage>) -> Seq<char>
    decreases msgs.len(),
{
    if msgs.len() == 0 {
        Seq::empty()
    } else {
        spec_prompt_body(msgs.drop_last()) + spec_block(
            spec_role_tag(msgs.last().role@),
            msgs.last().content@,
        )
    }
}

/// The whole prompt: an optional system block, then every turn in order,
/// then the open assistant marker.
pub open spec fn spec_format_prompt(msgs: Seq<LlmChatMessage>, sys: Option<Seq<char>>) -> Seq<
    char,
> {
    (match sys {
        Some(s) => spec_block("system"@, s),
        None => Seq::empty(),
    }) + spec_prompt_body(msgs) + "<|im_start|>assistant\n"@
}

/// View of an optional borrowed system instruction.
pub open spec fn spec_opt_str(s: Option<&String>) -> Option<Seq<char>> {
    match s {
        Some(t) => Some(t@),
        None => None,
    }
}

/// Maps a role string to the tag written into the prompt; unrecognized
/// roles default to `user`.
fn role_tag(role: &String) -> (r: &'static str)
    ensures
        r@ == spec_role_tag(role@),
{
    let assistant = String::from_str("assistant");
    let system = String::from_str("system");
    if *role == assistant {
        "assistant"
    } else if *role == system {
        "system"
    } else {
        "user"
    }
}

/// Builds the prompt string for a conversation: the optional system
/// instruction first, each turn in order, and the trailing open assistant
/// marker.  Same input always yields the same output.
pub fn format_prompt(messages: &Vec<LlmChatMessage>, system_prompt: Option<&String>) -> (r: String)
    ensures
        r@ == spec_format_prompt(messages@, spec_opt_str(system_prompt)),
{
    let mut prompt = String::new();
    match system_prompt {
        Some(sys) => {
            prompt.append("<|im_start|>");
            prompt.append("system");
            prompt.append("\n");
            prompt.append(sys.as_str());
            prompt.append("<|im_end|>\n");
        },
        None => {},
    }
    let ghost head: Seq<char> = prompt@;
    assert(head =~= (match spec_opt_str(system_prompt) {
        Some(s) => spec_block("system"@, s),
        None => Seq::<char>::empty(),
    }));

    let mut i: usize = 0;
    while i < messages.len()
        invariant
            i <= messages@.len(),
            prompt@ == head + spec_prompt_body(messages@.take(i as int)),
        decreases messages@.len() - i,
    {
        let msg = &messages[i];
        let tag = role_tag(&msg.role);
        prompt.append("<|im_start|>");
        prompt.append(tag);
        prompt.append("\n");
        prompt.append(msg.content.as_str());
        prompt.append("<|im_end|>\n");
        proof {
            assert(messages@.take(i + 1).drop_last() =~= messages@.take(i as int));
            assert(messages@.take(i + 1).last() == messages@[i as int]);
            assert(prompt@ =~= head + spec_prompt_body(messages@.take(i + 1)));
        }
        i += 1;
    }
    assert(messages@.take(messages@.len() as int) =~= messages@);
    prompt.append("<|im_start|>assistant\n");
    assert(prompt@ =~= spec_format_prompt(messages@, spec_opt_str(system_prompt)));
    prompt
}

/// The formatter is a pure function: identical inputs yield identical
/// prompt text.
pub proof fn lemma_format_prompt_deterministic(
    m1: Seq<LlmChatMessage>,
    s1: Option<Seq<char>>,
    m2: Seq<LlmChatMessage>,
    s2: Option<Seq<char>>,
)
    requires
        m1 == m2,
        s1 == s2,
    ensures
        spec_format_prompt(m1, s1) == spec_format_prompt(m2, s2),
{
}

/// Conversation order is preserved verbatim: appending a turn to the
/// conversation appends exactly that turn's block to the prompt body.
pub proof fn lemma_prompt_preserves_order(msgs: Seq<LlmChatMessage>, m: LlmChatMessage)
    ensures
        spec_prompt_body(msgs.push(m)) == spec_prompt_body(msgs) + spec_block(
            spec_role_tag(m.role@),
            m.content@,
        ),
{
    assert(msgs.push(m).drop_last() =~= msgs);
    assert(msgs.push(m).last() == m);
}

/// An empty conversation with a system instruction yields a prompt holding
/// only the system block and the trailing open assistant marker.
pub proof fn lemma_prompt_empty_turns(sys: Seq<char>)
    ensures
        spec_format_prompt(Seq::empty(), Some(sys)) == spec_block("system"@, sys)
            + "<|im_start|>assistant\n"@,
{
    assert(spec_format_prompt(Seq::empty(), Some(sys)) =~= spec_block("system"@, sys)
        + "<|im_start|>assistant\n"@);
}

} // verus!
