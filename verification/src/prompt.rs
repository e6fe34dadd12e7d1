//! Prompt assembly: turn an ordered list of chat messages into the prompt
//! string a model family expects. Gemma families use the turn-marker
//! template, with any buffered system text merged into the next user turn;
//! Llama-family models take the last user message's raw content.
use vstd::prelude::*;
use crate::text::{is_prefix_of, is_suffix_of, str_eq};

verus! {

/// One chat message. A missing content is rendered as empty text.
#[derive(Debug, Clone)]
pub struct Message {
    pub role: String,
    pub content: Option<String>,
}

/// The text of a message; empty when the content is missing.
pub open spec fn msg_text(m: Message) -> Seq<char> {
    match m.content {
        Some(c) => c@,
        None => Seq::empty(),
    }
}

/// The turns emitted for `msgs`, given the system text buffered so far.
/// A system message replaces the buffer; a user turn absorbs it; unknown
/// roles are skipped.
pub open spec fn spec_gemma_turns(msgs: Seq<Message>, sys: Seq<char>, have_sys: bool) -> Seq<char>
    decreases msgs.len(),
{
    if msgs.len() == 0 {
        Seq::empty()
    } else {
        let m = msgs[0];
        let rest = msgs.subrange(1, msgs.len() as int);
        if m.role@ == "system"@ {
            spec_gemma_turns(rest, msg_text(m), true)
        } else if m.role@ == "user"@ {
            "<start_of_turn>user\n"@ + (if have_sys {
                sys + "\n\n"@
            } else {
                Seq::empty()
            }) + msg_text(m) + "<end_of_turn>\n"@ + spec_gemma_turns(rest, Seq::empty(), false)
        } else if m.role@ == "assistant"@ {
            "<start_of_turn>model\n"@ + msg_text(m) + "<end_of_turn>\n"@ + spec_gemma_turns(
                rest,
                sys,
                have_sys,
            )
        } else {
            spec_gemma_turns(rest, sys, have_sys)
        }
    }
}

/// The full Gemma prompt: the emitted turns followed by the opening of the
/// model's turn.
pub open spec fn spec_gemma_prompt(msgs: Seq<Message>) -> Seq<char> {
    spec_gemma_turns(msgs, Seq::empty(), false) + "<start_of_turn>model\n"@
}

/// Assemble the Gemma prompt for `messages`.
pub fn build_gemma_prompt(messages: &Vec<Message>) -> (r: String)
    ensures
        r@ == spec_gemma_prompt(messages@),
{
    let mut out = String::new();
    let mut sys: String = String::new();
    let mut have_sys: bool = false;
    let mut i: usize = 0;
    proof {
        assert(messages@.subrange(0, messages@.len() as int) =~= messages@);
        assert(Seq::<char>::empty() + spec_gemma_turns(messages@, Seq::empty(), false)
            =~= spec_gemma_turns(messages@, Seq::empty(), false));
    }
    while i < messages.len()
        invariant
            i <= messages@.len(),
            spec_gemma_turns(messages@, Seq::empty(), false) == out@ + spec_gemma_turns(
                messages@.subrange(i as int, messages@.len() as int),
                sys@,
                have_sys,
            ),
        decreases messages@.len() - i,
    {
        let ghost rem = messages@.subrange(i as int, messages@.len() as int);
        proof {
            assert(rem[0] == messages@[i as int]);
            assert(rem.subrange(1, rem.len() as int) =~= messages@.subrange(
                i + 1,
                messages@.len() as int,
            ));
        }
        let msg = &messages[i];
        let role = msg.role.as_str();
        if str_eq(role, "system") {
            sys = match &msg.content {
                Some(c) => c.clone(),
                None => String::new(),
            };
            have_sys = true;
        } else if str_eq(role, "user") {
            out.append("<start_of_turn>user\n");
            if have_sys {
                out.append(sys.as_str());
                out.append("\n\n");
            }
            match &msg.content {
                Some(c) => out.append(c.as_str()),
                None => (),
            }
            out.append("<end_of_turn>\n");
            sys = String::new();
            have_sys = false;
        } else if str_eq(role, "assistant") {
            out.append("<start_of_turn>model\n");
            match &msg.content {
                Some(c) => out.append(c.as_str()),
                None => (),
            }
            out.append("<end_of_turn>\n");
        }
        i += 1;
    }
    proof {
        assert(messages@.subrange(messages@.len() as int, messages@.len() as int)
            =~= Seq::<Message>::empty());
    }
    out.append("<start_of_turn>model\n");
    out
}

/// The content of the last user message, or empty when there is none.
pub open spec fn spec_last_user_content(msgs: Seq<Message>) -> Seq<char>
    decreases msgs.len(),
{
    if msgs.len() == 0 {
        Seq::empty()
    } else if msgs.last().role@ == "user"@ {
        msg_text(msgs.last())
    } else {
        spec_last_user_content(msgs.drop_last())
    }
}

/// The prompt for Llama-family models: the last user message's raw content.
pub fn build_llama_prompt(messages: &Vec<Message>) -> (r: String)
    ensures
        r@ == spec_last_user_content(messages@),
{
    let mut i: usize = messages.len();
    proof {
        assert(messages@.subrange(0, messages@.len() as int) =~= messages@);
    }
    while i > 0
        invariant
            i <= messages@.len(),
            spec_last_user_content(messages@) == spec_last_user_content(
                messages@.subrange(0, i as int),
            ),
        decreases i,
    {
        let ghost cur = messages@.subrange(0, i as int);
        proof {
            assert(cur.last() == messages@[i - 1]);
            assert(cur.drop_last() =~= messages@.subrange(0, i - 1));
        }
        let msg = &messages[i - 1];
        if str_eq(msg.role.as_str(), "user") {
            return match &msg.content {
                Some(c) => c.clone(),
                None => String::new(),
            };
        }
        i -= 1;
    }
    proof {
        assert(messages@.subrange(0, 0) =~= Seq::<Message>::empty());
    }
    String::new()
}

/// Prompt assembly is a pure function: view-equal message lists produce the
/// same prompt, byte for byte.
pub proof fn lemma_prompt_deterministic(a: Seq<Message>, b: Seq<Message>)
    requires
        a == b,
    ensures
        spec_gemma_prompt(a) == spec_gemma_prompt(b),
        spec_last_user_content(a) == spec_last_user_content(b),
{
}

/// The emitted turns, whatever the messages and buffered system text, are
/// empty or start with a turn marker.
proof fn lemma_turns_shape(msgs: Seq<Message>, sys: Seq<char>, have_sys: bool)
    ensures
        spec_gemma_turns(msgs, sys, have_sys).len() == 0 || is_prefix_of(
            "<start_of_turn>"@,
            spec_gemma_turns(msgs, sys, have_sys),
        ),
    decreases msgs.len(),
{
    reveal_strlit("<start_of_turn>");
    reveal_strlit("<start_of_turn>user\n");
    reveal_strlit("<start_of_turn>model\n");
    if msgs.len() > 0 {
        let m = msgs[0];
        let rest = msgs.subrange(1, msgs.len() as int);
        if m.role@ == "system"@ {
            lemma_turns_shape(rest, msg_text(m), true);
        } else if m.role@ == "user"@ {
            let t = spec_gemma_turns(msgs, sys, have_sys);
            assert(t.subrange(0, 15) =~= "<start_of_turn>"@);
        } else if m.role@ == "assistant"@ {
            let t = spec_gemma_turns(msgs, sys, have_sys);
            assert(t.subrange(0, 15) =~= "<start_of_turn>"@);
        } else {
            lemma_turns_shape(rest, sys, have_sys);
        }
    }
}

/// Template shape: every assembled Gemma prompt starts with
/// `<start_of_turn>` and ends with `<start_of_turn>model\n`.
pub proof fn lemma_gemma_template_shape(msgs: Seq<Message>)
    ensures
        is_prefix_of("<start_of_turn>"@, spec_gemma_prompt(msgs)),
        is_suffix_of("<start_of_turn>model\n"@, spec_gemma_prompt(msgs)),
{
    reveal_strlit("<start_of_turn>");
    reveal_strlit("<start_of_turn>model\n");
    let p = spec_gemma_prompt(msgs);
    let t = spec_gemma_turns(msgs, Seq::empty(), false);
    lemma_turns_shape(msgs, Seq::empty(), false);
    assert(p.subrange(t.len() as int, p.len() as int) =~= "<start_of_turn>model\n"@);
    if t.len() == 0 {
        assert(p =~= "<start_of_turn>model\n"@);
        assert(p.subrange(0, 15) =~= "<start_of_turn>"@);
    } else {
        assert(t.subrange(0, 15) =~= "<start_of_turn>"@);
        assert(p.subrange(0, 15) =~= t.subrange(0, 15));
    }
}

} // verus!
