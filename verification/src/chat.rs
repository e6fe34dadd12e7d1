//! The chat-completion service core: request validation, the OpenAI error
//! envelope, fresh response ids, the byte-estimate usage accounting, and
//! the exact non-streaming response body.
use vstd::prelude::*;
use crate::json::{append_json_string, spec_json_string};
use crate::model::{spec_lookup, spec_normalized, model_id_to_which, Which};
use crate::text::{dec_digits, is_prefix_of, u64_to_string};

verus! {

/// A lower-case hex digit.
pub open spec fn is_lower_hex(c: char) -> bool {
    (48 <= c as u32 && c as u32 <= 57) || (97 <= c as u32 && c as u32 <= 102)
}

/// A fresh random 32-digit request tag.
/// Relies on `uuid::Uuid::new_v4` and the `simple` format: 32 lower-case
/// hexadecimal digits. Each call may return a different value.
#[verifier::external_body]
fn uuid_simple() -> (r: String)
    ensures
        r@.len() == 32,
        forall|i: int| 0 <= i < r@.len() ==> is_lower_hex(#[trigger] r@[i]),
{
    uuid::Uuid::new_v4().simple().to_string()
}

/// A fresh chat-completion id: `chatcmpl-` followed by 32 random lower-case
/// hex digits. Distinct calls are expected to differ, but only the shape is
/// promised.
pub fn fresh_request_id() -> (r: String)
    ensures
        r@.len() == 41,
        is_prefix_of("chatcmpl-"@, r@),
        forall|i: int| 9 <= i < r@.len() ==> is_lower_hex(#[trigger] r@[i]),
{
    proof {
        reveal_strlit("chatcmpl-");
    }
    let mut out = String::from_str("chatcmpl-");
    let tag = uuid_simple();
    out.append(tag.as_str());
    proof {
        assert(out@.subrange(0, 9) =~= "chatcmpl-"@);
    }
    out
}

/// The OpenAI error envelope: an object with a message and an error type.
pub open spec fn spec_error_json(message: Seq<char>, etype: Seq<char>) -> Seq<char> {
    "{\"error\":{\"message\":"@ + spec_json_string(message) + ",\"type\":"@ + spec_json_string(
        etype,
    ) + "}}"@
}

/// Render the OpenAI error envelope.
pub fn render_error_json(message: &str, etype: &str) -> (r: String)
    ensures
        r@ == spec_error_json(message@, etype@),
{
    let mut out = String::from_str("{\"error\":{\"message\":");
    append_json_string(&mut out, message);
    out.append(",\"type\":");
    append_json_string(&mut out, etype);
    out.append("}}");
    proof {
        assert(out@ =~= spec_error_json(message@, etype@));
    }
    out
}

/// Look the requested model up; an unknown id yields the exact
/// `model_not_supported` error body the endpoint returns with status 400.
pub fn validate_chat_model(model_id: &str) -> (r: Result<Which, String>)
    ensures
        r is Ok <==> spec_lookup(spec_normalized(model_id@)) is Some,
        r matches Ok(w) ==> spec_lookup(spec_normalized(model_id@)) == Some(w),
        r matches Err(b) ==> b@ == spec_error_json(
            "Unsupported model: "@ + model_id@,
            "model_not_supported"@,
        ),
{
    match model_id_to_which(model_id) {
        Some(w) => Ok(w),
        None => {
            let mut message = String::from_str("Unsupported model: ");
            message.append(model_id);
            Err(render_error_json(message.as_str(), "model_not_supported"))
        },
    }
}

/// The default generation cap when a request does not set one.
pub const DEFAULT_MAX_TOKENS: usize = 1000;

/// The cap a request runs under: its own, or the default.
pub fn effective_max_tokens(requested: Option<usize>) -> (r: usize)
    ensures
        r as int == (match requested {
            Some(n) => n as int,
            None => DEFAULT_MAX_TOKENS as int,
        }),
{
    match requested {
        Some(n) => n,
        None => DEFAULT_MAX_TOKENS,
    }
}

/// Usage accounting: byte-length quarters for the prompt and completion,
/// and their sum as the total.
pub fn usage_counts(prompt_bytes: usize, completion_bytes: usize) -> (r: (usize, usize, usize))
    ensures
        r.0 == prompt_bytes / 4,
        r.1 == completion_bytes / 4,
        r.2 == r.0 + r.1,
{
    let p = prompt_bytes / 4;
    let c = completion_bytes / 4;
    (p, c, p + c)
}

/// The non-streaming chat completion body: one assistant choice holding
/// the whole completion, finish reason `stop`, and the usage counts.
pub open spec fn spec_completion_response(
    id: Seq<char>,
    created: int,
    model: Seq<char>,
    content: Seq<char>,
    prompt_tokens: int,
    completion_tokens: int,
) -> Seq<char> {
    "{\"id\":"@ + spec_json_string(id) + ",\"object\":\"chat.completion\",\"created\":"@
        + dec_digits(created) + ",\"model\":"@ + spec_json_string(model)
        + ",\"choices\":[{\"index\":0,\"message\":{\"role\":\"assistant\",\"content\":"@
        + spec_json_string(content) + "},\"finish_reason\":\"stop\"}],\"usage\":{\"prompt_tokens\":"@
        + dec_digits(prompt_tokens) + ",\"completion_tokens\":"@ + dec_digits(completion_tokens)
        + ",\"total_tokens\":"@ + dec_digits(prompt_tokens + completion_tokens) + "}}"@
}

/// Render the non-streaming chat completion body. Token counts are the
/// byte/4 estimates over the prompt and completion.
pub fn render_completion_response(
    id: &str,
    created: u64,
    model: &str,
    content: &str,
    prompt_bytes: usize,
    completion_bytes: usize,
) -> (r: String)
    ensures
        r@ == spec_completion_response(
            id@,
            created as int,
            model@,
            content@,
            prompt_bytes as int / 4,
            completion_bytes as int / 4,
        ),
{
    let (p, c, t) = usage_counts(prompt_bytes, completion_bytes);
    let mut out = String::from_str("{\"id\":");
    append_json_string(&mut out, id);
    out.append(",\"object\":\"chat.completion\",\"created\":");
    let created_str = u64_to_string(created);
    out.append(created_str.as_str());
    out.append(",\"model\":");
    append_json_string(&mut out, model);
    out.append(",\"choices\":[{\"index\":0,\"message\":{\"role\":\"assistant\",\"content\":");
    append_json_string(&mut out, content);
    out.append("},\"finish_reason\":\"stop\"}],\"usage\":{\"prompt_tokens\":");
    let ps = u64_to_string(p as u64);
    out.append(ps.as_str());
    out.append(",\"completion_tokens\":");
    let cs = u64_to_string(c as u64);
    out.append(cs.as_str());
    out.append(",\"total_tokens\":");
    let ts = u64_to_string(t as u64);
    out.append(ts.as_str());
    out.append("}}");
    proof {
        assert(out@ =~= spec_completion_response(
            id@,
            created as int,
            model@,
            content@,
            prompt_bytes as int / 4,
            completion_bytes as int / 4,
        ));
    }
    out
}

} // verus!
