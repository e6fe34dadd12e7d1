//! Reverse-proxy policy: which request and response headers cross the
//! proxy, the extra headers a streaming response carries, and how a request
//! body's `stream` flag is read.
use vstd::prelude::*;
use crate::text::lower_char;

verus! {

/// A header name, lower-cased.
pub open spec fn spec_lower(s: Seq<char>) -> Seq<char> {
    s.map_values(|c: char| lower_char(c))
}

/// Request headers cross the proxy unless they are connection-specific:
/// `host`, `connection`, `upgrade`.
pub open spec fn spec_forward_header(name: Seq<char>) -> bool {
    !(spec_lower(name) == "host"@ || spec_lower(name) == "connection"@ || spec_lower(name)
        == "upgrade"@)
}

/// Response headers cross the proxy unless they identify the upstream
/// server: `server`, `date`.
pub open spec fn spec_forward_response_header(name: Seq<char>) -> bool {
    !(spec_lower(name) == "server"@ || spec_lower(name) == "date"@)
}

/// ASCII-lower-case a header name.
fn lower_name(s: &str) -> (r: String)
    ensures
        r@ == spec_lower(s@),
{
    let len = s.unicode_len();
    let mut out = String::new();
    let mut i: usize = 0;
    while i < len
        invariant
            i <= len,
            len == s@.len(),
            out@ == s@.subrange(0, i as int).map_values(|c: char| lower_char(c)),
        decreases len - i,
    {
        let c = s.get_char(i);
        let u = c as u32;
        let n: char = if 65 <= u && u <= 90 {
            ((u + 32) as u8) as char
        } else {
            c
        };
        assert(n == lower_char(s@[i as int]));
        crate::text::push_char(&mut out, n);
        assert(s@.subrange(0, i + 1).map_values(|c: char| lower_char(c)) =~= s@.subrange(
            0,
            i as int,
        ).map_values(|c: char| lower_char(c)).push(lower_char(s@[i as int])));
        i += 1;
    }
    assert(s@.subrange(0, len as int) =~= s@);
    out
}

/// Whether a request header is forwarded to the upstream service.
pub fn should_forward_header(header_name: &str) -> (r: bool)
    ensures
        r == spec_forward_header(header_name@),
{
    let lower = lower_name(header_name);
    let l = lower.as_str();
    !(crate::text::str_eq(l, "host") || crate::text::str_eq(l, "connection")
        || crate::text::str_eq(l, "upgrade"))
}

/// Whether a response header is forwarded back to the client.
pub fn should_forward_response_header(header_name: &str) -> (r: bool)
    ensures
        r == spec_forward_response_header(header_name@),
{
    let lower = lower_name(header_name);
    let l = lower.as_str();
    !(crate::text::str_eq(l, "server") || crate::text::str_eq(l, "date"))
}

/// The response headers that survive the proxy, in order: exactly the
/// input headers whose names pass the response filter.
pub open spec fn spec_filtered_response_headers(h: Seq<(String, String)>) -> Seq<(String, String)>
    decreases h.len(),
{
    if h.len() == 0 {
        Seq::empty()
    } else {
        spec_filtered_response_headers(h.drop_last()) + (if spec_forward_response_header(
            h.last().0@,
        ) {
            seq![h.last()]
        } else {
            Seq::empty()
        })
    }
}

/// Filter an upstream response's headers down to those the proxy forwards.
pub fn forward_response_headers(headers: &Vec<(String, String)>) -> (r: Vec<(String, String)>)
    ensures
        r@ == spec_filtered_response_headers(headers@),
{
    let mut out: Vec<(String, String)> = Vec::new();
    let mut i: usize = 0;
    while i < headers.len()
        invariant
            i <= headers@.len(),
            out@ == spec_filtered_response_headers(headers@.subrange(0, i as int)),
        decreases headers@.len() - i,
    {
        let ghost pre = headers@.subrange(0, i as int);
        let name = headers[i].0.clone();
        if should_forward_response_header(name.as_str()) {
            let pair = (headers[i].0.clone(), headers[i].1.clone());
            assert(pair == headers@[i as int]);
            out.push(pair);
        }
        proof {
            let post = headers@.subrange(0, i + 1);
            assert(post.drop_last() =~= pre);
            assert(post.last() == headers@[i as int]);
        }
        i += 1;
    }
    assert(headers@.subrange(0, headers@.len() as int) =~= headers@);
    out
}

/// The headers added to a streaming proxy response.
pub fn streaming_extra_headers() -> (r: Vec<(String, String)>)
    ensures
        r@.len() == 3,
        r@[0].0@ == "content-type"@ && r@[0].1@ == "text/event-stream"@,
        r@[1].0@ == "cache-control"@ && r@[1].1@ == "no-cache"@,
        r@[2].0@ == "connection"@ && r@[2].1@ == "keep-alive"@,
{
    let mut v: Vec<(String, String)> = Vec::new();
    v.push((String::from_str("content-type"), String::from_str("text/event-stream")));
    v.push((String::from_str("cache-control"), String::from_str("no-cache")));
    v.push((String::from_str("connection"), String::from_str("keep-alive")));
    v
}

/// A request asks for streaming exactly when its body's `stream` field is
/// present and true.
pub fn is_streaming_request(stream_flag: Option<bool>) -> (r: bool)
    ensures
        r == (stream_flag == Some(true)),
{
    match stream_flag {
        Some(b) => b,
        None => false,
    }
}

/// No forwarded response header is one of the suppressed names, and every
/// other upstream header survives in order: the filtered sequence is the
/// upstream sequence with exactly the suppressed names removed.
pub proof fn lemma_response_passthrough(h: Seq<(String, String)>)
    ensures
        forall|i: int|
            0 <= i < spec_filtered_response_headers(h).len()
                ==> spec_forward_response_header(#[trigger] spec_filtered_response_headers(h)[i].0@),
        forall|i: int|
            0 <= i < h.len() && spec_forward_response_header(#[trigger] h[i].0@)
                ==> spec_filtered_response_headers(h).contains(h[i]),
    decreases h.len(),
{
    if h.len() > 0 {
        lemma_response_passthrough(h.drop_last());
        let f = spec_filtered_response_headers(h);
        let fp = spec_filtered_response_headers(h.drop_last());
        assert forall|i: int|
            0 <= i < h.len() && spec_forward_response_header(#[trigger] h[i].0@) implies f.contains(
            h[i],
        ) by {
            if i < h.len() - 1 {
                assert(h.drop_last()[i] == h[i]);
                assert(fp.contains(h[i]));
                let j = choose|j: int| 0 <= j < fp.len() && fp[j] == h[i];
                assert(f[j] == h[i]);
            } else {
                assert(h.last() == h[i]);
                assert(f[f.len() - 1] == h[i]);
            }
        }
    }
}

} // verus!
