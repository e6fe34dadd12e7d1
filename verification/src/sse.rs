//! The streaming chat envelope: chunk JSON rendering, the repetition
//! watchdog, and the exact sequence of Server-Sent-Event payloads a chat
//! stream carries — one role chunk, the surviving content chunks, one stop
//! chunk, and the final `[DONE]` marker.
use vstd::prelude::*;
use crate::json::{append_json_string, spec_json_string};
use crate::text::{dec_digits, str_eq, u64_to_string};

verus! {

/// Consecutive identical fragments tolerated before generation is cut off.
pub const REPETITION_LIMIT: usize = 5;

/// One item received from a generation stream.
#[derive(Debug, Clone)]
pub enum Fragment {
    Text(String),
    Error(String),
}

/// The delta object rendered for the opening role chunk.
pub open spec fn spec_role_delta() -> Seq<char> {
    "{\"role\":\"assistant\"}"@
}

/// The delta object rendered for a content chunk.
pub open spec fn spec_content_delta(t: Seq<char>) -> Seq<char> {
    "{\"content\":"@ + spec_json_string(t) + "}"@
}

/// One chunk of the wire format, with the given delta object and
/// finish-reason rendering.
pub open spec fn spec_chunk_json(
    id: Seq<char>,
    created: int,
    model: Seq<char>,
    delta: Seq<char>,
    finish: Seq<char>,
) -> Seq<char> {
    "{\"id\":"@ + spec_json_string(id) + ",\"object\":\"chat.completion.chunk\",\"created\":"@
        + dec_digits(created) + ",\"model\":"@ + spec_json_string(model)
        + ",\"choices\":[{\"index\":0,\"delta\":"@ + delta + ",\"finish_reason\":"@ + finish
        + "}]}"@
}

/// The opening chunk: it names the assistant role and no finish reason.
pub open spec fn spec_role_chunk(id: Seq<char>, created: int, model: Seq<char>) -> Seq<char> {
    spec_chunk_json(id, created, model, spec_role_delta(), "null"@)
}

/// A content chunk carrying one fragment.
pub open spec fn spec_content_chunk(
    id: Seq<char>,
    created: int,
    model: Seq<char>,
    t: Seq<char>,
) -> Seq<char> {
    spec_chunk_json(id, created, model, spec_content_delta(t), "null"@)
}

/// The closing chunk: an empty delta and finish reason `stop`.
pub open spec fn spec_stop_chunk(id: Seq<char>, created: int, model: Seq<char>) -> Seq<char> {
    spec_chunk_json(id, created, model, "{}"@, "\"stop\""@)
}

/// Which chunk of a stream to render.
#[derive(Debug, Clone)]
pub enum ChunkKind {
    Role,
    Content(String),
    Stop,
}

/// Render one chunk of the stream as its exact JSON payload.
pub fn render_chunk(id: &str, created: u64, model: &str, kind: &ChunkKind) -> (r: String)
    ensures
        kind is Role ==> r@ == spec_role_chunk(id@, created as int, model@),
        kind matches ChunkKind::Content(t) ==> r@ == spec_content_chunk(
            id@,
            created as int,
            model@,
            t@,
        ),
        kind is Stop ==> r@ == spec_stop_chunk(id@, created as int, model@),
{
    let mut out = String::from_str("{\"id\":");
    append_json_string(&mut out, id);
    out.append(",\"object\":\"chat.completion.chunk\",\"created\":");
    let created_str = u64_to_string(created);
    out.append(created_str.as_str());
    out.append(",\"model\":");
    append_json_string(&mut out, model);
    out.append(",\"choices\":[{\"index\":0,\"delta\":");
    match kind {
        ChunkKind::Role => out.append("{\"role\":\"assistant\"}"),
        ChunkKind::Content(t) => {
            out.append("{\"content\":");
            append_json_string(&mut out, t.as_str());
            out.append("}");
        },
        ChunkKind::Stop => out.append("{}"),
    }
    out.append(",\"finish_reason\":");
    match kind {
        ChunkKind::Stop => out.append("\"stop\""),
        _ => out.append("null"),
    }
    out.append("}]}");
    proof {
        match kind {
            ChunkKind::Role => {
                assert(out@ =~= spec_role_chunk(id@, created as int, model@));
            },
            ChunkKind::Content(t) => {
                assert(out@ =~= spec_content_chunk(id@, created as int, model@, t@));
            },
            ChunkKind::Stop => {
                assert(out@ =~= spec_stop_chunk(id@, created as int, model@));
            },
        }
    }
    out
}

/// Cuts generation off once the same fragment has been emitted
/// `REPETITION_LIMIT` times in a row. `run` is the length of the current
/// run of identical fragments.
#[derive(Debug, Clone)]
pub struct RepetitionWatchdog {
    pub last: Option<String>,
    pub run: usize,
}

impl RepetitionWatchdog {
    /// A fresh watchdog that has seen nothing.
    pub fn new() -> (r: Self)
        ensures
            r.last is None,
            r.run == 0,
    {
        RepetitionWatchdog { last: None, run: 0 }
    }

    /// Record one emitted fragment; true means generation must stop.
    pub fn observe(&mut self, frag: &str) -> (stop: bool)
        requires
            old(self).run < usize::MAX,
        ensures
            final(self).run == (if old(self).last matches Some(l) && l@ == frag@ {
                old(self).run + 1
            } else {
                1
            }),
            final(self).last matches Some(l) && l@ == frag@,
            stop == (final(self).run >= REPETITION_LIMIT),
    {
        let repeated = match &self.last {
            Some(l) => str_eq(l.as_str(), frag),
            None => false,
        };
        if repeated {
            self.run = self.run + 1;
        } else {
            self.run = 1;
        }
        self.last = Some(String::from_str(frag));
        self.run >= REPETITION_LIMIT
    }
}

/// The fragment texts that survive filtering: empty fragments are dropped,
/// an error ends the stream, and the watchdog (entering with the given run
/// state) cuts it off at the limit.
pub open spec fn spec_plan(frags: Seq<Fragment>, last: Seq<char>, have: bool, run: int) -> Seq<
    Seq<char>,
>
    decreases frags.len(),
{
    if frags.len() == 0 {
        Seq::empty()
    } else {
        let rest = frags.subrange(1, frags.len() as int);
        match frags[0] {
            Fragment::Error(_) => Seq::empty(),
            Fragment::Text(t) => {
                if t@.len() == 0 {
                    spec_plan(rest, last, have, run)
                } else {
                    let run2: int = if have && t@ == last {
                        run + 1
                    } else {
                        1
                    };
                    if run2 >= REPETITION_LIMIT {
                        Seq::empty()
                    } else {
                        seq![t@] + spec_plan(rest, t@, true, run2)
                    }
                }
            },
        }
    }
}

/// The fragment texts a fresh stream emits.
pub open spec fn spec_content_plan(frags: Seq<Fragment>) -> Seq<Seq<char>> {
    spec_plan(frags, Seq::empty(), false, 0)
}

/// Filter a stream's fragments down to the texts that are emitted.
pub fn plan_contents(fragments: &Vec<Fragment>) -> (r: Vec<String>)
    ensures
        r@.map_values(|s: String| s@) == spec_content_plan(fragments@),
{
    let mut out: Vec<String> = Vec::new();
    let mut wd = RepetitionWatchdog::new();
    let mut i: usize = 0;
    proof {
        assert(fragments@.subrange(0, fragments@.len() as int) =~= fragments@);
        assert(out@.map_values(|s: String| s@) =~= Seq::<Seq<char>>::empty());
    }
    while i < fragments.len()
        invariant
            i <= fragments@.len(),
            wd.run < usize::MAX,
            wd.last is Some <==> wd.run >= 1,
            spec_content_plan(fragments@) == out@.map_values(|s: String| s@) + spec_plan(
                fragments@.subrange(i as int, fragments@.len() as int),
                match wd.last {
                    Some(l) => l@,
                    None => Seq::empty(),
                },
                wd.last is Some,
                wd.run as int,
            ),
        decreases fragments@.len() - i,
    {
        let ghost rem = fragments@.subrange(i as int, fragments@.len() as int);
        proof {
            assert(rem[0] == fragments@[i as int]);
            assert(rem.subrange(1, rem.len() as int) =~= fragments@.subrange(
                i + 1,
                fragments@.len() as int,
            ));
        }
        match &fragments[i] {
            Fragment::Error(_) => {
                return out;
            },
            Fragment::Text(t) => {
                if !t.as_str().is_empty() {
                    let stop = wd.observe(t.as_str());
                    if stop {
                        return out;
                    }
                    out.push(t.clone());
                    proof {
                        assert(out@.map_values(|s: String| s@) =~= out@.drop_last().map_values(
                            |s: String| s@,
                        ).push(t@));
                    }
                }
            },
        }
        i += 1;
    }
    proof {
        assert(fragments@.subrange(fragments@.len() as int, fragments@.len() as int) =~= Seq::<
            Fragment,
        >::empty());
        assert(out@.map_values(|s: String| s@) + Seq::<Seq<char>>::empty() =~= out@.map_values(
            |s: String| s@,
        ));
    }
    out
}

/// Every payload of one streamed chat response, in order: the role chunk,
/// one content chunk per surviving fragment, the stop chunk, and `[DONE]`.
pub open spec fn spec_sse_payloads(
    id: Seq<char>,
    created: int,
    model: Seq<char>,
    frags: Seq<Fragment>,
) -> Seq<Seq<char>> {
    seq![spec_role_chunk(id, created, model)] + spec_content_plan(frags).map_values(
        |t: Seq<char>| spec_content_chunk(id, created, model, t),
    ) + seq![spec_stop_chunk(id, created, model), "[DONE]"@]
}

/// Build the payload of every event of one streamed chat response.
pub fn sse_event_payloads(id: &str, created: u64, model: &str, fragments: &Vec<Fragment>) -> (r:
    Vec<String>)
    ensures
        r@.map_values(|s: String| s@) == spec_sse_payloads(
            id@,
            created as int,
            model@,
            fragments@,
        ),
{
    let mut out: Vec<String> = Vec::new();
    out.push(render_chunk(id, created, model, &ChunkKind::Role));
    let contents = plan_contents(fragments);
    let mut i: usize = 0;
    while i < contents.len()
        invariant
            i <= contents@.len(),
            contents@.map_values(|s: String| s@) == spec_content_plan(fragments@),
            out@.len() == i + 1,
            out@[0]@ == spec_role_chunk(id@, created as int, model@),
            forall|j: int|
                1 <= j < i + 1 ==> #[trigger] out@[j]@ == spec_content_chunk(
                    id@,
                    created as int,
                    model@,
                    spec_content_plan(fragments@)[j - 1],
                ),
        decreases contents@.len() - i,
    {
        let kind = ChunkKind::Content(contents[i].clone());
        out.push(render_chunk(id, created, model, &kind));
        proof {
            assert(contents@.map_values(|s: String| s@)[i as int] == contents@[i as int]@);
        }
        i += 1;
    }
    let ghost base = out@;
    out.push(render_chunk(id, created, model, &ChunkKind::Stop));
    out.push(String::from_str("[DONE]"));
    proof {
        assert(forall|j: int| 0 <= j < base.len() ==> out@[j] == #[trigger] base[j]);
        let plan = spec_content_plan(fragments@);
        let evs = spec_sse_payloads(id@, created as int, model@, fragments@);
        assert(plan.len() == contents@.map_values(|s: String| s@).len());
        assert forall|j: int| 0 <= j < out@.len() implies out@[j]@ == #[trigger] evs[j] by {
            if j == 0 {
            } else if j < out@.len() - 2 {
                assert(out@[j]@ == spec_content_chunk(id@, created as int, model@, plan[j - 1]));
                assert(evs[j] == plan.map_values(
                    |t: Seq<char>| spec_content_chunk(id@, created as int, model@, t),
                )[j - 1]);
            }
        }
        assert(out@.map_values(|s: String| s@) =~= evs);
    }
    out
}

/// Streamed-response envelope: at least three events; the last is exactly
/// `[DONE]` and no other event is; the one before it is the stop chunk;
/// the first is the role chunk; everything between is a content chunk of
/// the surviving fragments, in order.
pub proof fn lemma_sse_envelope(
    id: Seq<char>,
    created: int,
    model: Seq<char>,
    frags: Seq<Fragment>,
)
    ensures
        spec_sse_payloads(id, created, model, frags).len() == spec_content_plan(frags).len() + 3,
        spec_sse_payloads(id, created, model, frags).last() == "[DONE]"@,
        forall|i: int|
            0 <= i < spec_sse_payloads(id, created, model, frags).len() - 1 ==> #[trigger]
                spec_sse_payloads(id, created, model, frags)[i] != "[DONE]"@,
        spec_sse_payloads(id, created, model, frags)[spec_sse_payloads(
            id,
            created,
            model,
            frags,
        ).len() - 2] == spec_stop_chunk(id, created, model),
        spec_sse_payloads(id, created, model, frags)[0] == spec_role_chunk(id, created, model),
        forall|i: int|
            1 <= i < spec_sse_payloads(id, created, model, frags).len() - 2 ==> #[trigger]
                spec_sse_payloads(id, created, model, frags)[i] == spec_content_chunk(
                id,
                created,
                model,
                spec_content_plan(frags)[i - 1],
            ),
{
    reveal_strlit("[DONE]");
    reveal_strlit("{\"id\":");
    let evs = spec_sse_payloads(id, created, model, frags);
    let plan = spec_content_plan(frags);
    assert forall|i: int| 0 <= i < evs.len() - 1 implies #[trigger] evs[i] != "[DONE]"@ by {
        assert(evs[i][0] == '{');
        assert("[DONE]"@[0] == '[');
    }
}

/// Everything up to the delta object, shared by every chunk of one stream.
pub open spec fn spec_chunk_prefix(id: Seq<char>, created: int, model: Seq<char>) -> Seq<char> {
    "{\"id\":"@ + spec_json_string(id) + ",\"object\":\"chat.completion.chunk\",\"created\":"@
        + dec_digits(created) + ",\"model\":"@ + spec_json_string(model)
        + ",\"choices\":[{\"index\":0,\"delta\":"@
}

/// A chunk reads back its delta object just past the shared prefix.
proof fn lemma_chunk_delta_char(
    id: Seq<char>,
    created: int,
    model: Seq<char>,
    delta: Seq<char>,
    finish: Seq<char>,
    k: int,
)
    requires
        0 <= k < delta.len(),
    ensures
        spec_chunk_json(id, created, model, delta, finish)[spec_chunk_prefix(
            id,
            created,
            model,
        ).len() + k] == delta[k],
{
    let p = spec_chunk_prefix(id, created, model);
    let whole = spec_chunk_json(id, created, model, delta, finish);
    assert(whole =~= p + delta + (",\"finish_reason\":"@ + finish + "}]}"@));
    assert((p + delta + (",\"finish_reason\":"@ + finish + "}]}"@))[p.len() + k] == delta[k]);
}

/// The three chunk forms of one stream are pairwise distinct payloads: in
/// particular, exactly one payload of a streamed response — the first —
/// names the assistant role.
pub proof fn lemma_chunk_kinds_distinct(
    id: Seq<char>,
    created: int,
    model: Seq<char>,
    t: Seq<char>,
)
    ensures
        spec_role_chunk(id, created, model) != spec_content_chunk(id, created, model, t),
        spec_role_chunk(id, created, model) != spec_stop_chunk(id, created, model),
        spec_content_chunk(id, created, model, t) != spec_stop_chunk(id, created, model),
{
    reveal_strlit("{\"role\":\"assistant\"}");
    reveal_strlit("{\"content\":");
    reveal_strlit("{}");
    reveal_strlit("\"");
    let p = spec_chunk_prefix(id, created, model);
    let role_delta = spec_role_delta();
    let content_delta = spec_content_delta(t);
    let stop_delta = "{}"@;
    assert(content_delta[1] == '"') by {
        assert(("{\"content\":"@ + spec_json_string(t) + "}"@)[1] == "{\"content\":"@[1]);
    }
    assert(content_delta[2] == 'c') by {
        assert(("{\"content\":"@ + spec_json_string(t) + "}"@)[2] == "{\"content\":"@[2]);
    }
    lemma_chunk_delta_char(id, created, model, role_delta, "null"@, 1);
    lemma_chunk_delta_char(id, created, model, role_delta, "null"@, 2);
    lemma_chunk_delta_char(id, created, model, content_delta, "null"@, 1);
    lemma_chunk_delta_char(id, created, model, content_delta, "null"@, 2);
    lemma_chunk_delta_char(id, created, model, stop_delta, "\"stop\""@, 1);
    assert(spec_role_chunk(id, created, model)[p.len() as int + 2] == 'r');
    assert(spec_content_chunk(id, created, model, t)[p.len() as int + 2] == 'c');
    assert(spec_role_chunk(id, created, model)[p.len() as int + 1] == '"');
    assert(spec_content_chunk(id, created, model, t)[p.len() as int + 1] == '"');
    assert(spec_stop_chunk(id, created, model)[p.len() as int + 1] == '}');
}

/// Five consecutive deliveries of the same non-empty fragment trip the
/// watchdog: only the first four are emitted, however long the stream runs
/// on; the envelope around them still closes with the stop chunk and
/// `[DONE]`.
pub proof fn lemma_watchdog_trips(t: Seq<char>, frags: Seq<Fragment>)
    requires
        t.len() > 0,
        frags.len() >= 5,
        forall|i: int|
            0 <= i < frags.len() ==> ((#[trigger] frags[i]) matches Fragment::Text(s) && s@ == t),
    ensures
        spec_content_plan(frags) == seq![t, t, t, t],
{
    let s1 = frags.subrange(1, frags.len() as int);
    let s2 = frags.subrange(2, frags.len() as int);
    let s3 = frags.subrange(3, frags.len() as int);
    let s4 = frags.subrange(4, frags.len() as int);
    assert(s1.subrange(1, s1.len() as int) =~= s2);
    assert(s2.subrange(1, s2.len() as int) =~= s3);
    assert(s3.subrange(1, s3.len() as int) =~= s4);
    assert(spec_plan(s4, t, true, 4) =~= Seq::<Seq<char>>::empty());
    assert(spec_plan(s3, t, true, 3) =~= seq![t] + spec_plan(s4, t, true, 4));
    assert(spec_plan(s2, t, true, 2) =~= seq![t] + spec_plan(s3, t, true, 3));
    assert(spec_plan(s1, t, true, 1) =~= seq![t] + spec_plan(s2, t, true, 2));
    assert(spec_content_plan(frags) =~= seq![t] + spec_plan(s1, t, true, 1));
    assert(spec_content_plan(frags) =~= seq![t, t, t, t]);
}

} // verus!
