//! Weight resolution helpers: the de-duplicated shard list read out of a
//! weight-map index, and the error shape for a repository that is not
//! there.
use vstd::prelude::*;

verus! {

/// Whether some element of `s` has the view `v`.
pub open spec fn contains_view(s: Seq<String>, v: Seq<char>) -> bool {
    exists|j: int| 0 <= j < s.len() && (#[trigger] s[j])@ == v
}

/// First-occurrence de-duplication of a sequence of texts: each text kept
/// once, at the position of its first occurrence.
pub open spec fn spec_dedup_views(views: Seq<Seq<char>>) -> Seq<Seq<char>>
    decreases views.len(),
{
    if views.len() == 0 {
        Seq::empty()
    } else if views.drop_last().contains(views.last()) {
        spec_dedup_views(views.drop_last())
    } else {
        spec_dedup_views(views.drop_last()).push(views.last())
    }
}

/// De-duplication keeps exactly the texts of its input.
proof fn lemma_dedup_contains(v: Seq<Seq<char>>, x: Seq<char>)
    ensures
        spec_dedup_views(v).contains(x) <==> v.contains(x),
    decreases v.len(),
{
    if v.len() > 0 {
        let d = v.drop_last();
        lemma_dedup_contains(d, x);
        assert(v.contains(x) <==> (d.contains(x) || v.last() == x)) by {
            if v.contains(x) {
                let k = choose|k: int| 0 <= k < v.len() && v[k] == x;
                if k < v.len() - 1 {
                    assert(d[k] == x);
                }
            }
            if d.contains(x) {
                let k = choose|k: int| 0 <= k < d.len() && d[k] == x;
                assert(v[k] == x);
            }
            if v.last() == x {
                assert(v[v.len() - 1] == x);
            }
        }
        let rd = spec_dedup_views(d);
        if !d.contains(v.last()) {
            assert(rd.push(v.last()).contains(x) <==> (rd.contains(x) || v.last() == x)) by {
                if rd.push(v.last()).contains(x) {
                    let k = choose|k: int|
                        0 <= k < rd.push(v.last()).len() && rd.push(v.last())[k] == x;
                    if k < rd.len() {
                        assert(rd[k] == x);
                    }
                }
                if rd.contains(x) {
                    let k = choose|k: int| 0 <= k < rd.len() && rd[k] == x;
                    assert(rd.push(v.last())[k] == x);
                }
                assert(rd.push(v.last())[rd.len() as int] == v.last());
            }
        }
    }
}

/// De-duplicate the weight-map's file names: exactly the named shards, each
/// once, in order of first occurrence.
pub fn dedup_shards(names: &Vec<String>) -> (r: Vec<String>)
    ensures
        r@.map_values(|s: String| s@) == spec_dedup_views(
            names@.map_values(|s: String| s@),
        ),
        forall|a: int, b: int| 0 <= a < b < r@.len() ==> (#[trigger] r@[a])@ != (#[trigger] r@[b])@,
        forall|k: int| 0 <= k < r@.len() ==> contains_view(names@, (#[trigger] r@[k])@),
        forall|j: int| 0 <= j < names@.len() ==> contains_view(r@, (#[trigger] names@[j])@),
{
    let mut out: Vec<String> = Vec::new();
    let mut j: usize = 0;
    let ghost views = names@.map_values(|s: String| s@);
    proof {
        assert(views.subrange(0, 0) =~= Seq::<Seq<char>>::empty());
        assert(out@.map_values(|s: String| s@) =~= Seq::<Seq<char>>::empty());
    }
    while j < names.len()
        invariant
            j <= names@.len(),
            views == names@.map_values(|s: String| s@),
            out@.map_values(|s: String| s@) == spec_dedup_views(views.subrange(0, j as int)),
            forall|a: int, b: int|
                0 <= a < b < out@.len() ==> (#[trigger] out@[a])@ != (#[trigger] out@[b])@,
            forall|k: int| 0 <= k < out@.len() ==> contains_view(names@, (#[trigger] out@[k])@),
            forall|jj: int| 0 <= jj < j ==> contains_view(out@, (#[trigger] names@[jj])@),
        decreases names@.len() - j,
    {
        let mut seen = false;
        let mut k: usize = 0;
        while k < out.len()
            invariant
                k <= out@.len(),
                seen == exists|kk: int| 0 <= kk < k && (#[trigger] out@[kk])@ == names@[j as int]@,
                j < names@.len(),
            decreases out@.len() - k,
        {
            if crate::text::str_eq(out[k].as_str(), names[j].as_str()) {
                seen = true;
            }
            k += 1;
        }
        proof {
            let pre = views.subrange(0, j as int);
            let post = views.subrange(0, j + 1);
            let x = names@[j as int]@;
            assert(post.drop_last() =~= pre);
            assert(post.last() == views[j as int]);
            assert(views[j as int] == x);
            lemma_dedup_contains(pre, x);
            let out_views = out@.map_values(|s: String| s@);
            assert(seen <==> out_views.contains(x)) by {
                if seen {
                    let kk = choose|kk: int|
                        0 <= kk < out@.len() && (#[trigger] out@[kk])@ == x;
                    assert(out_views[kk] == x);
                }
                if out_views.contains(x) {
                    let kk = choose|kk: int| 0 <= kk < out_views.len() && out_views[kk] == x;
                    assert(out@[kk]@ == x);
                }
            }
        }
        if !seen {
            let ghost out0 = out@;
            out.push(names[j].clone());
            proof {
                assert forall|v: Seq<char>| contains_view(out0, v) implies contains_view(
                    out@,
                    v,
                ) by {
                    let kk = choose|kk: int| 0 <= kk < out0.len() && (#[trigger] out0[kk])@ == v;
                    assert(out@[kk]@ == v);
                }
                assert(contains_view(out@, names@[j as int]@)) by {
                    assert(out@[out@.len() - 1]@ == names@[j as int]@);
                }
                assert(out@.map_values(|s: String| s@) =~= out0.map_values(|s: String| s@).push(
                    names@[j as int]@,
                ));
            }
        }
        proof {
            assert(out@.map_values(|s: String| s@) =~= spec_dedup_views(
                views.subrange(0, j + 1),
            ));
        }
        j += 1;
    }
    proof {
        assert(views.subrange(0, views.len() as int) =~= views);
    }
    out
}

/// The error reported when a repository's configuration cannot be found:
/// it names the repository and the revision that were asked for.
pub fn repo_not_found_error(repo_id: &str, revision: &str) -> (r: String)
    ensures
        r@ == "repository not found: "@ + repo_id@ + " (revision "@ + revision@ + ")"@,
{
    let mut out = String::from_str("repository not found: ");
    out.append(repo_id);
    out.append(" (revision ");
    out.append(revision);
    out.append(")");
    proof {
        assert(out@ =~= "repository not found: "@ + repo_id@ + " (revision "@ + revision@ + ")"@);
    }
    out
}

} // verus!
