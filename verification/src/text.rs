//! Small verified building blocks for text handling: equality, prefix and
//! suffix tests, substring search, ASCII case folding, and decimal rendering.
use vstd::prelude::*;

verus! {

/// `p` occurs at the start of `s`.
pub open spec fn is_prefix_of(p: Seq<char>, s: Seq<char>) -> bool {
    p.len() <= s.len() && s.subrange(0, p.len() as int) == p
}

/// `p` occurs at the end of `s`.
pub open spec fn is_suffix_of(p: Seq<char>, s: Seq<char>) -> bool {
    p.len() <= s.len() && s.subrange(s.len() - p.len(), s.len() as int) == p
}

/// `p` occurs somewhere in `s`.
pub open spec fn is_substring_of(p: Seq<char>, s: Seq<char>) -> bool {
    exists|i: int| 0 <= i <= s.len() - p.len() && #[trigger] s.subrange(i, i + p.len()) == p
}

/// Character-by-character string equality, proved against the views.
pub fn str_eq(a: &str, b: &str) -> (r: bool)
    ensures
        r == (a@ == b@),
{
    let alen = a.unicode_len();
    let blen = b.unicode_len();
    if alen != blen {
        assert(a@ != b@) by {
            assert(a@.len() != b@.len());
        }
        return false;
    }
    let mut i: usize = 0;
    while i < alen
        invariant
            i <= alen,
            alen == a@.len(),
            alen == b@.len(),
            forall|j: int| 0 <= j < i ==> a@[j] == b@[j],
        decreases alen - i,
    {
        if a.get_char(i) != b.get_char(i) {
            return false;
        }
        i += 1;
    }
    assert(a@ =~= b@);
    true
}

/// Whether `s` starts with `p`.
pub fn str_starts_with(s: &str, p: &str) -> (r: bool)
    ensures
        r == is_prefix_of(p@, s@),
{
    let slen = s.unicode_len();
    let plen = p.unicode_len();
    if plen > slen {
        return false;
    }
    let head = s.substring_char(0, plen);
    str_eq(head, p)
}

/// Whether `s` ends with `p`.
pub fn str_ends_with(s: &str, p: &str) -> (r: bool)
    ensures
        r == is_suffix_of(p@, s@),
{
    let slen = s.unicode_len();
    let plen = p.unicode_len();
    if plen > slen {
        return false;
    }
    let tail = s.substring_char(slen - plen, slen);
    str_eq(tail, p)
}

/// Whether `p` occurs anywhere in `s`.
pub fn str_contains(s: &str, p: &str) -> (r: bool)
    ensures
        r == is_substring_of(p@, s@),
{
    let slen = s.unicode_len();
    let plen = p.unicode_len();
    if plen > slen {
        assert(!is_substring_of(p@, s@));
        return false;
    }
    let count = slen - plen;
    let mut i: usize = 0;
    loop
        invariant
            plen <= slen,
            slen == s@.len(),
            plen == p@.len(),
            count == slen - plen,
            i <= count,
            forall|j: int| 0 <= j < i ==> #[trigger] s@.subrange(j, j + p@.len()) != p@,
        decreases count - i,
    {
        let window = s.substring_char(i, i + plen);
        if str_eq(window, p) {
            assert(s@.subrange(i as int, i + p@.len()) == p@);
            return true;
        }
        assert(s@.subrange(i as int, i + p@.len()) != p@);
        if i == count {
            assert(forall|j: int|
                0 <= j <= s@.len() - p@.len() ==> #[trigger] s@.subrange(j, j + p@.len()) != p@);
            return false;
        }
        i += 1;
    }
}

/// ASCII lower-casing of one character; every other character is unchanged.
pub open spec fn lower_char(c: char) -> char {
    if 65 <= c as u32 && c as u32 <= 90 {
        ((c as u32 + 32) as u8) as char
    } else {
        c
    }
}

/// One character of model-id normalization: lower-case ASCII letters and
/// turn underscores into dashes.
pub open spec fn normal_char(c: char) -> char {
    if c == '_' {
        '-'
    } else {
        lower_char(c)
    }
}

/// Append one character to a string.
/// Relies on `String::push`: appends the given character to the end.
#[verifier::external_body]
pub fn push_char(s: &mut String, c: char)
    ensures
        final(s)@ == old(s)@.push(c),
{
    s.push(c);
}

/// ASCII-lower-case a string, mapping `_` to `-` as model-id lookup expects.
pub fn normalize_chars(s: &str) -> (r: String)
    ensures
        r@ == s@.map_values(|c: char| normal_char(c)),
{
    let len = s.unicode_len();
    let mut out = String::new();
    let mut i: usize = 0;
    while i < len
        invariant
            i <= len,
            len == s@.len(),
            out@ == s@.subrange(0, i as int).map_values(|c: char| normal_char(c)),
        decreases len - i,
    {
        let c = s.get_char(i);
        let n: char = if c == '_' {
            '-'
        } else {
            let u = c as u32;
            if 65 <= u && u <= 90 {
                ((u + 32) as u8) as char
            } else {
                c
            }
        };
        assert(n == normal_char(s@[i as int]));
        push_char(&mut out, n);
        assert(s@.subrange(0, i + 1).map_values(|c: char| normal_char(c)) =~= s@.subrange(
            0,
            i as int,
        ).map_values(|c: char| normal_char(c)).push(normal_char(s@[i as int])));
        i += 1;
    }
    assert(s@.subrange(0, len as int) =~= s@);
    out
}

/// The decimal digit character for `d`.
pub open spec fn digit_char(d: int) -> char
    recommends
        0 <= d < 10,
{
    ((48 + d) as u8) as char
}

/// The usual decimal rendering of `n`, with no leading zeros.
pub open spec fn dec_digits(n: int) -> Seq<char>
    recommends
        n >= 0,
    decreases n,
{
    if n < 10 {
        seq![digit_char(n)]
    } else {
        dec_digits(n / 10).push(digit_char(n % 10))
    }
}

/// `rev` read back-to-front.
pub open spec fn rev_to_seq(rev: Seq<char>) -> Seq<char> {
    Seq::new(rev.len(), |i: int| rev[rev.len() - 1 - i])
}

/// Render a `u64` in decimal.
pub fn u64_to_string(n: u64) -> (r: String)
    ensures
        r@ == dec_digits(n as int),
{
    let mut rev: Vec<char> = Vec::new();
    let mut m: u64 = n;
    loop
        invariant_except_break
            m <= n,
            rev@.len() > 0 ==> m > 0,
            if rev@.len() == 0 {
                m == n
            } else {
                dec_digits(n as int) == dec_digits(m as int) + rev_to_seq(rev@)
            },
        ensures
            rev@.len() > 0,
            dec_digits(n as int) == rev_to_seq(rev@),
        decreases m + (if rev@.len() == 0 { 1int } else { 0int }),
    {
        let ghost old_m = m as int;
        let ghost old_rev = rev@;
        let d: u64 = m % 10;
        rev.push(((48 + d) as u8) as char);
        m = m / 10;
        proof {
            assert(rev@ == old_rev.push(digit_char(old_m % 10)));
            assert(rev_to_seq(rev@) =~= seq![digit_char(old_m % 10)] + rev_to_seq(old_rev));
            if old_rev.len() == 0 {
                if m > 0 {
                    assert(dec_digits(n as int) == dec_digits(m as int).push(
                        digit_char(old_m % 10),
                    ));
                    assert(dec_digits(m as int).push(digit_char(old_m % 10)) =~= dec_digits(
                        m as int,
                    ) + rev_to_seq(rev@));
                } else {
                    assert(old_m < 10);
                    assert(dec_digits(n as int) =~= rev_to_seq(rev@));
                }
            } else {
                assert(old_m > 0);
                assert(dec_digits(n as int) == dec_digits(old_m as int) + rev_to_seq(old_rev));
                if old_m >= 10 {
                    assert(dec_digits(old_m as int) == dec_digits(old_m / 10).push(
                        digit_char(old_m % 10),
                    ));
                    assert(dec_digits(old_m / 10).push(digit_char(old_m % 10)) + rev_to_seq(old_rev)
                        =~= dec_digits(old_m / 10) + rev_to_seq(rev@));
                    assert(dec_digits(n as int) == dec_digits(m as int) + rev_to_seq(rev@));
                } else {
                    assert(m == 0);
                    assert(dec_digits(old_m as int) == seq![digit_char(old_m % 10)]);
                    assert(dec_digits(old_m as int) + rev_to_seq(old_rev) =~= rev_to_seq(rev@));
                    assert(dec_digits(n as int) == rev_to_seq(rev@));
                }
            }
        }
        if m == 0 {
            break;
        }
    }
    let rlen = rev.len();
    let mut out = String::new();
    let mut i: usize = 0;
    while i < rlen
        invariant
            i <= rlen,
            rlen == rev@.len(),
            dec_digits(n as int) == rev_to_seq(rev@),
            out@ == rev_to_seq(rev@).subrange(0, i as int),
        decreases rlen - i,
    {
        push_char(&mut out, rev[rlen - 1 - i]);
        assert(out@ =~= rev_to_seq(rev@).subrange(0, i + 1));
        i += 1;
    }
    assert(out@ =~= rev_to_seq(rev@));
    out
}

} // verus!
