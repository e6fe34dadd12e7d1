//! Mapping between Rust target triples and the bundler's target flags.
use vstd::prelude::*;
use crate::text::{is_prefix_of, is_substring_of, is_suffix_of, str_contains, str_ends_with,
    str_eq, str_starts_with};

verus! {

/// A bundler compile target.
#[derive(Copy, Clone, Eq, PartialEq, Debug, Structural)]
pub enum BunTarget {
    LinuxX64Glibc,
    LinuxArm64Glibc,
    LinuxX64Musl,
    LinuxArm64Musl,
    WindowsX64,
    WindowsArm64,
    MacX64,
    MacArm64,
}

impl BunTarget {
    /// The bundler flag naming this target.
    pub open spec fn spec_bun_flag(self) -> Seq<char> {
        match self {
            BunTarget::LinuxX64Glibc => "bun-linux-x64"@,
            BunTarget::LinuxArm64Glibc => "bun-linux-arm64"@,
            BunTarget::LinuxX64Musl => "bun-linux-x64-musl"@,
            BunTarget::LinuxArm64Musl => "bun-linux-arm64-musl"@,
            BunTarget::WindowsX64 => "bun-windows-x64"@,
            BunTarget::WindowsArm64 => "bun-windows-arm64"@,
            BunTarget::MacX64 => "bun-darwin-x64"@,
            BunTarget::MacArm64 => "bun-darwin-arm64"@,
        }
    }

    /// The bundler flag naming this target.
    pub fn as_bun_flag(self) -> (r: &'static str)
        ensures
            r@ == self.spec_bun_flag(),
    {
        match self {
            BunTarget::LinuxX64Glibc => "bun-linux-x64",
            BunTarget::LinuxArm64Glibc => "bun-linux-arm64",
            BunTarget::LinuxX64Musl => "bun-linux-x64-musl",
            BunTarget::LinuxArm64Musl => "bun-linux-arm64-musl",
            BunTarget::WindowsX64 => "bun-windows-x64",
            BunTarget::WindowsArm64 => "bun-windows-arm64",
            BunTarget::MacX64 => "bun-darwin-x64",
            BunTarget::MacArm64 => "bun-darwin-arm64",
        }
    }

    /// The Rust target triples that map to this target.
    pub fn rust_triples(self) -> (r: Vec<&'static str>)
        ensures
            r@.len() >= 1,
            self == BunTarget::LinuxX64Glibc ==> r@.len() == 2 && r@[0]@
                == "x86_64-unknown-linux-gnu"@ && r@[1]@ == "x86_64-unknown-linux-gnu.2.17"@,
            self == BunTarget::LinuxArm64Glibc ==> r@.len() == 1 && r@[0]@
                == "aarch64-unknown-linux-gnu"@,
            self == BunTarget::LinuxX64Musl ==> r@.len() == 1 && r@[0]@
                == "x86_64-unknown-linux-musl"@,
            self == BunTarget::LinuxArm64Musl ==> r@.len() == 1 && r@[0]@
                == "aarch64-unknown-linux-musl"@,
            self == BunTarget::WindowsX64 ==> r@.len() == 1 && r@[0]@ == "x86_64-pc-windows-msvc"@,
            self == BunTarget::WindowsArm64 ==> r@.len() == 1 && r@[0]@
                == "aarch64-pc-windows-msvc"@,
            self == BunTarget::MacX64 ==> r@.len() == 1 && r@[0]@ == "x86_64-apple-darwin"@,
            self == BunTarget::MacArm64 ==> r@.len() == 1 && r@[0]@ == "aarch64-apple-darwin"@,
    {
        let mut v: Vec<&'static str> = Vec::new();
        match self {
            BunTarget::LinuxX64Glibc => {
                v.push("x86_64-unknown-linux-gnu");
                v.push("x86_64-unknown-linux-gnu.2.17");
            },
            BunTarget::LinuxArm64Glibc => v.push("aarch64-unknown-linux-gnu"),
            BunTarget::LinuxX64Musl => v.push("x86_64-unknown-linux-musl"),
            BunTarget::LinuxArm64Musl => v.push("aarch64-unknown-linux-musl"),
            BunTarget::WindowsX64 => v.push("x86_64-pc-windows-msvc"),
            BunTarget::WindowsArm64 => v.push("aarch64-pc-windows-msvc"),
            BunTarget::MacX64 => v.push("x86_64-apple-darwin"),
            BunTarget::MacArm64 => v.push("aarch64-apple-darwin"),
        }
        v
    }

    /// Which target a trimmed Rust triple names: first by shape (vendor-
    /// independent prefix, `-linux-` infix, libc suffix), then exact matches,
    /// then the alternate glibc spelling.
    pub open spec fn spec_from_triple(norm: Seq<char>) -> Option<BunTarget> {
        if is_prefix_of("x86_64-"@, norm) && is_substring_of("-linux-"@, norm) && is_suffix_of(
            "gnu"@,
            norm,
        ) {
            Some(BunTarget::LinuxX64Glibc)
        } else if is_prefix_of("aarch64-"@, norm) && is_substring_of("-linux-"@, norm)
            && is_suffix_of("gnu"@, norm) {
            Some(BunTarget::LinuxArm64Glibc)
        } else if is_prefix_of("x86_64-"@, norm) && is_substring_of("-linux-"@, norm)
            && is_suffix_of("musl"@, norm) {
            Some(BunTarget::LinuxX64Musl)
        } else if is_prefix_of("aarch64-"@, norm) && is_substring_of("-linux-"@, norm)
            && is_suffix_of("musl"@, norm) {
            Some(BunTarget::LinuxArm64Musl)
        } else if norm == "x86_64-pc-windows-msvc"@ {
            Some(BunTarget::WindowsX64)
        } else if norm == "aarch64-pc-windows-msvc"@ {
            Some(BunTarget::WindowsArm64)
        } else if norm == "x86_64-apple-darwin"@ {
            Some(BunTarget::MacX64)
        } else if norm == "aarch64-apple-darwin"@ {
            Some(BunTarget::MacArm64)
        } else if norm == "x86_64-unknown-linux-gnu.2.17"@ {
            Some(BunTarget::LinuxX64Glibc)
        } else {
            None
        }
    }

    /// Map a Rust target triple (surrounding ASCII whitespace ignored) to a
    /// bundler target; `None` for a triple the bundler does not support.
    pub fn from_rust_target(triple: &str) -> (r: Option<BunTarget>)
        ensures
            r == Self::spec_from_triple(spec_trim(triple@)),
    {
        let norm_string = trim_ascii(triple);
        let norm = norm_string.as_str();
        if str_starts_with(norm, "x86_64-") && str_contains(norm, "-linux-") && str_ends_with(
            norm,
            "gnu",
        ) {
            Some(BunTarget::LinuxX64Glibc)
        } else if str_starts_with(norm, "aarch64-") && str_contains(norm, "-linux-")
            && str_ends_with(norm, "gnu") {
            Some(BunTarget::LinuxArm64Glibc)
        } else if str_starts_with(norm, "x86_64-") && str_contains(norm, "-linux-")
            && str_ends_with(norm, "musl") {
            Some(BunTarget::LinuxX64Musl)
        } else if str_starts_with(norm, "aarch64-") && str_contains(norm, "-linux-")
            && str_ends_with(norm, "musl") {
            Some(BunTarget::LinuxArm64Musl)
        } else if str_eq(norm, "x86_64-pc-windows-msvc") {
            Some(BunTarget::WindowsX64)
        } else if str_eq(norm, "aarch64-pc-windows-msvc") {
            Some(BunTarget::WindowsArm64)
        } else if str_eq(norm, "x86_64-apple-darwin") {
            Some(BunTarget::MacX64)
        } else if str_eq(norm, "aarch64-apple-darwin") {
            Some(BunTarget::MacArm64)
        } else if str_eq(norm, "x86_64-unknown-linux-gnu.2.17") {
            Some(BunTarget::LinuxX64Glibc)
        } else {
            None
        }
    }
}

/// ASCII whitespace, as trimming treats it.
pub open spec fn is_space(c: char) -> bool {
    c == ' ' || c == '\t' || c == '\n' || c == '\r'
}

/// `s` with leading and trailing ASCII whitespace removed.
pub open spec fn spec_trim(s: Seq<char>) -> Seq<char>
    decreases s.len(),
{
    if s.len() == 0 {
        s
    } else if is_space(s[0]) {
        spec_trim(s.subrange(1, s.len() as int))
    } else if is_space(s[s.len() - 1]) {
        spec_trim(s.subrange(0, s.len() - 1))
    } else {
        s
    }
}

/// Remove leading and trailing ASCII whitespace.
pub fn trim_ascii(s: &str) -> (r: String)
    ensures
        r@ == spec_trim(s@),
{
    let len = s.unicode_len();
    let mut lo: usize = 0;
    proof {
        assert(s@.subrange(0, len as int) =~= s@);
    }
    while lo < len && is_space_char(s.get_char(lo))
        invariant
            lo <= len,
            len == s@.len(),
            forall|j: int| 0 <= j < lo ==> is_space(s@[j]),
            spec_trim(s@) == spec_trim(s@.subrange(lo as int, len as int)),
        decreases len - lo,
    {
        proof {
            let cur = s@.subrange(lo as int, len as int);
            assert(cur.subrange(1, cur.len() as int) =~= s@.subrange(lo + 1, len as int));
        }
        lo += 1;
    }
    let mut hi: usize = len;
    while hi > lo && is_space_char(s.get_char(hi - 1))
        invariant
            lo <= hi <= len,
            len == s@.len(),
            lo < len ==> !is_space(s@[lo as int]),
            lo == len ==> hi == lo,
            spec_trim(s@) == spec_trim(s@.subrange(lo as int, hi as int)),
        decreases hi,
    {
        proof {
            let cur = s@.subrange(lo as int, hi as int);
            assert(cur.len() > 0);
            assert(is_space(cur[cur.len() - 1]));
            if is_space(cur[0]) {
                assert(!is_space(s@[lo as int]));
                assert(false);
            }
            assert(cur.subrange(0, cur.len() - 1) =~= s@.subrange(lo as int, hi - 1));
        }
        hi -= 1;
    }
    proof {
        let cur = s@.subrange(lo as int, hi as int);
        if cur.len() > 0 {
            assert(!is_space(cur[0]));
            assert(!is_space(cur[cur.len() - 1]));
        }
        assert(spec_trim(cur) == cur);
    }
    let out = s.substring_char(lo, hi);
    String::from_str(out)
}

fn is_space_char(c: char) -> (r: bool)
    ensures
        r == is_space(c),
{
    c == ' ' || c == '\t' || c == '\n' || c == '\r'
}

/// Error from mapping a Rust target triple.
#[derive(Debug)]
pub enum BunTargetError {
    UnknownTriple(String),
}

impl BunTargetError {
    /// The rendered error message.
    pub fn message(&self) -> (r: String)
        ensures
            self matches BunTargetError::UnknownTriple(t) ==> r@
                == "unrecognized Rust target triple: "@ + t@,
    {
        match self {
            BunTargetError::UnknownTriple(t) => {
                let mut out = String::from_str("unrecognized Rust target triple: ");
                out.append(t.as_str());
                out
            },
        }
    }
}

} // verus!
