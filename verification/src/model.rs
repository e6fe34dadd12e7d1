//! Chat-model descriptors: the catalog of supported models, the canonical
//! repository id of each, and the normalization and lookup applied to every
//! externally supplied model id.
use vstd::prelude::*;
use crate::text::{is_prefix_of, normal_char, normalize_chars, str_eq, str_starts_with};

verus! {

/// Model family a descriptor dispatches to.
#[derive(Clone, Copy, Debug, PartialEq, Eq, Structural)]
pub enum Family {
    GemmaV1,
    GemmaV2,
    GemmaV3,
    Llama,
    SmolLM,
    TinyLlama,
}

/// Kind of runtime a chat model dispatches to.
#[derive(Clone, Copy, Debug, PartialEq, Eq, Structural)]
pub enum ModelType {
    Gemma,
    Llama,
}

/// Canonical record for one chat model.
#[derive(Clone, Copy, Debug)]
pub struct ModelMeta {
    pub id: &'static str,
    pub family: Family,
    pub instruct: bool,
}

/// Build a descriptor record.
pub fn m(id: &'static str, family: Family, instruct: bool) -> (r: ModelMeta)
    ensures
        r.id@ == id@,
        r.family == family,
        r.instruct == instruct,
{
    ModelMeta { id, family, instruct }
}

/// The supported chat models.
#[derive(Clone, Debug, Copy, PartialEq, Eq, Structural)]
pub enum Which {
    Base2B,
    Base7B,
    Instruct2B,
    Instruct7B,
    InstructV1_1_2B,
    InstructV1_1_7B,
    CodeBase2B,
    CodeBase7B,
    CodeInstruct2B,
    CodeInstruct7B,
    BaseV2_2B,
    InstructV2_2B,
    BaseV2_9B,
    InstructV2_9B,
    BaseV3_1B,
    InstructV3_1B,
    Llama32_1B,
    Llama32_1BInstruct,
    Llama32_3B,
    Llama32_3BInstruct,
    SmolLM2_135M,
    SmolLM2_135MInstruct,
    SmolLM2_360M,
    SmolLM2_360MInstruct,
    SmolLM2_1_7B,
    SmolLM2_1_7BInstruct,
    TinyLlama1_1BChat,
}

impl Which {
    /// The canonical repository id of this model.
    pub open spec fn spec_repo_id(self) -> Seq<char> {
        match self {
            Which::Base2B => "google/gemma-2b"@,
            Which::Base7B => "google/gemma-7b"@,
            Which::Instruct2B => "google/gemma-2b-it"@,
            Which::Instruct7B => "google/gemma-7b-it"@,
            Which::InstructV1_1_2B => "google/gemma-1.1-2b-it"@,
            Which::InstructV1_1_7B => "google/gemma-1.1-7b-it"@,
            Which::CodeBase2B => "google/codegemma-2b"@,
            Which::CodeBase7B => "google/codegemma-7b"@,
            Which::CodeInstruct2B => "google/codegemma-2b-it"@,
            Which::CodeInstruct7B => "google/codegemma-7b-it"@,
            Which::BaseV2_2B => "google/gemma-2-2b"@,
            Which::InstructV2_2B => "google/gemma-2-2b-it"@,
            Which::BaseV2_9B => "google/gemma-2-9b"@,
            Which::InstructV2_9B => "google/gemma-2-9b-it"@,
            Which::BaseV3_1B => "google/gemma-3-1b-pt"@,
            Which::InstructV3_1B => "google/gemma-3-1b-it"@,
            Which::Llama32_1B => "meta-llama/Llama-3.2-1B"@,
            Which::Llama32_1BInstruct => "meta-llama/Llama-3.2-1B-Instruct"@,
            Which::Llama32_3B => "meta-llama/Llama-3.2-3B"@,
            Which::Llama32_3BInstruct => "meta-llama/Llama-3.2-3B-Instruct"@,
            Which::SmolLM2_135M => "HuggingFaceTB/SmolLM2-135M"@,
            Which::SmolLM2_135MInstruct => "HuggingFaceTB/SmolLM2-135M-Instruct"@,
            Which::SmolLM2_360M => "HuggingFaceTB/SmolLM2-360M"@,
            Which::SmolLM2_360MInstruct => "HuggingFaceTB/SmolLM2-360M-Instruct"@,
            Which::SmolLM2_1_7B => "HuggingFaceTB/SmolLM2-1.7B"@,
            Which::SmolLM2_1_7BInstruct => "HuggingFaceTB/SmolLM2-1.7B-Instruct"@,
            Which::TinyLlama1_1BChat => "TinyLlama/TinyLlama-1.1B-Chat-v1.0"@,
        }
    }

    /// The family of this model.
    pub open spec fn spec_family(self) -> Family {
        match self {
            Which::Base2B
            | Which::Base7B
            | Which::Instruct2B
            | Which::Instruct7B
            | Which::InstructV1_1_2B
            | Which::InstructV1_1_7B
            | Which::CodeBase2B
            | Which::CodeBase7B
            | Which::CodeInstruct2B
            | Which::CodeInstruct7B => Family::GemmaV1,
            Which::BaseV2_2B | Which::InstructV2_2B | Which::BaseV2_9B | Which::InstructV2_9B => Family::GemmaV2,
            Which::BaseV3_1B | Which::InstructV3_1B => Family::GemmaV3,
            Which::Llama32_1B
            | Which::Llama32_1BInstruct
            | Which::Llama32_3B
            | Which::Llama32_3BInstruct => Family::Llama,
            Which::SmolLM2_135M
            | Which::SmolLM2_135MInstruct
            | Which::SmolLM2_360M
            | Which::SmolLM2_360MInstruct
            | Which::SmolLM2_1_7B
            | Which::SmolLM2_1_7BInstruct => Family::SmolLM,
            Which::TinyLlama1_1BChat => Family::TinyLlama,
        }
    }

    /// Whether this model is instruction-tuned.
    pub open spec fn spec_instruct(self) -> bool {
        match self {
            Which::Instruct2B
            | Which::Instruct7B
            | Which::InstructV1_1_2B
            | Which::InstructV1_1_7B
            | Which::CodeInstruct2B
            | Which::CodeInstruct7B
            | Which::InstructV2_2B
            | Which::InstructV2_9B
            | Which::InstructV3_1B
            | Which::Llama32_1BInstruct
            | Which::Llama32_3BInstruct
            | Which::SmolLM2_135MInstruct
            | Which::SmolLM2_360MInstruct
            | Which::SmolLM2_1_7BInstruct
            | Which::TinyLlama1_1BChat => true,
            _ => false,
        }
    }

    /// The full descriptor of this model.
    pub fn meta(&self) -> (r: ModelMeta)
        ensures
            r.id@ == self.spec_repo_id(),
            r.family == self.spec_family(),
            r.instruct == self.spec_instruct(),
    {
        match self {
            Which::Base2B => m("google/gemma-2b", Family::GemmaV1, false),
            Which::Base7B => m("google/gemma-7b", Family::GemmaV1, false),
            Which::Instruct2B => m("google/gemma-2b-it", Family::GemmaV1, true),
            Which::Instruct7B => m("google/gemma-7b-it", Family::GemmaV1, true),
            Which::InstructV1_1_2B => m("google/gemma-1.1-2b-it", Family::GemmaV1, true),
            Which::InstructV1_1_7B => m("google/gemma-1.1-7b-it", Family::GemmaV1, true),
            Which::CodeBase2B => m("google/codegemma-2b", Family::GemmaV1, false),
            Which::CodeBase7B => m("google/codegemma-7b", Family::GemmaV1, false),
            Which::CodeInstruct2B => m("google/codegemma-2b-it", Family::GemmaV1, true),
            Which::CodeInstruct7B => m("google/codegemma-7b-it", Family::GemmaV1, true),
            Which::BaseV2_2B => m("google/gemma-2-2b", Family::GemmaV2, false),
            Which::InstructV2_2B => m("google/gemma-2-2b-it", Family::GemmaV2, true),
            Which::BaseV2_9B => m("google/gemma-2-9b", Family::GemmaV2, false),
            Which::InstructV2_9B => m("google/gemma-2-9b-it", Family::GemmaV2, true),
            Which::BaseV3_1B => m("google/gemma-3-1b-pt", Family::GemmaV3, false),
            Which::InstructV3_1B => m("google/gemma-3-1b-it", Family::GemmaV3, true),
            Which::Llama32_1B => m("meta-llama/Llama-3.2-1B", Family::Llama, false),
            Which::Llama32_1BInstruct => m("meta-llama/Llama-3.2-1B-Instruct", Family::Llama, true),
            Which::Llama32_3B => m("meta-llama/Llama-3.2-3B", Family::Llama, false),
            Which::Llama32_3BInstruct => m("meta-llama/Llama-3.2-3B-Instruct", Family::Llama, true),
            Which::SmolLM2_135M => m("HuggingFaceTB/SmolLM2-135M", Family::SmolLM, false),
            Which::SmolLM2_135MInstruct => m(
                "HuggingFaceTB/SmolLM2-135M-Instruct",
                Family::SmolLM,
                true,
            ),
            Which::SmolLM2_360M => m("HuggingFaceTB/SmolLM2-360M", Family::SmolLM, false),
            Which::SmolLM2_360MInstruct => m(
                "HuggingFaceTB/SmolLM2-360M-Instruct",
                Family::SmolLM,
                true,
            ),
            Which::SmolLM2_1_7B => m("HuggingFaceTB/SmolLM2-1.7B", Family::SmolLM, false),
            Which::SmolLM2_1_7BInstruct => m(
                "HuggingFaceTB/SmolLM2-1.7B-Instruct",
                Family::SmolLM,
                true,
            ),
            Which::TinyLlama1_1BChat => m(
                "TinyLlama/TinyLlama-1.1B-Chat-v1.0",
                Family::TinyLlama,
                true,
            ),
        }
    }

    /// The canonical repository id, as an owned string.
    pub fn to_model_id(&self) -> (r: String)
        ensures
            r@ == self.spec_repo_id(),
    {
        String::from_str(self.meta().id)
    }

    /// Whether this model is instruction-tuned.
    pub fn is_instruct_model(&self) -> (r: bool)
        ensures
            r == self.spec_instruct(),
    {
        self.meta().instruct
    }

    /// Whether this model belongs to the Gemma v3 family.
    pub fn is_v3_model(&self) -> (r: bool)
        ensures
            r == (self.spec_family() == Family::GemmaV3),
    {
        let meta = self.meta();
        match meta.family {
            Family::GemmaV3 => true,
            _ => false,
        }
    }

    /// Whether this model runs on the Llama-style runtime, which serves the
    /// Llama 3.2, SmolLM2 and TinyLlama families.
    pub open spec fn spec_uses_llama_runtime(self) -> bool {
        self.spec_family() == Family::Llama || self.spec_family() == Family::SmolLM
            || self.spec_family() == Family::TinyLlama
    }

    /// Whether this model runs on the Llama-style runtime (Llama 3.2,
    /// SmolLM2, TinyLlama).
    pub fn is_llama_model(&self) -> (r: bool)
        ensures
            r == self.spec_uses_llama_runtime(),
    {
        let meta = self.meta();
        match meta.family {
            Family::Llama | Family::SmolLM | Family::TinyLlama => true,
            _ => false,
        }
    }

    /// The external id under which the catalog lists this model.
    pub open spec fn spec_api_id(self) -> Seq<char> {
        match self {
            Which::Base2B => "gemma-2b"@,
            Which::Base7B => "gemma-7b"@,
            Which::Instruct2B => "gemma-2b-it"@,
            Which::Instruct7B => "gemma-7b-it"@,
            Which::InstructV1_1_2B => "gemma-1.1-2b-it"@,
            Which::InstructV1_1_7B => "gemma-1.1-7b-it"@,
            Which::CodeBase2B => "codegemma-2b"@,
            Which::CodeBase7B => "codegemma-7b"@,
            Which::CodeInstruct2B => "codegemma-2b-it"@,
            Which::CodeInstruct7B => "codegemma-7b-it"@,
            Which::BaseV2_2B => "gemma-2-2b"@,
            Which::InstructV2_2B => "gemma-2-2b-it"@,
            Which::BaseV2_9B => "gemma-2-9b"@,
            Which::InstructV2_9B => "gemma-2-9b-it"@,
            Which::BaseV3_1B => "gemma-3-1b"@,
            Which::InstructV3_1B => "gemma-3-1b-it"@,
            Which::Llama32_1B => "llama-3.2-1b"@,
            Which::Llama32_1BInstruct => "llama-3.2-1b-instruct"@,
            Which::Llama32_3B => "llama-3.2-3b"@,
            Which::Llama32_3BInstruct => "llama-3.2-3b-instruct"@,
            Which::SmolLM2_135M => "smollm2-135m"@,
            Which::SmolLM2_135MInstruct => "smollm2-135m-instruct"@,
            Which::SmolLM2_360M => "smollm2-360m"@,
            Which::SmolLM2_360MInstruct => "smollm2-360m-instruct"@,
            Which::SmolLM2_1_7B => "smollm2-1.7b"@,
            Which::SmolLM2_1_7BInstruct => "smollm2-1.7b-instruct"@,
            Which::TinyLlama1_1BChat => "tinyllama-1.1b-chat"@,
        }
    }

    /// The external id under which the catalog lists this model.
    pub fn api_id(&self) -> (r: &'static str)
        ensures
            r@ == self.spec_api_id(),
    {
        match self {
            Which::Base2B => "gemma-2b",
            Which::Base7B => "gemma-7b",
            Which::Instruct2B => "gemma-2b-it",
            Which::Instruct7B => "gemma-7b-it",
            Which::InstructV1_1_2B => "gemma-1.1-2b-it",
            Which::InstructV1_1_7B => "gemma-1.1-7b-it",
            Which::CodeBase2B => "codegemma-2b",
            Which::CodeBase7B => "codegemma-7b",
            Which::CodeInstruct2B => "codegemma-2b-it",
            Which::CodeInstruct7B => "codegemma-7b-it",
            Which::BaseV2_2B => "gemma-2-2b",
            Which::InstructV2_2B => "gemma-2-2b-it",
            Which::BaseV2_9B => "gemma-2-9b",
            Which::InstructV2_9B => "gemma-2-9b-it",
            Which::BaseV3_1B => "gemma-3-1b",
            Which::InstructV3_1B => "gemma-3-1b-it",
            Which::Llama32_1B => "llama-3.2-1b",
            Which::Llama32_1BInstruct => "llama-3.2-1b-instruct",
            Which::Llama32_3B => "llama-3.2-3b",
            Which::Llama32_3BInstruct => "llama-3.2-3b-instruct",
            Which::SmolLM2_135M => "smollm2-135m",
            Which::SmolLM2_135MInstruct => "smollm2-135m-instruct",
            Which::SmolLM2_360M => "smollm2-360m",
            Which::SmolLM2_360MInstruct => "smollm2-360m-instruct",
            Which::SmolLM2_1_7B => "smollm2-1.7b",
            Which::SmolLM2_1_7BInstruct => "smollm2-1.7b-instruct",
            Which::TinyLlama1_1BChat => "tinyllama-1.1b-chat",
        }
    }

    /// The catalog owner: the repository's owner prefix when it has one.
    pub fn owned_by(&self) -> (r: String)
        ensures
            r@ == spec_owner(self.spec_repo_id()),
    {
        let meta = self.meta();
        owner_prefix(meta.id)
    }
}

/// Index of the first `/` in `s`; the length when there is none.
pub open spec fn spec_before_slash(s: Seq<char>) -> int
    decreases s.len(),
{
    if s.len() == 0 {
        0
    } else if s[0] == '/' {
        0
    } else {
        1 + spec_before_slash(s.subrange(1, s.len() as int))
    }
}

/// The owner a repository id names: the text before its first `/`, or
/// `unknown` when the id carries no owner prefix.
pub open spec fn spec_owner(repo: Seq<char>) -> Seq<char> {
    if spec_before_slash(repo) < repo.len() {
        repo.subrange(0, spec_before_slash(repo))
    } else {
        "unknown"@
    }
}

/// Where the first `/` stands is a valid cut, and nothing before it is `/`.
proof fn lemma_before_slash_bounds(s: Seq<char>)
    ensures
        0 <= spec_before_slash(s) <= s.len(),
        forall|j: int| 0 <= j < spec_before_slash(s) ==> s[j] != '/',
        spec_before_slash(s) < s.len() ==> s[spec_before_slash(s)] == '/',
    decreases s.len(),
{
    if s.len() > 0 && s[0] != '/' {
        let rest = s.subrange(1, s.len() as int);
        lemma_before_slash_bounds(rest);
        let b = spec_before_slash(s);
        assert(b == 1 + spec_before_slash(rest));
        assert forall|j: int| 0 <= j < b implies s[j] != '/' by {
            if j > 0 {
                assert(rest[j - 1] == s[j]);
                assert(rest[j - 1] != '/');
            }
        }
        if b < s.len() {
            assert(rest[b - 1] == s[b]);
        }
    }
}

/// The owner prefix of a repository id, or `unknown` without one.
pub fn owner_prefix(repo: &str) -> (r: String)
    ensures
        r@ == spec_owner(repo@),
{
    let len = repo.unicode_len();
    let mut i: usize = 0;
    proof {
        assert(repo@.subrange(0, len as int) =~= repo@);
    }
    loop
        invariant_except_break
            i <= len,
            len == repo@.len(),
            spec_before_slash(repo@) == i + spec_before_slash(
                repo@.subrange(i as int, len as int),
            ),
        ensures
            i <= len,
            len == repo@.len(),
            spec_before_slash(repo@) == i as int,
            i < len ==> repo@[i as int] == '/',
        decreases len - i,
    {
        if i == len {
            proof {
                assert(repo@.subrange(len as int, len as int) =~= Seq::<char>::empty());
            }
            break;
        }
        let ghost cur = repo@.subrange(i as int, len as int);
        proof {
            assert(cur[0] == repo@[i as int]);
        }
        if repo.get_char(i) == '/' {
            break;
        }
        proof {
            assert(cur.subrange(1, cur.len() as int) =~= repo@.subrange(i + 1, len as int));
        }
        i += 1;
    }
    if i < len {
        let head = repo.substring_char(0, i);
        String::from_str(head)
    } else {
        proof {
            lemma_before_slash_bounds(repo@);
        }
        String::from_str("unknown")
    }
}

/// Every supported chat model, in catalog order.
pub fn all_chat_models() -> (r: Vec<Which>)
    ensures
        r@.len() == 27,
        forall|i: int, j: int| 0 <= i < j < r@.len() ==> r@[i] != r@[j],
        forall|w: Which| #[trigger] r@.contains(w),
{
    let mut v: Vec<Which> = Vec::new();
    v.push(Which::Base2B);
    v.push(Which::Base7B);
    v.push(Which::Instruct2B);
    v.push(Which::Instruct7B);
    v.push(Which::InstructV1_1_2B);
    v.push(Which::InstructV1_1_7B);
    v.push(Which::CodeBase2B);
    v.push(Which::CodeBase7B);
    v.push(Which::CodeInstruct2B);
    v.push(Which::CodeInstruct7B);
    v.push(Which::BaseV2_2B);
    v.push(Which::InstructV2_2B);
    v.push(Which::BaseV2_9B);
    v.push(Which::InstructV2_9B);
    v.push(Which::BaseV3_1B);
    v.push(Which::InstructV3_1B);
    v.push(Which::Llama32_1B);
    v.push(Which::Llama32_1BInstruct);
    v.push(Which::Llama32_3B);
    v.push(Which::Llama32_3BInstruct);
    v.push(Which::SmolLM2_135M);
    v.push(Which::SmolLM2_135MInstruct);
    v.push(Which::SmolLM2_360M);
    v.push(Which::SmolLM2_360MInstruct);
    v.push(Which::SmolLM2_1_7B);
    v.push(Which::SmolLM2_1_7BInstruct);
    v.push(Which::TinyLlama1_1BChat);
    proof {
        assert forall|w: Which| #[trigger] v@.contains(w) by {
            match w {
                Which::Base2B => assert(v@[0] == w),
                Which::Base7B => assert(v@[1] == w),
                Which::Instruct2B => assert(v@[2] == w),
                Which::Instruct7B => assert(v@[3] == w),
                Which::InstructV1_1_2B => assert(v@[4] == w),
                Which::InstructV1_1_7B => assert(v@[5] == w),
                Which::CodeBase2B => assert(v@[6] == w),
                Which::CodeBase7B => assert(v@[7] == w),
                Which::CodeInstruct2B => assert(v@[8] == w),
                Which::CodeInstruct7B => assert(v@[9] == w),
                Which::BaseV2_2B => assert(v@[10] == w),
                Which::InstructV2_2B => assert(v@[11] == w),
                Which::BaseV2_9B => assert(v@[12] == w),
                Which::InstructV2_9B => assert(v@[13] == w),
                Which::BaseV3_1B => assert(v@[14] == w),
                Which::InstructV3_1B => assert(v@[15] == w),
                Which::Llama32_1B => assert(v@[16] == w),
                Which::Llama32_1BInstruct => assert(v@[17] == w),
                Which::Llama32_3B => assert(v@[18] == w),
                Which::Llama32_3BInstruct => assert(v@[19] == w),
                Which::SmolLM2_135M => assert(v@[20] == w),
                Which::SmolLM2_135MInstruct => assert(v@[21] == w),
                Which::SmolLM2_360M => assert(v@[22] == w),
                Which::SmolLM2_360MInstruct => assert(v@[23] == w),
                Which::SmolLM2_1_7B => assert(v@[24] == w),
                Which::SmolLM2_1_7BInstruct => assert(v@[25] == w),
                Which::TinyLlama1_1BChat => assert(v@[26] == w),
            }
        }
    }
    v
}

/// Index just past the last `/` in `s`; zero when there is none.
pub open spec fn spec_after_owner(s: Seq<char>) -> int
    decreases s.len(),
{
    if s.len() == 0 {
        0
    } else if s.last() == '/' {
        s.len() as int
    } else {
        spec_after_owner(s.drop_last())
    }
}

/// The text after the last `/`: the id with any owner prefix stripped.
pub open spec fn spec_strip_owner(s: Seq<char>) -> Seq<char> {
    s.subrange(spec_after_owner(s), s.len() as int)
}

/// Where the owner prefix ends is a valid cut, and no `/` follows it.
pub proof fn lemma_after_owner_bounds(s: Seq<char>)
    ensures
        0 <= spec_after_owner(s) <= s.len(),
        forall|j: int| spec_after_owner(s) <= j < s.len() ==> s[j] != '/',
    decreases s.len(),
{
    if s.len() > 0 && s.last() != '/' {
        lemma_after_owner_bounds(s.drop_last());
        assert forall|j: int| spec_after_owner(s) <= j < s.len() implies s[j] != '/' by {
            if j < s.len() - 1 {
                assert(s.drop_last()[j] == s[j]);
            }
        }
    }
}

/// A text without `/` has no owner prefix to strip.
pub proof fn lemma_after_owner_zero(s: Seq<char>)
    requires
        forall|j: int| 0 <= j < s.len() ==> s[j] != '/',
    ensures
        spec_after_owner(s) == 0,
    decreases s.len(),
{
    if s.len() > 0 {
        assert(s.last() != '/');
        assert(forall|j: int| 0 <= j < s.drop_last().len() ==> s.drop_last()[j] == s[j]);
        lemma_after_owner_zero(s.drop_last());
    }
}

/// Lower-case an id, replace underscores with dashes, and strip any owner
/// prefix (the text up to the last `/`).
pub open spec fn spec_normalized(s: Seq<char>) -> Seq<char> {
    spec_strip_owner(s.map_values(|c: char| normal_char(c)))
}

/// Normalize an externally supplied model id before lookup.
pub fn normalize_model_id(model_id: &str) -> (r: String)
    ensures
        r@ == spec_normalized(model_id@),
{
    let mapped = normalize_chars(model_id);
    let len = mapped.as_str().unicode_len();
    let mut i: usize = len;
    proof {
        assert(mapped@.subrange(0, len as int) =~= mapped@);
    }
    loop
        invariant_except_break
            i <= len,
            len == mapped@.len(),
            spec_after_owner(mapped@) == spec_after_owner(mapped@.subrange(0, i as int)),
        ensures
            i <= len,
            len == mapped@.len(),
            spec_after_owner(mapped@) == i as int,
        decreases i,
    {
        if i == 0 {
            proof {
                assert(mapped@.subrange(0, 0) =~= Seq::<char>::empty());
            }
            break;
        }
        if mapped.as_str().get_char(i - 1) == '/' {
            proof {
                let cur = mapped@.subrange(0, i as int);
                assert(cur.last() == mapped@[i - 1]);
            }
            break;
        }
        proof {
            let cur = mapped@.subrange(0, i as int);
            assert(cur.last() == mapped@[i - 1]);
            assert(cur.drop_last() =~= mapped@.subrange(0, i - 1));
        }
        i -= 1;
    }
    let stripped = mapped.as_str().substring_char(i, len);
    proof {
        lemma_after_owner_bounds(mapped@);
    }
    String::from_str(stripped)
}

/// Normalization is idempotent: a normalized id normalizes to itself.
pub proof fn lemma_normalize_idempotent(s: Seq<char>)
    ensures
        spec_normalized(spec_normalized(s)) == spec_normalized(s),
{
    let m = s.map_values(|c: char| normal_char(c));
    let n = spec_strip_owner(m);
    lemma_after_owner_bounds(m);
    assert forall|c: char| #[trigger] normal_char(normal_char(c)) == normal_char(c) by {
        if c == '_' {
        } else if 65 <= c as u32 && c as u32 <= 90 {
            assert(normal_char(c) as u32 == c as u32 + 32);
        }
    }
    let m2 = n.map_values(|c: char| normal_char(c));
    assert(m2 =~= n) by {
        assert forall|j: int| 0 <= j < n.len() implies m2[j] == n[j] by {
            assert(n[j] == m[spec_after_owner(m) + j]);
            assert(m[spec_after_owner(m) + j] == normal_char(s[spec_after_owner(m) + j]));
        }
    }
    assert(forall|j: int| 0 <= j < n.len() ==> n[j] == m[spec_after_owner(m) + j]);
    assert(forall|j: int| 0 <= j < n.len() ==> n[j] != '/');
    lemma_after_owner_zero(n);
    assert(spec_strip_owner(n) =~= n);
}

/// The descriptor a normalized id names, if any.
pub open spec fn spec_lookup(s: Seq<char>) -> Option<Which> {
    if s == "gemma-2b"@ {
        Some(Which::Base2B)
    } else if s == "gemma-7b"@ {
        Some(Which::Base7B)
    } else if s == "gemma-2b-it"@ {
        Some(Which::Instruct2B)
    } else if s == "gemma-7b-it"@ {
        Some(Which::Instruct7B)
    } else if s == "gemma-1.1-2b-it"@ {
        Some(Which::InstructV1_1_2B)
    } else if s == "gemma-1.1-7b-it"@ {
        Some(Which::InstructV1_1_7B)
    } else if s == "codegemma-2b"@ {
        Some(Which::CodeBase2B)
    } else if s == "codegemma-7b"@ {
        Some(Which::CodeBase7B)
    } else if s == "codegemma-2b-it"@ {
        Some(Which::CodeInstruct2B)
    } else if s == "codegemma-7b-it"@ {
        Some(Which::CodeInstruct7B)
    } else if s == "gemma-2-2b"@ {
        Some(Which::BaseV2_2B)
    } else if s == "gemma-2-2b-it"@ {
        Some(Which::InstructV2_2B)
    } else if s == "gemma-2-9b"@ {
        Some(Which::BaseV2_9B)
    } else if s == "gemma-2-9b-it"@ {
        Some(Which::InstructV2_9B)
    } else if s == "gemma-3-1b"@ {
        Some(Which::BaseV3_1B)
    } else if s == "gemma-3-1b-it"@ {
        Some(Which::InstructV3_1B)
    } else if s == "llama-3.2-1b"@ {
        Some(Which::Llama32_1B)
    } else if s == "llama-3.2-1b-instruct"@ {
        Some(Which::Llama32_1BInstruct)
    } else if s == "llama-3.2-3b"@ {
        Some(Which::Llama32_3B)
    } else if s == "llama-3.2-3b-instruct"@ {
        Some(Which::Llama32_3BInstruct)
    } else if s == "smollm2-135m"@ {
        Some(Which::SmolLM2_135M)
    } else if s == "smollm2-135m-instruct"@ {
        Some(Which::SmolLM2_135MInstruct)
    } else if s == "smollm2-360m"@ {
        Some(Which::SmolLM2_360M)
    } else if s == "smollm2-360m-instruct"@ {
        Some(Which::SmolLM2_360MInstruct)
    } else if s == "smollm2-1.7b"@ {
        Some(Which::SmolLM2_1_7B)
    } else if s == "smollm2-1.7b-instruct"@ {
        Some(Which::SmolLM2_1_7BInstruct)
    } else if s == "tinyllama-1.1b-chat"@ {
        Some(Which::TinyLlama1_1BChat)
    } else {
        None
    }
}

/// Map an external model id to its descriptor: normalize, then look the
/// result up in the table. `None` exactly when the normalized id is unknown.
pub fn model_id_to_which(model_id: &str) -> (r: Option<Which>)
    ensures
        r == spec_lookup(spec_normalized(model_id@)),
{
    let normalized = normalize_model_id(model_id);
    let n = normalized.as_str();
    if str_eq(n, "gemma-2b") {
        Some(Which::Base2B)
    } else if str_eq(n, "gemma-7b") {
        Some(Which::Base7B)
    } else if str_eq(n, "gemma-2b-it") {
        Some(Which::Instruct2B)
    } else if str_eq(n, "gemma-7b-it") {
        Some(Which::Instruct7B)
    } else if str_eq(n, "gemma-1.1-2b-it") {
        Some(Which::InstructV1_1_2B)
    } else if str_eq(n, "gemma-1.1-7b-it") {
        Some(Which::InstructV1_1_7B)
    } else if str_eq(n, "codegemma-2b") {
        Some(Which::CodeBase2B)
    } else if str_eq(n, "codegemma-7b") {
        Some(Which::CodeBase7B)
    } else if str_eq(n, "codegemma-2b-it") {
        Some(Which::CodeInstruct2B)
    } else if str_eq(n, "codegemma-7b-it") {
        Some(Which::CodeInstruct7B)
    } else if str_eq(n, "gemma-2-2b") {
        Some(Which::BaseV2_2B)
    } else if str_eq(n, "gemma-2-2b-it") {
        Some(Which::InstructV2_2B)
    } else if str_eq(n, "gemma-2-9b") {
        Some(Which::BaseV2_9B)
    } else if str_eq(n, "gemma-2-9b-it") {
        Some(Which::InstructV2_9B)
    } else if str_eq(n, "gemma-3-1b") {
        Some(Which::BaseV3_1B)
    } else if str_eq(n, "gemma-3-1b-it") {
        Some(Which::InstructV3_1B)
    } else if str_eq(n, "llama-3.2-1b") {
        Some(Which::Llama32_1B)
    } else if str_eq(n, "llama-3.2-1b-instruct") {
        Some(Which::Llama32_1BInstruct)
    } else if str_eq(n, "llama-3.2-3b") {
        Some(Which::Llama32_3B)
    } else if str_eq(n, "llama-3.2-3b-instruct") {
        Some(Which::Llama32_3BInstruct)
    } else if str_eq(n, "smollm2-135m") {
        Some(Which::SmolLM2_135M)
    } else if str_eq(n, "smollm2-135m-instruct") {
        Some(Which::SmolLM2_135MInstruct)
    } else if str_eq(n, "smollm2-360m") {
        Some(Which::SmolLM2_360M)
    } else if str_eq(n, "smollm2-360m-instruct") {
        Some(Which::SmolLM2_360MInstruct)
    } else if str_eq(n, "smollm2-1.7b") {
        Some(Which::SmolLM2_1_7B)
    } else if str_eq(n, "smollm2-1.7b-instruct") {
        Some(Which::SmolLM2_1_7BInstruct)
    } else if str_eq(n, "tinyllama-1.1b-chat") {
        Some(Which::TinyLlama1_1BChat)
    } else {
        None
    }
}

} // verus!
