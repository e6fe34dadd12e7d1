//! The Gemma runner's model selection: its own model enum, the repository
//! each variant loads from, the mapping from the gateway's descriptors,
//! and the prompt wrapping the instruction-tuned v3 model expects.
use vstd::prelude::*;
use crate::model::{Family, Which};
use crate::text::str_eq;

verus! {

/// The Gemma-family models the runner can load.
#[derive(Clone, Debug, Copy, PartialEq, Eq, Structural)]
pub enum WhichModel {
    Base2B,
    Base7B,
    Instruct2B,
    Instruct7B,
    InstructV1_1_2B,
    InstructV1_1_7B,
    CodeBase2B,
    CodeBase7B,
    CodeInstruct2B,
    CodeInstruct7B,
    BaseV2_2B,
    InstructV2_2B,
    BaseV2_9B,
    InstructV2_9B,
    BaseV3_1B,
    InstructV3_1B,
}

impl WhichModel {
    /// The repository this variant loads from.
    pub open spec fn spec_repo_id(self) -> Seq<char> {
        match self {
            WhichModel::Base2B => "google/gemma-2b"@,
            WhichModel::Base7B => "google/gemma-7b"@,
            WhichModel::Instruct2B => "google/gemma-2b-it"@,
            WhichModel::Instruct7B => "google/gemma-7b-it"@,
            WhichModel::InstructV1_1_2B => "google/gemma-1.1-2b-it"@,
            WhichModel::InstructV1_1_7B => "google/gemma-1.1-7b-it"@,
            WhichModel::CodeBase2B => "google/codegemma-2b"@,
            WhichModel::CodeBase7B => "google/codegemma-7b"@,
            WhichModel::CodeInstruct2B => "google/codegemma-2b-it"@,
            WhichModel::CodeInstruct7B => "google/codegemma-7b-it"@,
            WhichModel::BaseV2_2B => "google/gemma-2-2b"@,
            WhichModel::InstructV2_2B => "google/gemma-2-2b-it"@,
            WhichModel::BaseV2_9B => "google/gemma-2-9b"@,
            WhichModel::InstructV2_9B => "google/gemma-2-9b-it"@,
            WhichModel::BaseV3_1B => "google/gemma-3-1b-pt"@,
            WhichModel::InstructV3_1B => "google/gemma-3-1b-it"@,
        }
    }

    /// The repository this variant loads from.
    pub fn repo_id(self) -> (r: &'static str)
        ensures
            r@ == self.spec_repo_id(),
    {
        match self {
            WhichModel::Base2B => "google/gemma-2b",
            WhichModel::Base7B => "google/gemma-7b",
            WhichModel::Instruct2B => "google/gemma-2b-it",
            WhichModel::Instruct7B => "google/gemma-7b-it",
            WhichModel::InstructV1_1_2B => "google/gemma-1.1-2b-it",
            WhichModel::InstructV1_1_7B => "google/gemma-1.1-7b-it",
            WhichModel::CodeBase2B => "google/codegemma-2b",
            WhichModel::CodeBase7B => "google/codegemma-7b",
            WhichModel::CodeInstruct2B => "google/codegemma-2b-it",
            WhichModel::CodeInstruct7B => "google/codegemma-7b-it",
            WhichModel::BaseV2_2B => "google/gemma-2-2b",
            WhichModel::InstructV2_2B => "google/gemma-2-2b-it",
            WhichModel::BaseV2_9B => "google/gemma-2-9b",
            WhichModel::InstructV2_9B => "google/gemma-2-9b-it",
            WhichModel::BaseV3_1B => "google/gemma-3-1b-pt",
            WhichModel::InstructV3_1B => "google/gemma-3-1b-it",
        }
    }

    /// Whether this variant uses a single weight file rather than an index
    /// of shards.
    pub fn single_weight_file(self) -> (r: bool)
        ensures
            r == (self == WhichModel::BaseV3_1B || self == WhichModel::InstructV3_1B),
    {
        match self {
            WhichModel::BaseV3_1B | WhichModel::InstructV3_1B => true,
            _ => false,
        }
    }
}

impl WhichModel {
    /// The short name this variant is spoken of by.
    pub open spec fn spec_name(self) -> Seq<char> {
        match self {
            WhichModel::Base2B => "gemma-2b"@,
            WhichModel::Base7B => "gemma-7b"@,
            WhichModel::Instruct2B => "gemma-2b-it"@,
            WhichModel::Instruct7B => "gemma-7b-it"@,
            WhichModel::InstructV1_1_2B => "gemma-1.1-2b-it"@,
            WhichModel::InstructV1_1_7B => "gemma-1.1-7b-it"@,
            WhichModel::CodeBase2B => "codegemma-2b"@,
            WhichModel::CodeBase7B => "codegemma-7b"@,
            WhichModel::CodeInstruct2B => "codegemma-2b-it"@,
            WhichModel::CodeInstruct7B => "codegemma-7b-it"@,
            WhichModel::BaseV2_2B => "gemma-2-2b"@,
            WhichModel::InstructV2_2B => "gemma-2-2b-it"@,
            WhichModel::BaseV2_9B => "gemma-2-9b"@,
            WhichModel::InstructV2_9B => "gemma-2-9b-it"@,
            WhichModel::BaseV3_1B => "gemma-3-1b"@,
            WhichModel::InstructV3_1B => "gemma-3-1b-it"@,
        }
    }

    /// The short name this variant is spoken of by.
    pub fn name(self) -> (r: &'static str)
        ensures
            r@ == self.spec_name(),
    {
        match self {
            WhichModel::Base2B => "gemma-2b",
            WhichModel::Base7B => "gemma-7b",
            WhichModel::Instruct2B => "gemma-2b-it",
            WhichModel::Instruct7B => "gemma-7b-it",
            WhichModel::InstructV1_1_2B => "gemma-1.1-2b-it",
            WhichModel::InstructV1_1_7B => "gemma-1.1-7b-it",
            WhichModel::CodeBase2B => "codegemma-2b",
            WhichModel::CodeBase7B => "codegemma-7b",
            WhichModel::CodeInstruct2B => "codegemma-2b-it",
            WhichModel::CodeInstruct7B => "codegemma-7b-it",
            WhichModel::BaseV2_2B => "gemma-2-2b",
            WhichModel::InstructV2_2B => "gemma-2-2b-it",
            WhichModel::BaseV2_9B => "gemma-2-9b",
            WhichModel::InstructV2_9B => "gemma-2-9b-it",
            WhichModel::BaseV3_1B => "gemma-3-1b",
            WhichModel::InstructV3_1B => "gemma-3-1b-it",
        }
    }

    /// The variant a short name designates, exactly when one does.
    pub open spec fn spec_from_name(s: Seq<char>) -> Option<WhichModel> {
        if s == "gemma-2b"@ {
            Some(WhichModel::Base2B)
        } else if s == "gemma-7b"@ {
            Some(WhichModel::Base7B)
        } else if s == "gemma-2b-it"@ {
            Some(WhichModel::Instruct2B)
        } else if s == "gemma-7b-it"@ {
            Some(WhichModel::Instruct7B)
        } else if s == "gemma-1.1-2b-it"@ {
            Some(WhichModel::InstructV1_1_2B)
        } else if s == "gemma-1.1-7b-it"@ {
            Some(WhichModel::InstructV1_1_7B)
        } else if s == "codegemma-2b"@ {
            Some(WhichModel::CodeBase2B)
        } else if s == "codegemma-7b"@ {
            Some(WhichModel::CodeBase7B)
        } else if s == "codegemma-2b-it"@ {
            Some(WhichModel::CodeInstruct2B)
        } else if s == "codegemma-7b-it"@ {
            Some(WhichModel::CodeInstruct7B)
        } else if s == "gemma-2-2b"@ {
            Some(WhichModel::BaseV2_2B)
        } else if s == "gemma-2-2b-it"@ {
            Some(WhichModel::InstructV2_2B)
        } else if s == "gemma-2-9b"@ {
            Some(WhichModel::BaseV2_9B)
        } else if s == "gemma-2-9b-it"@ {
            Some(WhichModel::InstructV2_9B)
        } else if s == "gemma-3-1b"@ {
            Some(WhichModel::BaseV3_1B)
        } else if s == "gemma-3-1b-it"@ {
            Some(WhichModel::InstructV3_1B)
        } else {
            None
        }
    }

    /// Parse a short model name; an unknown name is an error naming it.
    pub fn from_name(s: &str) -> (r: Result<WhichModel, String>)
        ensures
            r is Ok <==> Self::spec_from_name(s@) is Some,
            r matches Ok(m) ==> Self::spec_from_name(s@) == Some(m),
            r matches Err(e) ==> e@ == "Unknown model: "@ + s@,
    {
        if str_eq(s, "gemma-2b") {
            Ok(WhichModel::Base2B)
        } else if str_eq(s, "gemma-7b") {
            Ok(WhichModel::Base7B)
        } else if str_eq(s, "gemma-2b-it") {
            Ok(WhichModel::Instruct2B)
        } else if str_eq(s, "gemma-7b-it") {
            Ok(WhichModel::Instruct7B)
        } else if str_eq(s, "gemma-1.1-2b-it") {
            Ok(WhichModel::InstructV1_1_2B)
        } else if str_eq(s, "gemma-1.1-7b-it") {
            Ok(WhichModel::InstructV1_1_7B)
        } else if str_eq(s, "codegemma-2b") {
            Ok(WhichModel::CodeBase2B)
        } else if str_eq(s, "codegemma-7b") {
            Ok(WhichModel::CodeBase7B)
        } else if str_eq(s, "codegemma-2b-it") {
            Ok(WhichModel::CodeInstruct2B)
        } else if str_eq(s, "codegemma-7b-it") {
            Ok(WhichModel::CodeInstruct7B)
        } else if str_eq(s, "gemma-2-2b") {
            Ok(WhichModel::BaseV2_2B)
        } else if str_eq(s, "gemma-2-2b-it") {
            Ok(WhichModel::InstructV2_2B)
        } else if str_eq(s, "gemma-2-9b") {
            Ok(WhichModel::BaseV2_9B)
        } else if str_eq(s, "gemma-2-9b-it") {
            Ok(WhichModel::InstructV2_9B)
        } else if str_eq(s, "gemma-3-1b") {
            Ok(WhichModel::BaseV3_1B)
        } else if str_eq(s, "gemma-3-1b-it") {
            Ok(WhichModel::InstructV3_1B)
        } else {
            let mut e = String::from_str("Unknown model: ");
            e.append(s);
            Err(e)
        }
    }
}

/// The gateway descriptor's runner variant: every Gemma-family descriptor
/// has one, and it loads from the same repository the descriptor names.
pub fn gemma_model_of(which: Which) -> (r: Option<WhichModel>)
    ensures
        r is Some <==> (which.spec_family() == Family::GemmaV1 || which.spec_family()
            == Family::GemmaV2 || which.spec_family() == Family::GemmaV3),
        r matches Some(g) ==> g.spec_repo_id() == which.spec_repo_id(),
{
    match which {
        Which::Base2B => Some(WhichModel::Base2B),
        Which::Base7B => Some(WhichModel::Base7B),
        Which::Instruct2B => Some(WhichModel::Instruct2B),
        Which::Instruct7B => Some(WhichModel::Instruct7B),
        Which::InstructV1_1_2B => Some(WhichModel::InstructV1_1_2B),
        Which::InstructV1_1_7B => Some(WhichModel::InstructV1_1_7B),
        Which::CodeBase2B => Some(WhichModel::CodeBase2B),
        Which::CodeBase7B => Some(WhichModel::CodeBase7B),
        Which::CodeInstruct2B => Some(WhichModel::CodeInstruct2B),
        Which::CodeInstruct7B => Some(WhichModel::CodeInstruct7B),
        Which::BaseV2_2B => Some(WhichModel::BaseV2_2B),
        Which::InstructV2_2B => Some(WhichModel::InstructV2_2B),
        Which::BaseV2_9B => Some(WhichModel::BaseV2_9B),
        Which::InstructV2_9B => Some(WhichModel::InstructV2_9B),
        Which::BaseV3_1B => Some(WhichModel::BaseV3_1B),
        Which::InstructV3_1B => Some(WhichModel::InstructV3_1B),
        _ => None,
    }
}

/// The prompt actually fed to the runner: the instruction-tuned v3 model
/// expects its user turn wrapped in turn markers; every other variant
/// takes the prompt as given.
pub fn wrap_prompt(model: WhichModel, prompt: &str) -> (r: String)
    ensures
        model == WhichModel::InstructV3_1B ==> r@ == "<start_of_turn>user\n"@ + prompt@
            + "<end_of_turn>\n<start_of_turn>model\n"@,
        model != WhichModel::InstructV3_1B ==> r@ == prompt@,
{
    match model {
        WhichModel::InstructV3_1B => {
            let mut out = String::from_str("<start_of_turn>user\n");
            out.append(prompt);
            out.append("<end_of_turn>\n<start_of_turn>model\n");
            out
        },
        _ => String::from_str(prompt),
    }
}

} // verus!
