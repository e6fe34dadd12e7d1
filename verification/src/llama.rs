//! The Llama runner's model selection: its model enum (Llama 3.2, SmolLM2
//! and TinyLlama), the repository each variant loads from, and the mapping
//! from the gateway's descriptors.
use vstd::prelude::*;
use crate::model::{Family, Which};

verus! {

/// The Llama-family models the runner can load.
#[derive(Clone, Debug, Copy, PartialEq, Eq, Structural)]
pub enum WhichModel {
    Llama32_1B,
    Llama32_1BInstruct,
    Llama32_3B,
    Llama32_3BInstruct,
    SmolLM2_135M,
    SmolLM2_135MInstruct,
    SmolLM2_360M,
    SmolLM2_360MInstruct,
    SmolLM2_1_7B,
    SmolLM2_1_7BInstruct,
    TinyLlama1_1BChat,
}

impl Default for WhichModel {
    /// The smallest base Llama is the default.
    fn default() -> (r: Self)
        ensures
            r == WhichModel::Llama32_1B,
    {
        WhichModel::Llama32_1B
    }
}

impl WhichModel {
    /// The repository this variant loads from.
    pub open spec fn spec_repo_id(self) -> Seq<char> {
        match self {
            WhichModel::Llama32_1B => "meta-llama/Llama-3.2-1B"@,
            WhichModel::Llama32_1BInstruct => "meta-llama/Llama-3.2-1B-Instruct"@,
            WhichModel::Llama32_3B => "meta-llama/Llama-3.2-3B"@,
            WhichModel::Llama32_3BInstruct => "meta-llama/Llama-3.2-3B-Instruct"@,
            WhichModel::SmolLM2_135M => "HuggingFaceTB/SmolLM2-135M"@,
            WhichModel::SmolLM2_135MInstruct => "HuggingFaceTB/SmolLM2-135M-Instruct"@,
            WhichModel::SmolLM2_360M => "HuggingFaceTB/SmolLM2-360M"@,
            WhichModel::SmolLM2_360MInstruct => "HuggingFaceTB/SmolLM2-360M-Instruct"@,
            WhichModel::SmolLM2_1_7B => "HuggingFaceTB/SmolLM2-1.7B"@,
            WhichModel::SmolLM2_1_7BInstruct => "HuggingFaceTB/SmolLM2-1.7B-Instruct"@,
            WhichModel::TinyLlama1_1BChat => "TinyLlama/TinyLlama-1.1B-Chat-v1.0"@,
        }
    }

    /// The repository this variant loads from.
    pub fn repo_id(self) -> (r: &'static str)
        ensures
            r@ == self.spec_repo_id(),
    {
        match self {
            WhichModel::Llama32_1B => "meta-llama/Llama-3.2-1B",
            WhichModel::Llama32_1BInstruct => "meta-llama/Llama-3.2-1B-Instruct",
            WhichModel::Llama32_3B => "meta-llama/Llama-3.2-3B",
            WhichModel::Llama32_3BInstruct => "meta-llama/Llama-3.2-3B-Instruct",
            WhichModel::SmolLM2_135M => "HuggingFaceTB/SmolLM2-135M",
            WhichModel::SmolLM2_135MInstruct => "HuggingFaceTB/SmolLM2-135M-Instruct",
            WhichModel::SmolLM2_360M => "HuggingFaceTB/SmolLM2-360M",
            WhichModel::SmolLM2_360MInstruct => "HuggingFaceTB/SmolLM2-360M-Instruct",
            WhichModel::SmolLM2_1_7B => "HuggingFaceTB/SmolLM2-1.7B",
            WhichModel::SmolLM2_1_7BInstruct => "HuggingFaceTB/SmolLM2-1.7B-Instruct",
            WhichModel::TinyLlama1_1BChat => "TinyLlama/TinyLlama-1.1B-Chat-v1.0",
        }
    }

    /// Whether this variant's weights are split over an index of shards.
    pub fn sharded_weights(self) -> (r: bool)
        ensures
            r == (self == WhichModel::Llama32_3B || self == WhichModel::Llama32_3BInstruct),
    {
        match self {
            WhichModel::Llama32_3B | WhichModel::Llama32_3BInstruct => true,
            _ => false,
        }
    }
}

/// The gateway descriptor's runner variant: every descriptor of the Llama,
/// SmolLM2 and TinyLlama families has one, and it loads from the same
/// repository the descriptor names.
pub fn llama_model_of(which: Which) -> (r: Option<WhichModel>)
    ensures
        r is Some <==> which.spec_uses_llama_runtime(),
        r matches Some(l) ==> l.spec_repo_id() == which.spec_repo_id(),
{
    match which {
        Which::Llama32_1B => Some(WhichModel::Llama32_1B),
        Which::Llama32_1BInstruct => Some(WhichModel::Llama32_1BInstruct),
        Which::Llama32_3B => Some(WhichModel::Llama32_3B),
        Which::Llama32_3BInstruct => Some(WhichModel::Llama32_3BInstruct),
        Which::SmolLM2_135M => Some(WhichModel::SmolLM2_135M),
        Which::SmolLM2_135MInstruct => Some(WhichModel::SmolLM2_135MInstruct),
        Which::SmolLM2_360M => Some(WhichModel::SmolLM2_360M),
        Which::SmolLM2_360MInstruct => Some(WhichModel::SmolLM2_360MInstruct),
        Which::SmolLM2_1_7B => Some(WhichModel::SmolLM2_1_7B),
        Which::SmolLM2_1_7BInstruct => Some(WhichModel::SmolLM2_1_7BInstruct),
        Which::TinyLlama1_1BChat => Some(WhichModel::TinyLlama1_1BChat),
        _ => None,
    }
}

} // verus!
