//! The embedding engine's decision core: the descriptor table mapping
//! external embedding-model ids to descriptors and dimensionalities, the
//! catalog the models endpoint serves, the all-zero test applied to raw
//! result bits, and the exact OpenAI-format response envelope.
use vstd::prelude::*;
use crate::json::{append_json_string, spec_json_string};
use crate::text::str_eq;

verus! {

/// The supported text-embedding models.
#[derive(Debug, Clone, Copy, PartialEq, Eq, Hash, Structural)]
pub enum EmbeddingModel {
    AllMiniLML6V2,
    AllMiniLML6V2Q,
    AllMiniLML12V2,
    AllMiniLML12V2Q,
    BGEBaseENV15,
    BGEBaseENV15Q,
    BGELargeENV15,
    BGELargeENV15Q,
    BGESmallENV15,
    BGESmallENV15Q,
    BGESmallZHV15,
    BGELargeZHV15,
    NomicEmbedTextV1,
    NomicEmbedTextV15,
    NomicEmbedTextV15Q,
    ParaphraseMLMiniLML12V2,
    ParaphraseMLMiniLML12V2Q,
    ParaphraseMLMpnetBaseV2,
    ModernBertEmbedLarge,
    MultilingualE5Small,
    MultilingualE5Base,
    MultilingualE5Large,
    MxbaiEmbedLargeV1,
    MxbaiEmbedLargeV1Q,
    GTEBaseENV15,
    GTEBaseENV15Q,
    GTELargeENV15,
    GTELargeENV15Q,
    ClipVitB32,
    JinaEmbeddingsV2BaseCode,
}

/// The descriptor an embedding-model id names, if any; ids are matched
/// exactly, under both their repository and short spellings.
pub open spec fn spec_parse_embedding(s: Seq<char>) -> Option<EmbeddingModel> {
    if s == "sentence-transformers/all-MiniLM-L6-v2"@ {
        Some(EmbeddingModel::AllMiniLML6V2)
    } else if s == "all-minilm-l6-v2"@ {
        Some(EmbeddingModel::AllMiniLML6V2)
    } else if s == "sentence-transformers/all-MiniLM-L6-v2-q"@ {
        Some(EmbeddingModel::AllMiniLML6V2Q)
    } else if s == "all-minilm-l6-v2-q"@ {
        Some(EmbeddingModel::AllMiniLML6V2Q)
    } else if s == "sentence-transformers/all-MiniLM-L12-v2"@ {
        Some(EmbeddingModel::AllMiniLML12V2)
    } else if s == "all-minilm-l12-v2"@ {
        Some(EmbeddingModel::AllMiniLML12V2)
    } else if s == "sentence-transformers/all-MiniLM-L12-v2-q"@ {
        Some(EmbeddingModel::AllMiniLML12V2Q)
    } else if s == "all-minilm-l12-v2-q"@ {
        Some(EmbeddingModel::AllMiniLML12V2Q)
    } else if s == "BAAI/bge-base-en-v1.5"@ {
        Some(EmbeddingModel::BGEBaseENV15)
    } else if s == "bge-base-en-v1.5"@ {
        Some(EmbeddingModel::BGEBaseENV15)
    } else if s == "BAAI/bge-base-en-v1.5-q"@ {
        Some(EmbeddingModel::BGEBaseENV15Q)
    } else if s == "bge-base-en-v1.5-q"@ {
        Some(EmbeddingModel::BGEBaseENV15Q)
    } else if s == "BAAI/bge-large-en-v1.5"@ {
        Some(EmbeddingModel::BGELargeENV15)
    } else if s == "bge-large-en-v1.5"@ {
        Some(EmbeddingModel::BGELargeENV15)
    } else if s == "BAAI/bge-large-en-v1.5-q"@ {
        Some(EmbeddingModel::BGELargeENV15Q)
    } else if s == "bge-large-en-v1.5-q"@ {
        Some(EmbeddingModel::BGELargeENV15Q)
    } else if s == "BAAI/bge-small-en-v1.5"@ {
        Some(EmbeddingModel::BGESmallENV15)
    } else if s == "bge-small-en-v1.5"@ {
        Some(EmbeddingModel::BGESmallENV15)
    } else if s == "BAAI/bge-small-en-v1.5-q"@ {
        Some(EmbeddingModel::BGESmallENV15Q)
    } else if s == "bge-small-en-v1.5-q"@ {
        Some(EmbeddingModel::BGESmallENV15Q)
    } else if s == "BAAI/bge-small-zh-v1.5"@ {
        Some(EmbeddingModel::BGESmallZHV15)
    } else if s == "bge-small-zh-v1.5"@ {
        Some(EmbeddingModel::BGESmallZHV15)
    } else if s == "BAAI/bge-large-zh-v1.5"@ {
        Some(EmbeddingModel::BGELargeZHV15)
    } else if s == "bge-large-zh-v1.5"@ {
        Some(EmbeddingModel::BGELargeZHV15)
    } else if s == "nomic-ai/nomic-embed-text-v1"@ {
        Some(EmbeddingModel::NomicEmbedTextV1)
    } else if s == "nomic-embed-text-v1"@ {
        Some(EmbeddingModel::NomicEmbedTextV1)
    } else if s == "nomic-ai/nomic-embed-text-v1.5"@ {
        Some(EmbeddingModel::NomicEmbedTextV15)
    } else if s == "nomic-embed-text-v1.5"@ {
        Some(EmbeddingModel::NomicEmbedTextV15)
    } else if s == "nomic-text-embed"@ {
        Some(EmbeddingModel::NomicEmbedTextV15)
    } else if s == "nomic-ai/nomic-embed-text-v1.5-q"@ {
        Some(EmbeddingModel::NomicEmbedTextV15Q)
    } else if s == "nomic-embed-text-v1.5-q"@ {
        Some(EmbeddingModel::NomicEmbedTextV15Q)
    } else if s == "sentence-transformers/paraphrase-multilingual-MiniLM-L12-v2"@ {
        Some(EmbeddingModel::ParaphraseMLMiniLML12V2)
    } else if s == "paraphrase-multilingual-minilm-l12-v2"@ {
        Some(EmbeddingModel::ParaphraseMLMiniLML12V2)
    } else if s == "sentence-transformers/paraphrase-multilingual-MiniLM-L12-v2-q"@ {
        Some(EmbeddingModel::ParaphraseMLMiniLML12V2Q)
    } else if s == "paraphrase-multilingual-minilm-l12-v2-q"@ {
        Some(EmbeddingModel::ParaphraseMLMiniLML12V2Q)
    } else if s == "sentence-transformers/paraphrase-multilingual-mpnet-base-v2"@ {
        Some(EmbeddingModel::ParaphraseMLMpnetBaseV2)
    } else if s == "paraphrase-multilingual-mpnet-base-v2"@ {
        Some(EmbeddingModel::ParaphraseMLMpnetBaseV2)
    } else if s == "lightonai/modernbert-embed-large"@ {
        Some(EmbeddingModel::ModernBertEmbedLarge)
    } else if s == "modernbert-embed-large"@ {
        Some(EmbeddingModel::ModernBertEmbedLarge)
    } else if s == "intfloat/multilingual-e5-small"@ {
        Some(EmbeddingModel::MultilingualE5Small)
    } else if s == "multilingual-e5-small"@ {
        Some(EmbeddingModel::MultilingualE5Small)
    } else if s == "intfloat/multilingual-e5-base"@ {
        Some(EmbeddingModel::MultilingualE5Base)
    } else if s == "multilingual-e5-base"@ {
        Some(EmbeddingModel::MultilingualE5Base)
    } else if s == "intfloat/multilingual-e5-large"@ {
        Some(EmbeddingModel::MultilingualE5Large)
    } else if s == "multilingual-e5-large"@ {
        Some(EmbeddingModel::MultilingualE5Large)
    } else if s == "mixedbread-ai/mxbai-embed-large-v1"@ {
        Some(EmbeddingModel::MxbaiEmbedLargeV1)
    } else if s == "mxbai-embed-large-v1"@ {
        Some(EmbeddingModel::MxbaiEmbedLargeV1)
    } else if s == "mixedbread-ai/mxbai-embed-large-v1-q"@ {
        Some(EmbeddingModel::MxbaiEmbedLargeV1Q)
    } else if s == "mxbai-embed-large-v1-q"@ {
        Some(EmbeddingModel::MxbaiEmbedLargeV1Q)
    } else if s == "Alibaba-NLP/gte-base-en-v1.5"@ {
        Some(EmbeddingModel::GTEBaseENV15)
    } else if s == "gte-base-en-v1.5"@ {
        Some(EmbeddingModel::GTEBaseENV15)
    } else if s == "Alibaba-NLP/gte-base-en-v1.5-q"@ {
        Some(EmbeddingModel::GTEBaseENV15Q)
    } else if s == "gte-base-en-v1.5-q"@ {
        Some(EmbeddingModel::GTEBaseENV15Q)
    } else if s == "Alibaba-NLP/gte-large-en-v1.5"@ {
        Some(EmbeddingModel::GTELargeENV15)
    } else if s == "gte-large-en-v1.5"@ {
        Some(EmbeddingModel::GTELargeENV15)
    } else if s == "Alibaba-NLP/gte-large-en-v1.5-q"@ {
        Some(EmbeddingModel::GTELargeENV15Q)
    } else if s == "gte-large-en-v1.5-q"@ {
        Some(EmbeddingModel::GTELargeENV15Q)
    } else if s == "Qdrant/clip-ViT-B-32-text"@ {
        Some(EmbeddingModel::ClipVitB32)
    } else if s == "clip-vit-b-32"@ {
        Some(EmbeddingModel::ClipVitB32)
    } else if s == "jinaai/jina-embeddings-v2-base-code"@ {
        Some(EmbeddingModel::JinaEmbeddingsV2BaseCode)
    } else if s == "jina-embeddings-v2-base-code"@ {
        Some(EmbeddingModel::JinaEmbeddingsV2BaseCode)
    } else {
        None
    }
}

/// Map an embedding-model id to its descriptor; an unknown id is an error
/// naming the id.
pub fn parse_embedding_model(model_name: &str) -> (r: Result<EmbeddingModel, String>)
    ensures
        r is Ok <==> spec_parse_embedding(model_name@) is Some,
        r matches Ok(m) ==> spec_parse_embedding(model_name@) == Some(m),
        r matches Err(e) ==> e@ == "Unsupported embedding model: "@ + model_name@,
{
    if str_eq(model_name, "sentence-transformers/all-MiniLM-L6-v2") {
        Ok(EmbeddingModel::AllMiniLML6V2)
    } else if str_eq(model_name, "all-minilm-l6-v2") {
        Ok(EmbeddingModel::AllMiniLML6V2)
    } else if str_eq(model_name, "sentence-transformers/all-MiniLM-L6-v2-q") {
        Ok(EmbeddingModel::AllMiniLML6V2Q)
    } else if str_eq(model_name, "all-minilm-l6-v2-q") {
        Ok(EmbeddingModel::AllMiniLML6V2Q)
    } else if str_eq(model_name, "sentence-transformers/all-MiniLM-L12-v2") {
        Ok(EmbeddingModel::AllMiniLML12V2)
    } else if str_eq(model_name, "all-minilm-l12-v2") {
        Ok(EmbeddingModel::AllMiniLML12V2)
    } else if str_eq(model_name, "sentence-transformers/all-MiniLM-L12-v2-q") {
        Ok(EmbeddingModel::AllMiniLML12V2Q)
    } else if str_eq(model_name, "all-minilm-l12-v2-q") {
        Ok(EmbeddingModel::AllMiniLML12V2Q)
    } else if str_eq(model_name, "BAAI/bge-base-en-v1.5") {
        Ok(EmbeddingModel::BGEBaseENV15)
    } else if str_eq(model_name, "bge-base-en-v1.5") {
        Ok(EmbeddingModel::BGEBaseENV15)
    } else if str_eq(model_name, "BAAI/bge-base-en-v1.5-q") {
        Ok(EmbeddingModel::BGEBaseENV15Q)
    } else if str_eq(model_name, "bge-base-en-v1.5-q") {
        Ok(EmbeddingModel::BGEBaseENV15Q)
    } else if str_eq(model_name, "BAAI/bge-large-en-v1.5") {
        Ok(EmbeddingModel::BGELargeENV15)
    } else if str_eq(model_name, "bge-large-en-v1.5") {
        Ok(EmbeddingModel::BGELargeENV15)
    } else if str_eq(model_name, "BAAI/bge-large-en-v1.5-q") {
        Ok(EmbeddingModel::BGELargeENV15Q)
    } else if str_eq(model_name, "bge-large-en-v1.5-q") {
        Ok(EmbeddingModel::BGELargeENV15Q)
    } else if str_eq(model_name, "BAAI/bge-small-en-v1.5") {
        Ok(EmbeddingModel::BGESmallENV15)
    } else if str_eq(model_name, "bge-small-en-v1.5") {
        Ok(EmbeddingModel::BGESmallENV15)
    } else if str_eq(model_name, "BAAI/bge-small-en-v1.5-q") {
        Ok(EmbeddingModel::BGESmallENV15Q)
    } else if str_eq(model_name, "bge-small-en-v1.5-q") {
        Ok(EmbeddingModel::BGESmallENV15Q)
    } else if str_eq(model_name, "BAAI/bge-small-zh-v1.5") {
        Ok(EmbeddingModel::BGESmallZHV15)
    } else if str_eq(model_name, "bge-small-zh-v1.5") {
        Ok(EmbeddingModel::BGESmallZHV15)
    } else if str_eq(model_name, "BAAI/bge-large-zh-v1.5") {
        Ok(EmbeddingModel::BGELargeZHV15)
    } else if str_eq(model_name, "bge-large-zh-v1.5") {
        Ok(EmbeddingModel::BGELargeZHV15)
    } else if str_eq(model_name, "nomic-ai/nomic-embed-text-v1") {
        Ok(EmbeddingModel::NomicEmbedTextV1)
    } else if str_eq(model_name, "nomic-embed-text-v1") {
        Ok(EmbeddingModel::NomicEmbedTextV1)
    } else if str_eq(model_name, "nomic-ai/nomic-embed-text-v1.5") {
        Ok(EmbeddingModel::NomicEmbedTextV15)
    } else if str_eq(model_name, "nomic-embed-text-v1.5") {
        Ok(EmbeddingModel::NomicEmbedTextV15)
    } else if str_eq(model_name, "nomic-text-embed") {
        Ok(EmbeddingModel::NomicEmbedTextV15)
    } else if str_eq(model_name, "nomic-ai/nomic-embed-text-v1.5-q") {
        Ok(EmbeddingModel::NomicEmbedTextV15Q)
    } else if str_eq(model_name, "nomic-embed-text-v1.5-q") {
        Ok(EmbeddingModel::NomicEmbedTextV15Q)
    } else if str_eq(model_name, "sentence-transformers/paraphrase-multilingual-MiniLM-L12-v2") {
        Ok(EmbeddingModel::ParaphraseMLMiniLML12V2)
    } else if str_eq(model_name, "paraphrase-multilingual-minilm-l12-v2") {
        Ok(EmbeddingModel::ParaphraseMLMiniLML12V2)
    } else if str_eq(model_name, "sentence-transformers/paraphrase-multilingual-MiniLM-L12-v2-q") {
        Ok(EmbeddingModel::ParaphraseMLMiniLML12V2Q)
    } else if str_eq(model_name, "paraphrase-multilingual-minilm-l12-v2-q") {
        Ok(EmbeddingModel::ParaphraseMLMiniLML12V2Q)
    } else if str_eq(model_name, "sentence-transformers/paraphrase-multilingual-mpnet-base-v2") {
        Ok(EmbeddingModel::ParaphraseMLMpnetBaseV2)
    } else if str_eq(model_name, "paraphrase-multilingual-mpnet-base-v2") {
        Ok(EmbeddingModel::ParaphraseMLMpnetBaseV2)
    } else if str_eq(model_name, "lightonai/modernbert-embed-large") {
        Ok(EmbeddingModel::ModernBertEmbedLarge)
    } else if str_eq(model_name, "modernbert-embed-large") {
        Ok(EmbeddingModel::ModernBertEmbedLarge)
    } else if str_eq(model_name, "intfloat/multilingual-e5-small") {
        Ok(EmbeddingModel::MultilingualE5Small)
    } else if str_eq(model_name, "multilingual-e5-small") {
        Ok(EmbeddingModel::MultilingualE5Small)
    } else if str_eq(model_name, "intfloat/multilingual-e5-base") {
        Ok(EmbeddingModel::MultilingualE5Base)
    } else if str_eq(model_name, "multilingual-e5-base") {
        Ok(EmbeddingModel::MultilingualE5Base)
    } else if str_eq(model_name, "intfloat/multilingual-e5-large") {
        Ok(EmbeddingModel::MultilingualE5Large)
    } else if str_eq(model_name, "multilingual-e5-large") {
        Ok(EmbeddingModel::MultilingualE5Large)
    } else if str_eq(model_name, "mixedbread-ai/mxbai-embed-large-v1") {
        Ok(EmbeddingModel::MxbaiEmbedLargeV1)
    } else if str_eq(model_name, "mxbai-embed-large-v1") {
        Ok(EmbeddingModel::MxbaiEmbedLargeV1)
    } else if str_eq(model_name, "mixedbread-ai/mxbai-embed-large-v1-q") {
        Ok(EmbeddingModel::MxbaiEmbedLargeV1Q)
    } else if str_eq(model_name, "mxbai-embed-large-v1-q") {
        Ok(EmbeddingModel::MxbaiEmbedLargeV1Q)
    } else if str_eq(model_name, "Alibaba-NLP/gte-base-en-v1.5") {
        Ok(EmbeddingModel::GTEBaseENV15)
    } else if str_eq(model_name, "gte-base-en-v1.5") {
        Ok(EmbeddingModel::GTEBaseENV15)
    } else if str_eq(model_name, "Alibaba-NLP/gte-base-en-v1.5-q") {
        Ok(EmbeddingModel::GTEBaseENV15Q)
    } else if str_eq(model_name, "gte-base-en-v1.5-q") {
        Ok(EmbeddingModel::GTEBaseENV15Q)
    } else if str_eq(model_name, "Alibaba-NLP/gte-large-en-v1.5") {
        Ok(EmbeddingModel::GTELargeENV15)
    } else if str_eq(model_name, "gte-large-en-v1.5") {
        Ok(EmbeddingModel::GTELargeENV15)
    } else if str_eq(model_name, "Alibaba-NLP/gte-large-en-v1.5-q") {
        Ok(EmbeddingModel::GTELargeENV15Q)
    } else if str_eq(model_name, "gte-large-en-v1.5-q") {
        Ok(EmbeddingModel::GTELargeENV15Q)
    } else if str_eq(model_name, "Qdrant/clip-ViT-B-32-text") {
        Ok(EmbeddingModel::ClipVitB32)
    } else if str_eq(model_name, "clip-vit-b-32") {
        Ok(EmbeddingModel::ClipVitB32)
    } else if str_eq(model_name, "jinaai/jina-embeddings-v2-base-code") {
        Ok(EmbeddingModel::JinaEmbeddingsV2BaseCode)
    } else if str_eq(model_name, "jina-embeddings-v2-base-code") {
        Ok(EmbeddingModel::JinaEmbeddingsV2BaseCode)
    } else {
        let mut e = String::from_str("Unsupported embedding model: ");
        e.append(model_name);
        Err(e)
    }
}

/// The output dimensionality of each embedding model.
pub open spec fn spec_dimensions(m: EmbeddingModel) -> int {
    match m {
        EmbeddingModel::AllMiniLML6V2 => 384,
        EmbeddingModel::AllMiniLML6V2Q => 384,
        EmbeddingModel::AllMiniLML12V2 => 384,
        EmbeddingModel::AllMiniLML12V2Q => 384,
        EmbeddingModel::BGEBaseENV15 => 768,
        EmbeddingModel::BGEBaseENV15Q => 768,
        EmbeddingModel::BGELargeENV15 => 1024,
        EmbeddingModel::BGELargeENV15Q => 1024,
        EmbeddingModel::BGESmallENV15 => 384,
        EmbeddingModel::BGESmallENV15Q => 384,
        EmbeddingModel::BGESmallZHV15 => 512,
        EmbeddingModel::BGELargeZHV15 => 1024,
        EmbeddingModel::NomicEmbedTextV1 => 768,
        EmbeddingModel::NomicEmbedTextV15 => 768,
        EmbeddingModel::NomicEmbedTextV15Q => 768,
        EmbeddingModel::ParaphraseMLMiniLML12V2 => 384,
        EmbeddingModel::ParaphraseMLMiniLML12V2Q => 384,
        EmbeddingModel::ParaphraseMLMpnetBaseV2 => 768,
        EmbeddingModel::ModernBertEmbedLarge => 1024,
        EmbeddingModel::MultilingualE5Small => 384,
        EmbeddingModel::MultilingualE5Base => 768,
        EmbeddingModel::MultilingualE5Large => 1024,
        EmbeddingModel::MxbaiEmbedLargeV1 => 1024,
        EmbeddingModel::MxbaiEmbedLargeV1Q => 1024,
        EmbeddingModel::GTEBaseENV15 => 768,
        EmbeddingModel::GTEBaseENV15Q => 768,
        EmbeddingModel::GTELargeENV15 => 1024,
        EmbeddingModel::GTELargeENV15Q => 1024,
        EmbeddingModel::ClipVitB32 => 512,
        EmbeddingModel::JinaEmbeddingsV2BaseCode => 768,
    }
}

/// The output dimensionality of each embedding model.
pub fn get_model_dimensions(model: &EmbeddingModel) -> (r: usize)
    ensures
        r as int == spec_dimensions(*model),
{
    match model {
        EmbeddingModel::AllMiniLML6V2 => 384,
        EmbeddingModel::AllMiniLML6V2Q => 384,
        EmbeddingModel::AllMiniLML12V2 => 384,
        EmbeddingModel::AllMiniLML12V2Q => 384,
        EmbeddingModel::BGEBaseENV15 => 768,
        EmbeddingModel::BGEBaseENV15Q => 768,
        EmbeddingModel::BGELargeENV15 => 1024,
        EmbeddingModel::BGELargeENV15Q => 1024,
        EmbeddingModel::BGESmallENV15 => 384,
        EmbeddingModel::BGESmallENV15Q => 384,
        EmbeddingModel::BGESmallZHV15 => 512,
        EmbeddingModel::BGELargeZHV15 => 1024,
        EmbeddingModel::NomicEmbedTextV1 => 768,
        EmbeddingModel::NomicEmbedTextV15 => 768,
        EmbeddingModel::NomicEmbedTextV15Q => 768,
        EmbeddingModel::ParaphraseMLMiniLML12V2 => 384,
        EmbeddingModel::ParaphraseMLMiniLML12V2Q => 384,
        EmbeddingModel::ParaphraseMLMpnetBaseV2 => 768,
        EmbeddingModel::ModernBertEmbedLarge => 1024,
        EmbeddingModel::MultilingualE5Small => 384,
        EmbeddingModel::MultilingualE5Base => 768,
        EmbeddingModel::MultilingualE5Large => 1024,
        EmbeddingModel::MxbaiEmbedLargeV1 => 1024,
        EmbeddingModel::MxbaiEmbedLargeV1Q => 1024,
        EmbeddingModel::GTEBaseENV15 => 768,
        EmbeddingModel::GTEBaseENV15Q => 768,
        EmbeddingModel::GTELargeENV15 => 1024,
        EmbeddingModel::GTELargeENV15Q => 1024,
        EmbeddingModel::ClipVitB32 => 512,
        EmbeddingModel::JinaEmbeddingsV2BaseCode => 768,
    }
}

/// One catalog entry of the embedding models list.
#[derive(Debug, Clone)]
pub struct ModelInfo {
    pub id: String,
    pub object: String,
    pub owned_by: String,
    pub description: String,
    pub dimensions: usize,
}

/// The embedding models catalog.
#[derive(Debug, Clone)]
pub struct ModelsResponse {
    pub object: String,
    pub data: Vec<ModelInfo>,
}

fn info(id: &str, owned_by: &str, description: &str, dimensions: usize) -> (r: ModelInfo)
    ensures
        r.id@ == id@,
        r.object@ == "model"@,
        r.owned_by@ == owned_by@,
        r.description@ == description@,
        r.dimensions == dimensions,
{
    ModelInfo {
        id: String::from_str(id),
        object: String::from_str("model"),
        owned_by: String::from_str(owned_by),
        description: String::from_str(description),
        dimensions,
    }
}

/// The exact catalog entry at each index: its id, owner, description and
/// output dimensionality.
pub open spec fn spec_catalog_entry_ok(e: ModelInfo, i: int) -> bool {
    if i == 0 {
        e.id@ == "sentence-transformers/all-MiniLM-L6-v2"@ && e.owned_by@ == "sentence-transformers"@ && e.description@
            == "Sentence Transformer model, MiniLM-L6-v2"@ && e.dimensions == 384
    } else if i == 1 {
        e.id@ == "sentence-transformers/all-MiniLM-L6-v2-q"@ && e.owned_by@ == "sentence-transformers"@ && e.description@
            == "Quantized Sentence Transformer model, MiniLM-L6-v2"@ && e.dimensions == 384
    } else if i == 2 {
        e.id@ == "sentence-transformers/all-MiniLM-L12-v2"@ && e.owned_by@ == "sentence-transformers"@ && e.description@
            == "Sentence Transformer model, MiniLM-L12-v2"@ && e.dimensions == 384
    } else if i == 3 {
        e.id@ == "sentence-transformers/all-MiniLM-L12-v2-q"@ && e.owned_by@ == "sentence-transformers"@ && e.description@
            == "Quantized Sentence Transformer model, MiniLM-L12-v2"@ && e.dimensions == 384
    } else if i == 4 {
        e.id@ == "BAAI/bge-base-en-v1.5"@ && e.owned_by@ == "BAAI"@ && e.description@
            == "v1.5 release of the base English model"@ && e.dimensions == 768
    } else if i == 5 {
        e.id@ == "BAAI/bge-base-en-v1.5-q"@ && e.owned_by@ == "BAAI"@ && e.description@
            == "Quantized v1.5 release of the base English model"@ && e.dimensions == 768
    } else if i == 6 {
        e.id@ == "BAAI/bge-large-en-v1.5"@ && e.owned_by@ == "BAAI"@ && e.description@
            == "v1.5 release of the large English model"@ && e.dimensions == 1024
    } else if i == 7 {
        e.id@ == "BAAI/bge-large-en-v1.5-q"@ && e.owned_by@ == "BAAI"@ && e.description@
            == "Quantized v1.5 release of the large English model"@ && e.dimensions == 1024
    } else if i == 8 {
        e.id@ == "BAAI/bge-small-en-v1.5"@ && e.owned_by@ == "BAAI"@ && e.description@
            == "v1.5 release of the fast and default English model"@ && e.dimensions == 384
    } else if i == 9 {
        e.id@ == "BAAI/bge-small-en-v1.5-q"@ && e.owned_by@ == "BAAI"@ && e.description@
            == "Quantized v1.5 release of the fast and default English model"@ && e.dimensions == 384
    } else if i == 10 {
        e.id@ == "BAAI/bge-small-zh-v1.5"@ && e.owned_by@ == "BAAI"@ && e.description@
            == "v1.5 release of the small Chinese model"@ && e.dimensions == 512
    } else if i == 11 {
        e.id@ == "BAAI/bge-large-zh-v1.5"@ && e.owned_by@ == "BAAI"@ && e.description@
            == "v1.5 release of the large Chinese model"@ && e.dimensions == 1024
    } else if i == 12 {
        e.id@ == "nomic-ai/nomic-embed-text-v1"@ && e.owned_by@ == "nomic-ai"@ && e.description@
            == "8192 context length english model"@ && e.dimensions == 768
    } else if i == 13 {
        e.id@ == "nomic-ai/nomic-embed-text-v1.5"@ && e.owned_by@ == "nomic-ai"@ && e.description@
            == "v1.5 release of the 8192 context length english model"@ && e.dimensions == 768
    } else if i == 14 {
        e.id@ == "nomic-ai/nomic-embed-text-v1.5-q"@ && e.owned_by@ == "nomic-ai"@ && e.description@
            == "Quantized v1.5 release of the 8192 context length english model"@ && e.dimensions == 768
    } else if i == 15 {
        e.id@ == "sentence-transformers/paraphrase-multilingual-MiniLM-L12-v2"@ && e.owned_by@ == "sentence-transformers"@ && e.description@
            == "Multi-lingual model"@ && e.dimensions == 384
    } else if i == 16 {
        e.id@ == "sentence-transformers/paraphrase-multilingual-MiniLM-L12-v2-q"@ && e.owned_by@ == "sentence-transformers"@ && e.description@
            == "Quantized Multi-lingual model"@ && e.dimensions == 384
    } else if i == 17 {
        e.id@ == "sentence-transformers/paraphrase-multilingual-mpnet-base-v2"@ && e.owned_by@ == "sentence-transformers"@ && e.description@
            == "Sentence-transformers model for tasks like clustering or semantic search"@ && e.dimensions == 768
    } else if i == 18 {
        e.id@ == "lightonai/modernbert-embed-large"@ && e.owned_by@ == "lightonai"@ && e.description@
            == "Large model of ModernBert Text Embeddings"@ && e.dimensions == 1024
    } else if i == 19 {
        e.id@ == "intfloat/multilingual-e5-small"@ && e.owned_by@ == "intfloat"@ && e.description@
            == "Small model of multilingual E5 Text Embeddings"@ && e.dimensions == 384
    } else if i == 20 {
        e.id@ == "intfloat/multilingual-e5-base"@ && e.owned_by@ == "intfloat"@ && e.description@
            == "Base model of multilingual E5 Text Embeddings"@ && e.dimensions == 768
    } else if i == 21 {
        e.id@ == "intfloat/multilingual-e5-large"@ && e.owned_by@ == "intfloat"@ && e.description@
            == "Large model of multilingual E5 Text Embeddings"@ && e.dimensions == 1024
    } else if i == 22 {
        e.id@ == "mixedbread-ai/mxbai-embed-large-v1"@ && e.owned_by@ == "mixedbread-ai"@ && e.description@
            == "Large English embedding model from MixedBreed.ai"@ && e.dimensions == 1024
    } else if i == 23 {
        e.id@ == "mixedbread-ai/mxbai-embed-large-v1-q"@ && e.owned_by@ == "mixedbread-ai"@ && e.description@
            == "Quantized Large English embedding model from MixedBreed.ai"@ && e.dimensions == 1024
    } else if i == 24 {
        e.id@ == "Alibaba-NLP/gte-base-en-v1.5"@ && e.owned_by@ == "Alibaba-NLP"@ && e.description@
            == "Base multilingual embedding model from Alibaba"@ && e.dimensions == 768
    } else if i == 25 {
        e.id@ == "Alibaba-NLP/gte-base-en-v1.5-q"@ && e.owned_by@ == "Alibaba-NLP"@ && e.description@
            == "Quantized Base multilingual embedding model from Alibaba"@ && e.dimensions == 768
    } else if i == 26 {
        e.id@ == "Alibaba-NLP/gte-large-en-v1.5"@ && e.owned_by@ == "Alibaba-NLP"@ && e.description@
            == "Large multilingual embedding model from Alibaba"@ && e.dimensions == 1024
    } else if i == 27 {
        e.id@ == "Alibaba-NLP/gte-large-en-v1.5-q"@ && e.owned_by@ == "Alibaba-NLP"@ && e.description@
            == "Quantized Large multilingual embedding model from Alibaba"@ && e.dimensions == 1024
    } else if i == 28 {
        e.id@ == "Qdrant/clip-ViT-B-32-text"@ && e.owned_by@ == "Qdrant"@ && e.description@
            == "CLIP text encoder based on ViT-B/32"@ && e.dimensions == 512
    } else if i == 29 {
        e.id@ == "jinaai/jina-embeddings-v2-base-code"@ && e.owned_by@ == "jinaai"@ && e.description@
            == "Jina embeddings v2 base code"@ && e.dimensions == 768
    } else {
        false
    }
}

/// The catalog of embedding models, under their repository ids, each with
/// its owner, description, and output dimensionality — every entry fixed by
/// index.
pub fn models_list() -> (r: ModelsResponse)
    ensures
        r.object@ == "list"@,
        r.data@.len() == 30,
        forall|i: int|
            0 <= i < r.data@.len() ==> (#[trigger] r.data@[i]).object@ == "model"@
                && spec_catalog_entry_ok(r.data@[i], i),
{
    let mut data: Vec<ModelInfo> = Vec::new();
    data.push(info("sentence-transformers/all-MiniLM-L6-v2", "sentence-transformers", "Sentence Transformer model, MiniLM-L6-v2", 384));
    data.push(info("sentence-transformers/all-MiniLM-L6-v2-q", "sentence-transformers", "Quantized Sentence Transformer model, MiniLM-L6-v2", 384));
    data.push(info("sentence-transformers/all-MiniLM-L12-v2", "sentence-transformers", "Sentence Transformer model, MiniLM-L12-v2", 384));
    data.push(info("sentence-transformers/all-MiniLM-L12-v2-q", "sentence-transformers", "Quantized Sentence Transformer model, MiniLM-L12-v2", 384));
    data.push(info("BAAI/bge-base-en-v1.5", "BAAI", "v1.5 release of the base English model", 768));
    data.push(info("BAAI/bge-base-en-v1.5-q", "BAAI", "Quantized v1.5 release of the base English model", 768));
    data.push(info("BAAI/bge-large-en-v1.5", "BAAI", "v1.5 release of the large English model", 1024));
    data.push(info("BAAI/bge-large-en-v1.5-q", "BAAI", "Quantized v1.5 release of the large English model", 1024));
    data.push(info("BAAI/bge-small-en-v1.5", "BAAI", "v1.5 release of the fast and default English model", 384));
    data.push(info("BAAI/bge-small-en-v1.5-q", "BAAI", "Quantized v1.5 release of the fast and default English model", 384));
    data.push(info("BAAI/bge-small-zh-v1.5", "BAAI", "v1.5 release of the small Chinese model", 512));
    data.push(info("BAAI/bge-large-zh-v1.5", "BAAI", "v1.5 release of the large Chinese model", 1024));
    data.push(info("nomic-ai/nomic-embed-text-v1", "nomic-ai", "8192 context length english model", 768));
    data.push(info("nomic-ai/nomic-embed-text-v1.5", "nomic-ai", "v1.5 release of the 8192 context length english model", 768));
    data.push(info("nomic-ai/nomic-embed-text-v1.5-q", "nomic-ai", "Quantized v1.5 release of the 8192 context length english model", 768));
    data.push(info("sentence-transformers/paraphrase-multilingual-MiniLM-L12-v2", "sentence-transformers", "Multi-lingual model", 384));
    data.push(info("sentence-transformers/paraphrase-multilingual-MiniLM-L12-v2-q", "sentence-transformers", "Quantized Multi-lingual model", 384));
    data.push(info("sentence-transformers/paraphrase-multilingual-mpnet-base-v2", "sentence-transformers", "Sentence-transformers model for tasks like clustering or semantic search", 768));
    data.push(info("lightonai/modernbert-embed-large", "lightonai", "Large model of ModernBert Text Embeddings", 1024));
    data.push(info("intfloat/multilingual-e5-small", "intfloat", "Small model of multilingual E5 Text Embeddings", 384));
    data.push(info("intfloat/multilingual-e5-base", "intfloat", "Base model of multilingual E5 Text Embeddings", 768));
    data.push(info("intfloat/multilingual-e5-large", "intfloat", "Large model of multilingual E5 Text Embeddings", 1024));
    data.push(info("mixedbread-ai/mxbai-embed-large-v1", "mixedbread-ai", "Large English embedding model from MixedBreed.ai", 1024));
    data.push(info("mixedbread-ai/mxbai-embed-large-v1-q", "mixedbread-ai", "Quantized Large English embedding model from MixedBreed.ai", 1024));
    data.push(info("Alibaba-NLP/gte-base-en-v1.5", "Alibaba-NLP", "Base multilingual embedding model from Alibaba", 768));
    data.push(info("Alibaba-NLP/gte-base-en-v1.5-q", "Alibaba-NLP", "Quantized Base multilingual embedding model from Alibaba", 768));
    data.push(info("Alibaba-NLP/gte-large-en-v1.5", "Alibaba-NLP", "Large multilingual embedding model from Alibaba", 1024));
    data.push(info("Alibaba-NLP/gte-large-en-v1.5-q", "Alibaba-NLP", "Quantized Large multilingual embedding model from Alibaba", 1024));
    data.push(info("Qdrant/clip-ViT-B-32-text", "Qdrant", "CLIP text encoder based on ViT-B/32", 512));
    data.push(info("jinaai/jina-embeddings-v2-base-code", "jinaai", "Jina embeddings v2 base code", 768));
    proof {
        assert forall|i: int|
            0 <= i < data@.len() implies (#[trigger] data@[i]).object@ == "model"@
            && spec_catalog_entry_ok(data@[i], i) by {
            if i == 0 {
                assert(spec_catalog_entry_ok(data@[0], 0));
            } else if i == 1 {
                assert(spec_catalog_entry_ok(data@[1], 1));
            } else if i == 2 {
                assert(spec_catalog_entry_ok(data@[2], 2));
            } else if i == 3 {
                assert(spec_catalog_entry_ok(data@[3], 3));
            } else if i == 4 {
                assert(spec_catalog_entry_ok(data@[4], 4));
            } else if i == 5 {
                assert(spec_catalog_entry_ok(data@[5], 5));
            } else if i == 6 {
                assert(spec_catalog_entry_ok(data@[6], 6));
            } else if i == 7 {
                assert(spec_catalog_entry_ok(data@[7], 7));
            } else if i == 8 {
                assert(spec_catalog_entry_ok(data@[8], 8));
            } else if i == 9 {
                assert(spec_catalog_entry_ok(data@[9], 9));
            } else if i == 10 {
                assert(spec_catalog_entry_ok(data@[10], 10));
            } else if i == 11 {
                assert(spec_catalog_entry_ok(data@[11], 11));
            } else if i == 12 {
                assert(spec_catalog_entry_ok(data@[12], 12));
            } else if i == 13 {
                assert(spec_catalog_entry_ok(data@[13], 13));
            } else if i == 14 {
                assert(spec_catalog_entry_ok(data@[14], 14));
            } else if i == 15 {
                assert(spec_catalog_entry_ok(data@[15], 15));
            } else if i == 16 {
                assert(spec_catalog_entry_ok(data@[16], 16));
            } else if i == 17 {
                assert(spec_catalog_entry_ok(data@[17], 17));
            } else if i == 18 {
                assert(spec_catalog_entry_ok(data@[18], 18));
            } else if i == 19 {
                assert(spec_catalog_entry_ok(data@[19], 19));
            } else if i == 20 {
                assert(spec_catalog_entry_ok(data@[20], 20));
            } else if i == 21 {
                assert(spec_catalog_entry_ok(data@[21], 21));
            } else if i == 22 {
                assert(spec_catalog_entry_ok(data@[22], 22));
            } else if i == 23 {
                assert(spec_catalog_entry_ok(data@[23], 23));
            } else if i == 24 {
                assert(spec_catalog_entry_ok(data@[24], 24));
            } else if i == 25 {
                assert(spec_catalog_entry_ok(data@[25], 25));
            } else if i == 26 {
                assert(spec_catalog_entry_ok(data@[26], 26));
            } else if i == 27 {
                assert(spec_catalog_entry_ok(data@[27], 27));
            } else if i == 28 {
                assert(spec_catalog_entry_ok(data@[28], 28));
            } else if i == 29 {
                assert(spec_catalog_entry_ok(data@[29], 29));
            }
        }
    }
    ModelsResponse { object: String::from_str("list"), data }
}

/// Whether every bit pattern encodes a (positive or negative) zero.
pub fn all_zero_bits(v: &Vec<u32>) -> (r: bool)
    ensures
        r == forall|i: int| 0 <= i < v@.len() ==> (#[trigger] v@[i]) & 0x7FFF_FFFF == 0,
{
    let mut i: usize = 0;
    while i < v.len()
        invariant
            i <= v@.len(),
            forall|j: int| 0 <= j < i ==> (#[trigger] v@[j]) & 0x7FFF_FFFF == 0,
        decreases v@.len() - i,
    {
        if v[i] & 0x7FFF_FFFF != 0 {
            return false;
        }
        i += 1;
    }
    true
}

/// The shape a spliced number literal must have: non-empty, made of
/// digits, sign, dot, and exponent characters only.
pub open spec fn is_number_shaped(s: Seq<char>) -> bool {
    s.len() > 0 && forall|i: int|
        0 <= i < s.len() ==> ((48 <= (#[trigger] s[i]) as u32 && s[i] as u32 <= 57) || s[i] == '-'
            || s[i] == '+' || s[i] == '.' || s[i] == 'e' || s[i] == 'E')
}

/// Check that a rendered number may be spliced into the response.
pub fn number_shaped(s: &str) -> (r: bool)
    ensures
        r == is_number_shaped(s@),
{
    let len = s.unicode_len();
    if len == 0 {
        return false;
    }
    let mut i: usize = 0;
    while i < len
        invariant
            i <= len,
            len == s@.len(),
            forall|j: int|
                0 <= j < i ==> ((48 <= (#[trigger] s@[j]) as u32 && s@[j] as u32 <= 57) || s@[j]
                    == '-' || s@[j] == '+' || s@[j] == '.' || s@[j] == 'e' || s@[j] == 'E'),
        decreases len - i,
    {
        let c = s.get_char(i);
        let u = c as u32;
        if !((48 <= u && u <= 57) || c == '-' || c == '+' || c == '.' || c == 'e' || c == 'E') {
            return false;
        }
        i += 1;
    }
    true
}

/// The rendered numbers joined with commas.
pub open spec fn spec_join_comma(parts: Seq<Seq<char>>) -> Seq<char>
    decreases parts.len(),
{
    if parts.len() == 0 {
        Seq::empty()
    } else if parts.len() == 1 {
        parts[0]
    } else {
        spec_join_comma(parts.drop_last()) + seq![','] + parts.last()
    }
}

/// One data entry of the embeddings response: the embedding at its index.
pub open spec fn spec_embedding_entry(i: int, numbers: Seq<Seq<char>>) -> Seq<char> {
    "{\"object\":\"embedding\",\"index\":"@ + crate::text::dec_digits(i)
        + ",\"embedding\":["@ + spec_join_comma(numbers) + "]}"@
}

/// The data entries, one per input vector, in input order.
pub open spec fn spec_embedding_entries(vectors: Seq<Seq<Seq<char>>>) -> Seq<char>
    decreases vectors.len(),
{
    if vectors.len() == 0 {
        Seq::empty()
    } else if vectors.len() == 1 {
        spec_embedding_entry(0, vectors[0])
    } else {
        spec_embedding_entries(vectors.drop_last()) + seq![','] + spec_embedding_entry(
            vectors.len() - 1,
            vectors.last(),
        )
    }
}

/// The OpenAI embeddings response: one data entry per input, at its input
/// index, the model echoed back, and zeroed token accounting.
pub open spec fn spec_embeddings_response(model: Seq<char>, vectors: Seq<Seq<Seq<char>>>) -> Seq<
    char,
> {
    "{\"object\":\"list\",\"data\":["@ + spec_embedding_entries(vectors) + "],\"model\":"@
        + spec_json_string(model) + ",\"usage\":{\"prompt_tokens\":0,\"total_tokens\":0}}"@
}

/// Append one data entry: the vector's rendered components at its index.
fn append_embedding_entry(out: &mut String, index: usize, numbers: &Vec<String>)
    ensures
        final(out)@ == old(out)@ + spec_embedding_entry(
            index as int,
            numbers@.map_values(|s: String| s@),
        ),
{
    out.append("{\"object\":\"embedding\",\"index\":");
    let index_str = crate::text::u64_to_string(index as u64);
    out.append(index_str.as_str());
    out.append(",\"embedding\":[");
    let mut i: usize = 0;
    let ghost parts = numbers@.map_values(|s: String| s@);
    let ghost head = out@;
    proof {
        assert(parts.subrange(0, 0) =~= Seq::<Seq<char>>::empty());
        assert(spec_join_comma(parts.subrange(0, 0)) =~= Seq::<char>::empty());
        assert(head + Seq::<char>::empty() =~= head);
    }
    while i < numbers.len()
        invariant
            i <= numbers@.len(),
            parts == numbers@.map_values(|s: String| s@),
            out@ == head + spec_join_comma(parts.subrange(0, i as int)),
        decreases numbers@.len() - i,
    {
        if i > 0 {
            crate::text::push_char(out, ',');
        }
        out.append(numbers[i].as_str());
        proof {
            let pre = parts.subrange(0, i as int);
            let post = parts.subrange(0, i + 1);
            assert(post.drop_last() =~= pre);
            assert(post.last() == parts[i as int]);
            assert(parts[i as int] == numbers@[i as int]@);
            if i == 0 {
                assert(spec_join_comma(post) == parts[0]);
            }
            assert(out@ =~= head + spec_join_comma(post));
        }
        i += 1;
    }
    out.append("]}");
    proof {
        assert(parts.subrange(0, parts.len() as int) =~= parts);
        assert(out@ =~= old(out)@ + spec_embedding_entry(index as int, parts));
    }
}

/// Render the embeddings response around the caller's rendered vector
/// components, one data entry per input vector.
pub fn render_embeddings_response(model: &str, vectors: &Vec<Vec<String>>) -> (r: String)
    requires
        forall|v: int, k: int|
            0 <= v < vectors@.len() && 0 <= k < vectors@[v]@.len() ==> is_number_shaped(
                (#[trigger] vectors@[v]@[k])@,
            ),
    ensures
        r@ == spec_embeddings_response(
            model@,
            vectors@.map_values(|nums: Vec<String>| nums@.map_values(|s: String| s@)),
        ),
{
    let mut out = String::from_str("{\"object\":\"list\",\"data\":[");
    let ghost vv = vectors@.map_values(|nums: Vec<String>| nums@.map_values(|s: String| s@));
    let ghost head = out@;
    let mut i: usize = 0;
    proof {
        assert(vv.subrange(0, 0) =~= Seq::<Seq<Seq<char>>>::empty());
        assert(spec_embedding_entries(vv.subrange(0, 0)) =~= Seq::<char>::empty());
        assert(head + Seq::<char>::empty() =~= head);
    }
    while i < vectors.len()
        invariant
            i <= vectors@.len(),
            vv == vectors@.map_values(|nums: Vec<String>| nums@.map_values(|s: String| s@)),
            out@ == head + spec_embedding_entries(vv.subrange(0, i as int)),
            forall|v: int, k: int|
                0 <= v < vectors@.len() && 0 <= k < vectors@[v]@.len() ==> is_number_shaped(
                    (#[trigger] vectors@[v]@[k])@,
                ),
        decreases vectors@.len() - i,
    {
        if i > 0 {
            crate::text::push_char(&mut out, ',');
        }
        append_embedding_entry(&mut out, i, &vectors[i]);
        proof {
            let pre = vv.subrange(0, i as int);
            let post = vv.subrange(0, i + 1);
            assert(post.drop_last() =~= pre);
            assert(post.last() == vv[i as int]);
            assert(vv[i as int] == vectors@[i as int]@.map_values(|s: String| s@));
            if i == 0 {
                assert(spec_embedding_entries(post) == spec_embedding_entry(0, vv[0]));
            }
            assert(out@ =~= head + spec_embedding_entries(post));
        }
        i += 1;
    }
    proof {
        assert(vv.subrange(0, vv.len() as int) =~= vv);
    }
    out.append("],\"model\":");
    append_json_string(&mut out, model);
    out.append(",\"usage\":{\"prompt_tokens\":0,\"total_tokens\":0}}");
    proof {
        assert(out@ =~= spec_embeddings_response(model@, vv));
    }
    out
}

/// The error body for an unknown embedding model: status 400,
/// `invalid_model`.
pub fn invalid_model_error(parse_error: &str) -> (r: String)
    ensures
        r@ == crate::chat::spec_error_json("Invalid model: "@ + parse_error@, "invalid_model"@),
{
    let mut message = String::from_str("Invalid model: ");
    message.append(parse_error);
    crate::chat::render_error_json(message.as_str(), "invalid_model")
}

/// The error body for integer-array inputs: status 400,
/// `unsupported_input`.
pub fn unsupported_input_error() -> (r: String)
    ensures
        r@ == crate::chat::spec_error_json(
            "Integer inputs are not supported for text embeddings"@,
            "unsupported_input"@,
        ),
{
    crate::chat::render_error_json(
        "Integer inputs are not supported for text embeddings",
        "unsupported_input",
    )
}

} // verus!
