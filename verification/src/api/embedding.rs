//! Types of the embeddings endpoint.

use crate::api::types::Either;
use crate::model::Model;
use vstd::prelude::*;

verus! {

/// An embedding request.
#[derive(Clone, Debug, PartialEq, Eq)]
pub struct EmbeddingRequest {
    pub input: Either<String, Vec<String>>,
    pub model: Model,
    pub dimensions: Option<u32>,
    pub encoding_format: Option<EncodingFormat>,
    pub user: Option<String>,
}

/// An encoding format; each variant has a name on the wire.
#[derive(Clone, Debug, PartialEq, Eq)]
pub enum EncodingFormat {
    Float,
    Base64,
}

impl Default for EncodingFormat {
    fn default() -> (r: EncodingFormat)
        ensures
            r == EncodingFormat::Float,
    {
        EncodingFormat::Float
    }
}

impl EncodingFormat {
    /// The name of this variant on the wire.
    pub open spec fn name(self) -> Seq<char> {
        match self {
            EncodingFormat::Float => "float"@,
            EncodingFormat::Base64 => "base64"@,
        }
    }

    /// The name of this variant on the wire.
    pub fn as_str(&self) -> (r: &'static str)
        ensures
            r@ == self.name(),
    {
        match self {
            EncodingFormat::Float => "float",
            EncodingFormat::Base64 => "base64",
        }
    }
}

/// An embedding usage.
#[derive(Clone, Debug, PartialEq, Eq)]
pub struct EmbeddingUsage {
    pub prompt_tokens: u32,
    pub total_tokens: u32,
}

impl Default for EmbeddingRequest {
    /// A request to embed the empty text with the large embedding model.
    fn default() -> (r: EmbeddingRequest)
        ensures
            r.input matches Either::A(text) && text@.len() == 0,
            r.model == Model::TextEmbedding3Large,
            r.dimensions is None,
            r.encoding_format is None,
            r.user is None,
    {
        EmbeddingRequest {
            input: Either::A(String::new()),
            model: Model::TextEmbedding3Large,
            dimensions: None,
            encoding_format: None,
            user: None,
        }
    }
}

} // verus!
