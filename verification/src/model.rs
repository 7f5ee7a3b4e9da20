//! The models of the API, by identifier, with what each can do.

use crate::text::{from_chars, same, to_chars};
use vstd::prelude::*;

verus! {

/// The pattern of a date at the end of an identifier: a hyphen, four digits,
/// a hyphen, two digits, a hyphen and two digits.
pub const DATE_SUFFIX: &'static str = "-\\d{4}-\\d{2}-\\d{2}$";

/// What `Regex::replace` of the crate `regex` makes of `text` for the
/// pattern `pattern` and the replacement `replacement`: the text with the
/// leftmost match replaced; nothing where the pattern does not compile.
pub uninterp spec fn regex_replaced(
    pattern: Seq<char>,
    text: Seq<char>,
    replacement: Seq<char>,
) -> Option<Seq<char>>;

/// Compiles `pattern` with `Regex::new` and calls `Regex::replace` on `text`.
/// The result is what the outside crate returns, or nothing where it does not
/// take the pattern.
#[verifier::external_body]
fn regex_replace(pattern: &str, text: &str, replacement: &str) -> (r: Option<String>)
    ensures
        r is Some <==> regex_replaced(pattern@, text@, replacement@) is Some,
        r matches Some(s) ==> regex_replaced(pattern@, text@, replacement@) == Some(s@),
{
    match regex::Regex::new(pattern) {
        Ok(re) => Some(re.replace(text, replacement).into_owned()),
        Err(_) => None,
    }
}

/// `id` without a date at its end.
pub open spec fn without_date(id: Seq<char>) -> Seq<char> {
    match regex_replaced(DATE_SUFFIX@, id, ""@) {
        Some(rest) => rest,
        None => id,
    }
}

/// `id` without a date at its end.
pub fn strip_date_suffix(id: &str) -> (r: String)
    ensures
        r@ == without_date(id@),
{
    match regex_replace(DATE_SUFFIX, id, "") {
        Some(rest) => rest,
        None => id.to_owned(),
    }
}

/// The content of a `Model`.
pub enum ModelView {
    Gpt4o,
    Gpt4oMini,
    TextEmbedding3Small,
    TextEmbedding3Large,
    TextEmbeddingAda002,
    Custom {
        id: Seq<char>,
        name: Seq<char>,
        embedding: bool,
        reasoning: bool,
        function_calling: bool,
    },
    Unknown(Seq<char>),
}

/// A model of the API.
#[derive(Clone, Debug, PartialEq, Eq)]
pub enum Model {
    /// GPT-4o, for conversation and reasoning.
    Gpt4o,
    /// GPT-4o Mini, the smaller GPT-4o.
    Gpt4oMini,
    /// The small text embedding model.
    TextEmbedding3Small,
    /// The large text embedding model.
    TextEmbedding3Large,
    /// The Ada text embedding model.
    TextEmbeddingAda002,
    /// A model that the caller describes.
    Custom {
        /// The identifier of the model.
        id: String,
        /// The name of the model.
        name: String,
        /// Whether it embeds text.
        embedding: bool,
        /// Whether it reasons.
        reasoning: bool,
        /// Whether it calls functions.
        function_calling: bool,
    },
    /// A model known by its identifier only.
    Unknown(String),
}

impl View for Model {
    type V = ModelView;

    open spec fn view(&self) -> ModelView {
        match self {
            Model::Gpt4o => ModelView::Gpt4o,
            Model::Gpt4oMini => ModelView::Gpt4oMini,
            Model::TextEmbedding3Small => ModelView::TextEmbedding3Small,
            Model::TextEmbedding3Large => ModelView::TextEmbedding3Large,
            Model::TextEmbeddingAda002 => ModelView::TextEmbeddingAda002,
            Model::Custom { id, name, embedding, reasoning, function_calling } => {
                ModelView::Custom {
                    id: id@,
                    name: name@,
                    embedding: *embedding,
                    reasoning: *reasoning,
                    function_calling: *function_calling,
                }
            },
            Model::Unknown(id) => ModelView::Unknown(id@),
        }
    }
}

impl Default for Model {
    fn default() -> (r: Model)
        ensures
            r == Model::Gpt4o,
    {
        Model::Gpt4o
    }
}

/// The model with the identifier `id`.
pub open spec fn model_of(id: Seq<char>) -> ModelView {
    if id == "gpt-4o"@ {
        ModelView::Gpt4o
    } else if id == "gpt-4o-mini"@ {
        ModelView::Gpt4oMini
    } else if id == "text-embedding-3-small"@ {
        ModelView::TextEmbedding3Small
    } else if id == "text-embedding-3-large"@ {
        ModelView::TextEmbedding3Large
    } else if id == "text-embedding-ada-002"@ {
        ModelView::TextEmbeddingAda002
    } else {
        ModelView::Unknown(id)
    }
}

impl ModelView {
    /// The identifier of the model.
    pub open spec fn id(self) -> Seq<char> {
        match self {
            ModelView::Gpt4o => "gpt-4o"@,
            ModelView::Gpt4oMini => "gpt-4o-mini"@,
            ModelView::TextEmbedding3Small => "text-embedding-3-small"@,
            ModelView::TextEmbedding3Large => "text-embedding-3-large"@,
            ModelView::TextEmbeddingAda002 => "text-embedding-ada-002"@,
            ModelView::Custom { id, .. } => id,
            ModelView::Unknown(id) => id,
        }
    }

    /// The name of the model.
    pub open spec fn name(self) -> Seq<char> {
        match self {
            ModelView::Gpt4o => "GPT-4o"@,
            ModelView::Gpt4oMini => "GPT-4o Mini"@,
            ModelView::TextEmbedding3Small => "Text Embedding 3 Small"@,
            ModelView::TextEmbedding3Large => "Text Embedding 3 Large"@,
            ModelView::TextEmbeddingAda002 => "Text Embedding Ada 002"@,
            ModelView::Custom { name, .. } => name,
            ModelView::Unknown(id) => "Unknown("@ + id + ")"@,
        }
    }

    /// Whether the model embeds text.
    pub open spec fn embedding(self) -> bool {
        match self {
            ModelView::TextEmbedding3Small
            | ModelView::TextEmbedding3Large
            | ModelView::TextEmbeddingAda002 => true,
            ModelView::Custom { embedding, .. } => embedding,
            _ => false,
        }
    }

    /// Whether the model reasons.
    pub open spec fn reasoning(self) -> bool {
        match self {
            ModelView::Custom { reasoning, .. } => reasoning,
            _ => false,
        }
    }

    /// Whether the model calls functions.
    pub open spec fn function_calling(self) -> bool {
        match self {
            ModelView::Gpt4o | ModelView::Gpt4oMini => true,
            ModelView::Custom { function_calling, .. } => function_calling,
            _ => false,
        }
    }
}

/// The identifier of a model names that model: for every model but a custom
/// one, and but one that is held as unknown under the identifier of a model
/// that is known.
pub proof fn law_id_names_the_model(model: ModelView)
    requires
        !(model is Custom),
        model matches ModelView::Unknown(id) ==> model_of(id) is Unknown,
    ensures
        model_of(model.id()) == model,
{
    reveal_strlit("gpt-4o");
    reveal_strlit("gpt-4o-mini");
    reveal_strlit("text-embedding-3-small");
    reveal_strlit("text-embedding-3-large");
    reveal_strlit("text-embedding-ada-002");
    assert("gpt-4o"@.len() != "gpt-4o-mini"@.len());
    assert("gpt-4o"@.len() != "text-embedding-3-small"@.len());
    assert("gpt-4o-mini"@.len() != "text-embedding-3-small"@.len());
    assert("text-embedding-3-small"@[17] != "text-embedding-3-large"@[17]);
    assert("text-embedding-3-small"@[15] != "text-embedding-ada-002"@[15]);
    assert("text-embedding-3-large"@[15] != "text-embedding-ada-002"@[15]);
}

impl Model {
    /// The model with the identifier `id`.
    pub fn from_id(id: &str) -> (model: Model)
        ensures
            model@ == model_of(id@),
    {
        let text = to_chars(id);
        if same(&text, &to_chars("gpt-4o")) {
            Model::Gpt4o
        } else if same(&text, &to_chars("gpt-4o-mini")) {
            Model::Gpt4oMini
        } else if same(&text, &to_chars("text-embedding-3-small")) {
            Model::TextEmbedding3Small
        } else if same(&text, &to_chars("text-embedding-3-large")) {
            Model::TextEmbedding3Large
        } else if same(&text, &to_chars("text-embedding-ada-002")) {
            Model::TextEmbeddingAda002
        } else {
            Model::Unknown(from_chars(&text))
        }
    }

    /// The model that the API names `id`: a date at the end of the
    /// identifier does not count.
    pub fn from_wire(id: &str) -> (model: Model)
        ensures
            model@ == model_of(without_date(id@)),
    {
        let bare = strip_date_suffix(id);
        Model::from_id(bare.as_str())
    }

    /// The identifier of this model.
    pub fn id(&self) -> (r: String)
        ensures
            r@ == self@.id(),
    {
        match self {
            Model::Gpt4o => String::from_str("gpt-4o"),
            Model::Gpt4oMini => String::from_str("gpt-4o-mini"),
            Model::TextEmbedding3Small => String::from_str("text-embedding-3-small"),
            Model::TextEmbedding3Large => String::from_str("text-embedding-3-large"),
            Model::TextEmbeddingAda002 => String::from_str("text-embedding-ada-002"),
            Model::Custom { id, .. } => id.clone(),
            Model::Unknown(id) => id.clone(),
        }
    }

    /// The name of this model.
    pub fn name(&self) -> (r: String)
        ensures
            r@ == self@.name(),
    {
        match self {
            Model::Gpt4o => String::from_str("GPT-4o"),
            Model::Gpt4oMini => String::from_str("GPT-4o Mini"),
            Model::TextEmbedding3Small => String::from_str("Text Embedding 3 Small"),
            Model::TextEmbedding3Large => String::from_str("Text Embedding 3 Large"),
            Model::TextEmbeddingAda002 => String::from_str("Text Embedding Ada 002"),
            Model::Custom { name, .. } => name.clone(),
            Model::Unknown(id) => {
                let mut r = String::from_str("Unknown(");
                r.append(id.as_str());
                r.append(")");
                r
            },
        }
    }

    /// Whether this model embeds text.
    pub fn embedding(&self) -> (r: bool)
        ensures
            r == self@.embedding(),
    {
        match self {
            Model::Gpt4o | Model::Gpt4oMini => false,
            Model::TextEmbedding3Small
            | Model::TextEmbedding3Large
            | Model::TextEmbeddingAda002 => true,
            Model::Custom { embedding, .. } => *embedding,
            Model::Unknown(_) => false,
        }
    }

    /// Whether this model reasons.
    pub fn reasoning(&self) -> (r: bool)
        ensures
            r == self@.reasoning(),
    {
        match self {
            Model::Custom { reasoning, .. } => *reasoning,
            _ => false,
        }
    }

    /// Whether this model calls functions.
    pub fn function_calling(&self) -> (r: bool)
        ensures
            r == self@.function_calling(),
    {
        match self {
            Model::Gpt4o | Model::Gpt4oMini => true,
            Model::TextEmbedding3Small
            | Model::TextEmbedding3Large
            | Model::TextEmbeddingAda002 => false,
            Model::Custom { function_calling, .. } => *function_calling,
            Model::Unknown(_) => false,
        }
    }
}

} // verus!
