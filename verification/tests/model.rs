use openagent::api::batch::Endpoint;
use openagent::api::chat::{AudioFormat, ChatMessageCommon, ConstText};
use openagent::api::embedding::EmbeddingRequest;
use openagent::api::file::StatusFallback;
use openagent::api::response::types::{Status3, ToolChoiceMode};
use openagent::api::types::{ConstFunction, Either, Purpose, Role};
use openagent::http::{Reconnect, SseOptions};
use openagent::model::{strip_date_suffix, Model};

#[test]
fn model_from_id() {
    assert_eq!(Model::from_id("gpt-4o"), Model::Gpt4o);
    assert_eq!(Model::from_id("gpt-4o-mini"), Model::Gpt4oMini);
    assert_eq!(Model::from_id("text-embedding-3-small"), Model::TextEmbedding3Small);
    assert_eq!(Model::from_id("text-embedding-3-large"), Model::TextEmbedding3Large);
    assert_eq!(Model::from_id("text-embedding-ada-002"), Model::TextEmbeddingAda002);
    assert_eq!(Model::from_id("o3"), Model::Unknown("o3".to_string()));
    assert_eq!(Model::from_id("GPT-4o"), Model::Unknown("GPT-4o".to_string()));
    assert_eq!(Model::from_id(""), Model::Unknown(String::new()));
}

#[test]
fn model_from_wire_drops_the_date() {
    assert_eq!(Model::from_wire("gpt-4o-2024-08-06"), Model::Gpt4o);
    assert_eq!(Model::from_wire("gpt-4o-mini-2024-07-18"), Model::Gpt4oMini);
    assert_eq!(Model::from_wire("gpt-4o"), Model::Gpt4o);
    assert_eq!(Model::from_wire("o3-2025-04-16"), Model::Unknown("o3".to_string()));
    assert_eq!(
        Model::from_wire("gpt-4o-2024-08-06-preview"),
        Model::Unknown("gpt-4o-2024-08-06-preview".to_string())
    );
    assert_eq!(Model::from_wire("gpt-4o-24-08-06"), Model::Unknown("gpt-4o-24-08-06".to_string()));
}

#[test]
fn date_suffix_is_stripped_at_the_end_only() {
    assert_eq!(strip_date_suffix("x-2024-01-02"), "x");
    assert_eq!(strip_date_suffix("-2024-01-02"), "");
    assert_eq!(strip_date_suffix("x-2024-01-02-2025-03-04"), "x-2024-01-02");
    assert_eq!(strip_date_suffix("x-2024-1-02"), "x-2024-1-02");
    assert_eq!(strip_date_suffix("2024-01-02"), "2024-01-02");
}

#[test]
fn model_ids_and_names() {
    assert_eq!(Model::Gpt4o.id(), "gpt-4o");
    assert_eq!(Model::Gpt4oMini.id(), "gpt-4o-mini");
    assert_eq!(Model::TextEmbedding3Small.id(), "text-embedding-3-small");
    assert_eq!(Model::TextEmbedding3Large.id(), "text-embedding-3-large");
    assert_eq!(Model::TextEmbeddingAda002.id(), "text-embedding-ada-002");
    assert_eq!(Model::Unknown("o3".to_string()).id(), "o3");
    assert_eq!(Model::Gpt4o.name(), "GPT-4o");
    assert_eq!(Model::Gpt4oMini.name(), "GPT-4o Mini");
    assert_eq!(Model::TextEmbedding3Small.name(), "Text Embedding 3 Small");
    assert_eq!(Model::TextEmbedding3Large.name(), "Text Embedding 3 Large");
    assert_eq!(Model::TextEmbeddingAda002.name(), "Text Embedding Ada 002");
    assert_eq!(Model::Unknown("o3".to_string()).name(), "Unknown(o3)");
    let custom = Model::Custom {
        id: "my-model".to_string(),
        name: "Mine".to_string(),
        embedding: true,
        reasoning: true,
        function_calling: false,
    };
    assert_eq!(custom.id(), "my-model");
    assert_eq!(custom.name(), "Mine");
    assert!(custom.embedding() && custom.reasoning() && !custom.function_calling());
    assert_eq!(Model::default(), Model::Gpt4o);
}

#[test]
fn model_capabilities() {
    for model in [Model::Gpt4o, Model::Gpt4oMini] {
        assert!(!model.embedding() && !model.reasoning() && model.function_calling());
    }
    for model in [Model::TextEmbedding3Small, Model::TextEmbedding3Large, Model::TextEmbeddingAda002] {
        assert!(model.embedding() && !model.reasoning() && !model.function_calling());
    }
    let unknown = Model::Unknown("o3".to_string());
    assert!(!unknown.embedding() && !unknown.reasoning() && !unknown.function_calling());
}

#[test]
fn id_of_a_known_model_names_it_again() {
    for model in [
        Model::Gpt4o,
        Model::Gpt4oMini,
        Model::TextEmbedding3Small,
        Model::TextEmbedding3Large,
        Model::TextEmbeddingAda002,
        Model::Unknown("o3".to_string()),
    ] {
        assert_eq!(Model::from_id(&model.id()), model);
    }
}

#[test]
fn wire_names_of_variants() {
    assert_eq!(Role::User.as_str(), "user");
    assert_eq!(Role::Developer.as_str(), "developer");
    assert_eq!(Role::from_name("assistant"), Some(Role::Assistant));
    assert_eq!(Role::from_name("Assistant"), None);
    assert_eq!(Purpose::FineTune.as_str(), "fine-tune");
    assert_eq!(Endpoint::ChatCompletion.as_str(), "/v1/chat/completions");
    assert_eq!(Endpoint::from_name("/v1/embeddings"), Some(Endpoint::Embeddings));
    assert_eq!(Endpoint::from_name("/v1/unknown"), None);
    assert_eq!(AudioFormat::Mp3.as_str(), "mp3");
    assert_eq!(ToolChoiceMode::Never.as_str(), "none");
    assert_eq!(ToolChoiceMode::from_name("none"), Some(ToolChoiceMode::Never));
    assert_eq!(Status3::from_name("in_progress"), Some(Status3::InProgress));
}

#[test]
fn constant_members() {
    assert_eq!(ConstFunction.as_str(), "function");
    assert_eq!(ConstText::default().as_str(), "text");
    assert!(ConstFunction::accepts("function"));
    assert!(!ConstFunction::accepts("Function"));
    assert!(!ConstText::accepts("function"));
}

#[test]
fn status_of_three() {
    assert!(Status3::InProgress.in_progress());
    assert!(!Status3::InProgress.completed());
    assert!(Status3::Completed.completed());
    assert!(!Status3::Completed.incomplete());
    assert!(Status3::Incomplete.incomplete());
    assert!(!Status3::Incomplete.in_progress());
}

#[test]
fn status_with_fallback() {
    assert_eq!(StatusFallback::from_wire("completed".to_string()), StatusFallback::Completed);
    assert_eq!(
        StatusFallback::from_wire("uploaded".to_string()),
        StatusFallback::Fallback("uploaded".to_string())
    );
    assert_eq!(StatusFallback::Completed.as_str(), "completed");
    assert_eq!(StatusFallback::Fallback("uploaded".to_string()).as_str(), "uploaded");
    assert!(StatusFallback::Completed.completed());
    assert!(!StatusFallback::Fallback("completed".to_string()).completed());
}

#[test]
fn request_defaults() {
    let request = EmbeddingRequest::default();
    assert_eq!(request.input, Either::A(String::new()));
    assert_eq!(request.model, Model::TextEmbedding3Large);
    assert_eq!(request.dimensions, None);
    assert_eq!(request.encoding_format, None);
    assert_eq!(request.user, None);
    let message = ChatMessageCommon::<Either<String, Vec<u8>>>::default();
    assert_eq!(message.content, Either::A(String::new()));
    assert_eq!(message.name, None);
}

#[test]
fn stream_options_are_built_step_by_step() {
    let options = SseOptions::new(7u8);
    assert!(!options.drop_event);
    assert_eq!(options.event_handler, 7);
    assert_eq!(options.reconnect, Reconnect { support: false, max_retries: 3, retry_interval: 200 });
    let options = options
        .drop_event(true)
        .event_handler(9u8)
        .reconnect(Reconnect { support: true, max_retries: 1, retry_interval: 50 });
    assert!(options.drop_event);
    assert_eq!(options.event_handler, 9);
    assert_eq!(options.reconnect, Reconnect { support: true, max_retries: 1, retry_interval: 50 });
    assert_eq!(Reconnect::default(), Reconnect { support: false, max_retries: 3, retry_interval: 200 });
}
