use openagent::api::batch::{BatchRequest, Endpoint};
use openagent::api::embedding::EncodingFormat;
use openagent::api::types::{ImageDetail, ServiceTier};
use openagent::json::JsonValue;

/// The JSON text of a variant's name, as it goes over the wire.
fn written(name: &str) -> String {
    JsonValue::String(name.to_string()).render()
}

/// The name that a JSON text holds.
fn read(text: &str) -> String {
    JsonValue::parse(text).unwrap().as_str().unwrap().to_string()
}

#[test]
fn default_value_should_work() {
    let status = Endpoint::default();
    assert_eq!(status, Endpoint::Response);
}

#[test]
fn default_at_end_should_work() {
    let status = ImageDetail::default();
    assert_eq!(status, ImageDetail::Auto);
}

#[test]
fn util_serialization_should_work() {
    let status = ServiceTier::Auto;
    let serialized = written(status.as_str());
    assert_eq!(serialized, "\"auto\"");

    let status = ServiceTier::Flex;
    let serialized = written(status.as_str());
    assert_eq!(serialized, "\"flex\"");
}

#[test]
fn util_deserialization_should_work() {
    let deserialized = ServiceTier::from_name(&read("\"auto\"")).unwrap();
    assert_eq!(deserialized, ServiceTier::Auto);

    let deserialized = ServiceTier::from_name(&read("\"flex\"")).unwrap();
    assert_eq!(deserialized, ServiceTier::Flex);

    assert_eq!(ServiceTier::from_name(&read("\"fast\"")), None);
}

#[test]
fn default_of_encoding_format_is_float() {
    assert_eq!(EncodingFormat::default(), EncodingFormat::Float);
}

#[test]
fn default_batch_request_is_for_responses() {
    let request = BatchRequest::default();
    assert_eq!(request.endpoint, Endpoint::Response);
    assert_eq!(request.completion_window.as_str(), "24h");
    assert_eq!(request.input_file_id, "");
    assert_eq!(request.metadata, None);
}
