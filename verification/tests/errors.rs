use openagent::api::types::{ApiError, ApiErrorWrapper, ApiResult, Either, ErrorBase};
use openagent::api::unexpected_error;
use openagent::error::{AgentError, Error, ToolError};

fn api_error() -> ApiError {
    ApiError {
        kind: Some("invalid_request_error".to_string()),
        base: ErrorBase { message: "bad \"model\"".to_string(), code: Some(404), param: None },
    }
}

#[test]
fn agent_error_message() {
    assert_eq!(
        AgentError::MaxStepsExceeded(10).message(),
        "maximum steps 10 reached without final answer"
    );
    assert_eq!(
        AgentError::MaxStepsExceeded(0).message(),
        "maximum steps 0 reached without final answer"
    );
    assert_eq!(
        AgentError::MaxStepsExceeded(usize::MAX).message(),
        format!("maximum steps {} reached without final answer", usize::MAX)
    );
}

#[test]
fn tool_error_messages() {
    assert_eq!(ToolError::Unknown("grep".to_string()).message(), "unknown tool: grep");
    assert_eq!(
        ToolError::StreamingNotSupported("grep".to_string()).message(),
        "tool 'grep' does not support streaming"
    );
}

#[test]
fn timeout_message_shows_the_span() {
    assert_eq!(Error::Timeout(300_000).message(), "timeout after 300s");
    assert_eq!(Error::Timeout(1500).message(), "timeout after 1.5s");
    assert_eq!(Error::Timeout(200).message(), "timeout after 200ms");
    assert_eq!(Error::Timeout(0).message(), "timeout after 0ns");
}

#[test]
fn carried_messages_are_passed_on() {
    assert_eq!(Error::any("free text".to_string()), Error::Any("free text".to_string()));
    assert_eq!(Error::Any("free text".to_string()).message(), "free text");
    assert_eq!(Error::Io("broken pipe".to_string()).message(), "broken pipe");
    assert_eq!(Error::Codec("line too long".to_string()).message(), "line too long");
    assert_eq!(Error::Reqwest("dns".to_string()).message(), "dns");
    assert_eq!(Error::SerdeJson("expected value".to_string()).message(), "expected value");
    assert_eq!(
        Error::Agent(AgentError::MaxStepsExceeded(2)).message(),
        "maximum steps 2 reached without final answer"
    );
    assert_eq!(Error::Tool(ToolError::Unknown("x".to_string())).message(), "unknown tool: x");
}

#[test]
fn api_error_message_writes_the_error_out() {
    assert_eq!(
        api_error().message(),
        "ApiError { type: Some(\"invalid_request_error\"), base: ErrorBase { message: \"bad \\\"model\\\"\", code: Some(404), param: None } }"
    );
    assert_eq!(Error::Api(api_error()).message(), api_error().message());
    let bare = ApiError {
        kind: None,
        base: ErrorBase { message: String::new(), code: None, param: Some("n".to_string()) },
    };
    assert_eq!(
        bare.message(),
        "ApiError { type: None, base: ErrorBase { message: \"\", code: None, param: Some(\"n\") } }"
    );
}

#[test]
fn api_result_as_result() {
    assert_eq!(ApiResult::Success(7u8).as_result(), Ok(7u8));
    assert_eq!(
        ApiResult::<u8>::Failure(ApiErrorWrapper { error: api_error() }).as_result(),
        Err(api_error())
    );
}

#[test]
fn unexpected_content_becomes_an_error() {
    assert_eq!(
        unexpected_error(Some(ApiErrorWrapper { error: api_error() }), "{...}".to_string()),
        Error::Api(api_error())
    );
    assert_eq!(
        unexpected_error(None, "502 Bad Gateway".to_string()),
        Error::Any("502 Bad Gateway".to_string())
    );
}

#[test]
fn either_defaults_to_the_first_type() {
    assert_eq!(Either::<String, u8>::default(), Either::A(String::new()));
    assert_eq!(Either::<u8, String>::default(), Either::A(0));
}
