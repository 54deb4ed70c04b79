use translator_backend::command::{api_command, api_command_options, CommandError, CommandResult};
use translator_backend::cors::{Method, ResponsePatch, CORS};
use translator_backend::error::Error;

fn lines(patch: &ResponsePatch) -> Vec<(&'static str, &'static str)> {
    patch.headers.iter().map(|h| (h.name, h.value)).collect()
}

fn allow() -> Vec<(&'static str, &'static str)> {
    vec![
        ("Access-Control-Allow-Origin", "*"),
        ("Access-Control-Allow-Methods", "POST, GET, OPTIONS"),
        ("Access-Control-Allow-Headers", "Content-Type"),
        ("Access-Control-Allow-Credentials", "true"),
    ]
}

#[test]
fn a_json_response_gets_the_cross_origin_headers() {
    for method in [Method::Get, Method::Post, Method::Put, Method::Delete, Method::Patch] {
        let patch = CORS.on_response(method, true);
        assert_eq!(lines(&patch), allow());
        assert!(!patch.plain_empty_body);
    }
}

#[test]
fn a_preflight_request_gets_the_headers_and_an_empty_plain_body() {
    for json in [false, true] {
        let patch = CORS.on_response(Method::Options, json);
        assert_eq!(lines(&patch), allow());
        assert!(patch.plain_empty_body);
    }
}

#[test]
fn any_other_response_is_left_alone() {
    for method in [
        Method::Get,
        Method::Put,
        Method::Post,
        Method::Delete,
        Method::Head,
        Method::Trace,
        Method::Connect,
        Method::Patch,
    ] {
        let patch = CORS.on_response(method, false);
        assert!(patch.headers.is_empty());
        assert!(!patch.plain_empty_body);
    }
}

#[test]
fn the_data_of_a_command_are_handed_on() {
    let data = serde_json::Value::String("created".to_string());
    match api_command(Ok(data.clone())) {
        CommandResult::Success { data: sent } => assert_eq!(sent, data),
        other => panic!("{:?}", other),
    }
}

#[test]
fn a_failed_command_shows_its_code_and_nothing_else() {
    for (failure, code) in [
        (Error::InvalidRole, "InvalidRole"),
        (Error::AuthInvalidToken, "AuthInvalidToken"),
        (Error::Forbidden, "Forbidden"),
        (Error::TokenSigning, "TokenSigning"),
        (Error::Hashing, "Hashing"),
        (Error::StorageFailure, "StorageFailure"),
    ] {
        match api_command(Err(failure)) {
            CommandResult::Error { error } => assert_eq!(error.code, code),
            other => panic!("{:?}", other),
        }
        assert_eq!(CommandError::new(failure).code, code);
    }
}

#[test]
fn the_preflight_body_of_the_command_endpoint_is_empty() {
    assert_eq!(api_command_options(), "");
}
