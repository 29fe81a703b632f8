use jsontp::{dispatch, resolution, respond, Body, Dispatch, Fields, JsonValue, JsontpRequest, JsontpResponse};

fn valid() -> JsontpRequest {
    let mut headers = Fields::new();
    headers.insert("Accept".to_string(), JsonValue::Text("text/plain".to_string()));
    let mut other = Fields::new();
    other.insert("note".to_string(), JsonValue::Nested("{\"a\":[1,2]}".to_string()));
    JsontpRequest {
        jsontp: "1.0".to_string(),
        type_of_request: "request".to_string(),
        method: "GET".to_string(),
        resource: "notes/today.txt".to_string(),
        headers,
        body: Body { content: "-".to_string(), encoding: "gzip".to_string(), other },
    }
}

fn served_headers() -> Fields {
    let mut headers = Fields::new();
    headers.insert("date".to_string(), JsonValue::Text(String::new()));
    headers.insert("language".to_string(), JsonValue::Text("en-GB".to_string()));
    headers
}

#[test]
fn found_resource_is_served() {
    let response = respond(Some(valid()), Some("the content".to_string()));
    assert_eq!(response.jsontp, "1.0");
    assert_eq!(response.type_of_response, "response");
    assert_eq!(response.status.code, 200);
    assert_eq!(response.status.formal_message, "OK");
    assert_eq!(response.status.human_message, "Request was successful");
    assert_eq!(response.resource, "notes/today.txt");
    assert_eq!(response.headers, served_headers());
    assert_eq!(response.body.content, "the content");
    assert_eq!(response.body.encoding, "identity");
    assert_eq!(response.body.other, Fields::new());
}

#[test]
fn found_empty_resource_is_served() {
    let response = respond(Some(valid()), Some(String::new()));
    assert_eq!(response.status.code, 200);
    assert_eq!(response.body.content, "");
}

#[test]
fn missing_resource_is_not_found() {
    let response = respond(Some(valid()), None);
    assert_eq!(response.jsontp, "1.0");
    assert_eq!(response.type_of_response, "response");
    assert_eq!(response.status.code, 404);
    assert_eq!(response.status.formal_message, "Not Found");
    assert_eq!(response.status.human_message, "Resource not found");
    assert_eq!(response.resource, "notes/today.txt");
    assert_eq!(response.headers, served_headers());
    assert_eq!(response.body.content, "");
    assert_eq!(response.body.encoding, "identity");
    assert_eq!(response.body.other, Fields::new());
}

#[test]
fn malformed_input_is_a_bad_request() {
    let response = respond(None, Some("ignored".to_string()));
    assert_eq!(response.jsontp, "1.0");
    assert_eq!(response.type_of_response, "response");
    assert_eq!(response.status.code, 400);
    assert_eq!(response.status.formal_message, "Bad Request");
    assert_eq!(response.status.human_message, "Request was not a valid JSONTP request");
    assert_eq!(response.resource, "");
    assert_eq!(response.headers, Fields::new());
    assert_eq!(response.body.content, "");
    assert_eq!(response.body.encoding, "");
    assert_eq!(response.body.other, Fields::new());
    assert_eq!(response, JsontpResponse::malformed());
}

#[test]
fn rejected_request_comes_back() {
    let mut request = valid();
    request.method = "PATCH".to_string();
    let response = respond(Some(request.clone()), Some("ignored".to_string()));
    assert_eq!(response.jsontp, "1.0");
    assert_eq!(response.type_of_response, "response");
    assert_eq!(response.status.code, 400);
    assert_eq!(response.status.formal_message, "Bad Request");
    assert_eq!(response.status.human_message, "Bad Request");
    assert_eq!(response.resource, request.resource);
    assert_eq!(response.headers, request.headers);
    assert_eq!(response.body, request.body);
}

#[test]
fn unsupported_version_is_answered_with_505() {
    let mut request = valid();
    request.jsontp = "1.1".to_string();
    let response = respond(Some(request.clone()), None);
    assert_eq!(response.jsontp, "1.0");
    assert_eq!(response.status.code, 505);
    assert_eq!(response.status.formal_message, "HTTP Version Not Supported");
    assert_eq!(response.status.human_message, "HTTP Version Not Supported");
    assert_eq!(response.body, request.body);
}

#[test]
fn unknown_header_is_answered_with_400() {
    let mut request = valid();
    request.headers.insert("x-trace".to_string(), JsonValue::Number("7".to_string()));
    let response = respond(Some(request.clone()), Some("ignored".to_string()));
    assert_eq!(response.status.code, 400);
    assert_eq!(response.status.formal_message, "Bad Request hea");
    assert_eq!(response.status.human_message, "Bad Request hea");
    assert_eq!(response.headers, request.headers);

    request.headers.insert("ignore-invalid-headers".to_string(), JsonValue::Bool(true));
    let response = respond(Some(request), Some("kept".to_string()));
    assert_eq!(response.status.code, 200);
    assert_eq!(response.body.content, "kept");
}

#[test]
fn each_broken_rule_has_its_status() {
    let mut wrong_type = valid();
    wrong_type.type_of_request = "reply".to_string();
    let mut no_resource = valid();
    no_resource.resource = String::new();
    let mut no_content = valid();
    no_content.body.content = String::new();
    let mut no_encoding = valid();
    no_encoding.body.encoding = String::new();
    let mut no_method = valid();
    no_method.method = String::new();
    let mut odd_encoding = valid();
    odd_encoding.body.encoding = "lz4".to_string();
    for request in [wrong_type, no_resource, no_content, no_encoding, no_method, odd_encoding] {
        let response = respond(Some(request), Some("ignored".to_string()));
        assert_eq!(response.status.code, 400);
        assert_eq!(response.status.formal_message, "Bad Request");
    }
}

#[test]
fn same_request_same_response() {
    let first = respond(Some(valid()), Some("stored".to_string()));
    let second = respond(Some(valid()), Some("stored".to_string()));
    assert_eq!(first, second);
    let first = respond(Some(valid()), None);
    let second = respond(Some(valid()), None);
    assert_eq!(first, second);
}

#[test]
fn valid_request_is_handed_on_unchanged() {
    assert_eq!(dispatch(Some(valid())), Dispatch::Resolve(valid()));
}

#[test]
fn invalid_request_is_answered_at_once() {
    let mut request = valid();
    request.body.encoding = "none".to_string();
    let expected = JsontpResponse::rejected(request.clone(), "Bad Request".to_string(), 400);
    assert_eq!(dispatch(Some(request)), Dispatch::Respond(expected));
    assert_eq!(dispatch(None), Dispatch::Respond(JsontpResponse::malformed()));
}

#[test]
fn resolved_takes_the_stored_content() {
    let response = JsontpResponse::resolved(valid(), Some("abc".to_string()));
    assert_eq!(response, respond(Some(valid()), Some("abc".to_string())));
    let response = JsontpResponse::resolved(valid(), None);
    assert_eq!(response.status.code, 404);
}

#[test]
fn every_read_failure_is_a_miss() {
    assert_eq!(resolution::<()>(Ok("abc".to_string())), Some("abc".to_string()));
    assert_eq!(resolution(Err("permission denied")), None);
    assert_eq!(resolution(Err(2)), None);
}
