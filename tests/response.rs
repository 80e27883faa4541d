use graphql_response::error::QueryError;
use graphql_response::response::{GraphQLResponse, GraphQLServerError};
use std::sync::Arc;

fn parse_error_text(query: &str) -> String {
    graphql_parser::parse_query(query)
        .expect_err("Should fail parsing an invalid query")
        .to_string()
}

fn assert_error_response(response: &GraphQLResponse, status: u16) -> Vec<serde_json::Value> {
    assert_eq!(response.status_code(), status);
    let body: serde_json::Value = serde_json::from_str(&response.body()).expect("body is JSON");
    let object = body.as_object().expect("body is an object");
    assert!(object.get("data").is_none());
    object
        .get("errors")
        .expect("body has errors")
        .as_array()
        .expect("errors is an array")
        .clone()
}

fn assert_successful_response(response: &GraphQLResponse) -> serde_json::Map<String, serde_json::Value> {
    assert_eq!(response.status_code(), 200);
    let body: serde_json::Value = serde_json::from_str(&response.body()).expect("body is JSON");
    let object = body.as_object().expect("body is an object");
    assert!(object.get("errors").is_none());
    object
        .get("data")
        .expect("body has data")
        .as_object()
        .expect("data is an object")
        .clone()
}

fn error_message(error: &serde_json::Value) -> String {
    error
        .as_object()
        .expect("Error is not an object")
        .get("message")
        .expect("Error contains no message")
        .as_str()
        .expect("Error message is not a string")
        .to_string()
}

#[test]
fn generates_500_for_internal_errors() {
    let response = GraphQLResponse::new(Err(GraphQLServerError::InternalError("Some error".to_string())));
    assert_error_response(&response, 500);
}

#[test]
fn generates_401_for_client_errors() {
    let error = GraphQLServerError::ClientError(String::from("foo"));
    let response = GraphQLResponse::new(Err(error));
    assert_error_response(&response, 400);
}

#[test]
fn generates_401_for_query_errors() {
    let query_error = QueryError::ParseError(Arc::new(parse_error_text("<>?><")));
    let response = GraphQLResponse::new(Err(GraphQLServerError::from(query_error)));
    assert_error_response(&response, 400);
}

#[test]
fn generates_200_for_query_results() {
    let response = GraphQLResponse::new(Ok("{\"data\":{}}".to_string()));
    assert_successful_response(&response);
}

#[test]
fn generates_valid_json_for_an_empty_result() {
    let response = GraphQLResponse::new(Ok("{\"data\":{}}".to_string()));
    let data = assert_successful_response(&response);
    assert!(data.is_empty());
}

#[test]
fn generates_valid_json_when_canceled() {
    let response = GraphQLResponse::new(Err(GraphQLServerError::Canceled));
    let errors = assert_error_response(&response, 500);
    assert_eq!(errors.len(), 1);
    assert_eq!(error_message(&errors[0]), "GraphQL server error (query was canceled)");
}

#[test]
fn generates_valid_json_for_client_error() {
    let err = GraphQLServerError::ClientError(String::from("Something went wrong"));
    let response = GraphQLResponse::new(Err(err));
    let errors = assert_error_response(&response, 400);
    assert_eq!(errors.len(), 1);
    assert_eq!(
        error_message(&errors[0]),
        "GraphQL server error (client error): Something went wrong"
    );
}

#[test]
fn generates_valid_json_for_query_error() {
    let query_error = QueryError::ParseError(Arc::new(parse_error_text("<><?")));
    let err = GraphQLServerError::QueryError(query_error);
    let response = GraphQLResponse::new(Err(err));
    let errors = assert_error_response(&response, 400);
    assert_eq!(errors.len(), 1);
    assert_eq!(
        error_message(&errors[0]),
        "Unexpected `unexpected character \
         \'<\'`\nExpected `{`, `query`, `mutation`, \
         `subscription` or `fragment`"
    );
    let locations = errors[0]
        .as_object()
        .expect("Query error is not an object")
        .get("locations")
        .expect("Query error contains not locations")
        .as_array()
        .expect("Query error \"locations\" field is not an array");
    let location = locations[0]
        .as_object()
        .expect("Query error location is not an object");
    let line = location
        .get("line")
        .expect("Query error location is missing a \"line\" field")
        .as_u64()
        .expect("Query error location \"line\" field is not a u64");
    assert_eq!(line, 1);
    let column = location
        .get("column")
        .expect("Query error location is missing a \"column\" field")
        .as_u64()
        .expect("Query error location \"column\" field is not a u64");
    assert_eq!(column, 1);
}

#[test]
fn generates_valid_json_for_internal_error() {
    let err = GraphQLServerError::InternalError(String::from("Something went wrong"));
    let response = GraphQLResponse::new(Err(err));
    let errors = assert_error_response(&response, 500);
    assert_eq!(errors.len(), 1);
    assert_eq!(
        error_message(&errors[0]),
        "GraphQL server error (internal error): Something went wrong"
    );
}

#[test]
fn parse_diagnostic_without_column_digits_keeps_whole_text() {
    // The text after the last colon of the first line holds no digits, so no
    // position can be read and the whole diagnostic becomes the message.
    let d = "query parse error:1,1: unexpected character '<'\nExpected ...";
    let err = GraphQLServerError::QueryError(QueryError::ParseError(Arc::new(d.to_string())));
    let response = GraphQLResponse::new(Err(err));
    assert_eq!(response.status_code(), 400);
    assert_eq!(
        response.body(),
        "{\"errors\":[{\"message\":\"query parse error:1,1: unexpected character '<'\\nExpected ...\"}]}"
    );
}

#[test]
fn parse_diagnostic_with_position_body() {
    let d = "query parse error: Parse error at 1:1\nunexpected character '<'\nExpected ...\n";
    let err = GraphQLServerError::QueryError(QueryError::ParseError(Arc::new(d.to_string())));
    let response = GraphQLResponse::new(Err(err));
    assert_eq!(response.status_code(), 400);
    assert_eq!(
        response.body(),
        "{\"errors\":[{\"locations\":[{\"line\":1,\"column\":1}],\"message\":\"unexpected character '<'\\nExpected ...\"}]}"
    );
}

#[test]
fn malformed_diagnostic_keeps_whole_text() {
    let d = "no position here";
    let err = QueryError::ParseError(Arc::new(d.to_string()));
    assert_eq!(err.to_json(), "{\"message\":\"no position here\"}");
}

#[test]
fn success_payload_passes_unchanged() {
    let payload = "{\"data\":{\"a\":[1,2]}}".to_string();
    let response = GraphQLResponse::new(Ok(payload.clone()));
    assert_eq!(response.body(), payload);
    assert_eq!(response.status_code(), 200);
}

#[test]
fn status_mapping_covers_every_category() {
    let q = QueryError::EncodingError("bad bytes".to_string());
    assert_eq!(GraphQLResponse::new(Ok("{}".to_string())).status_code(), 200);
    assert_eq!(GraphQLResponse::new(Err(GraphQLServerError::ClientError("x".to_string()))).status_code(), 400);
    assert_eq!(GraphQLResponse::new(Err(GraphQLServerError::QueryError(q))).status_code(), 400);
    assert_eq!(GraphQLResponse::new(Err(GraphQLServerError::Canceled)).status_code(), 500);
    assert_eq!(GraphQLResponse::new(Err(GraphQLServerError::InternalError("x".to_string()))).status_code(), 500);
}

#[test]
fn fixed_cors_headers() {
    assert_eq!(
        GraphQLResponse::headers(),
        vec![
            ("Access-Control-Allow-Origin", "*"),
            ("Access-Control-Allow-Headers", "Content-Type"),
            ("Access-Control-Allow-Methods", "GET, OPTIONS, POST"),
        ]
    );
}
