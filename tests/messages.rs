use graphql_response::diagnostic::locate;
use graphql_response::error::{Pos, QueryError, QueryExecutionError};
use graphql_response::response::{GraphQLResponse, GraphQLServerError};

fn pos(line: usize, column: usize) -> Pos {
    Pos { line, column }
}

#[test]
fn range_arguments_message() {
    let e = QueryExecutionError::RangeArgumentsError(vec!["first", "skip", "foo"], 100);
    assert_eq!(
        e.message(),
        "Value of \"first\" must be between 1 and 100, Value of \"skip\" must be greater than 0, Value of \"foo\" is must be an integer"
    );
}

#[test]
fn range_arguments_without_arguments_is_empty() {
    let e = QueryExecutionError::RangeArgumentsError(vec![], 100);
    assert_eq!(e.message(), "");
}

#[test]
fn too_deep_message_and_object() {
    let e = QueryExecutionError::TooDeep(5);
    assert_eq!(e.message(), "query has a depth that exceeds the limit of `5`");
    let json = QueryError::ExecutionError(e).to_json();
    assert_eq!(json, "{\"message\":\"query has a depth that exceeds the limit of `5`\"}");
    assert!(!json.contains("locations"));
}

#[test]
fn too_complex_names_both_numbers() {
    let e = QueryExecutionError::TooComplex(1234567, 0);
    assert_eq!(
        e.message(),
        "query potentially returns `1234567` entities or more and thereby exceeds the limit of `0` entities. Possible solutions are reducing the depth of the query, querying fewer relationships or using `first` to return smaller collections"
    );
}

#[test]
fn positioned_failure_reports_its_location() {
    let e = QueryExecutionError::UnknownField(pos(12, 34), "User".to_string(), "nmae".to_string());
    assert_eq!(
        QueryError::ExecutionError(e).to_json(),
        "{\"locations\":[{\"line\":12,\"column\":34}],\"message\":\"Type `User` has no field `nmae`\"}"
    );
}

#[test]
fn enum_coercion_lists_possible_values() {
    let e = QueryExecutionError::EnumCoercionError(
        pos(1, 2),
        "color".to_string(),
        "PURPLE".to_string(),
        "Color".to_string(),
        vec!["RED".to_string(), "GREEN".to_string()],
    );
    assert_eq!(
        e.message(),
        "Failed to coerce value `PURPLE` of field `color` to enum type `Color`. Possible values are: RED, GREEN"
    );
    assert_eq!(e.position(), Some(pos(1, 2)));
}

#[test]
fn prefetch_object_has_four_keys() {
    let e = QueryExecutionError::IncorrectPrefetchResult {
        slow: "{\"a\":1}".to_string(),
        prefetch: "{\"a\":2}".to_string(),
    };
    let json = QueryError::ExecutionError(e).to_json();
    let value: serde_json::Value = serde_json::from_str(&json).expect("valid JSON");
    let object = value.as_object().expect("an object");
    assert_eq!(object.len(), 4);
    assert_eq!(object.get("incorrectPrefetch"), Some(&serde_json::Value::Bool(true)));
    assert_eq!(object.get("single").unwrap()["a"], 1);
    assert_eq!(object.get("prefetch").unwrap()["a"], 2);
    assert!(object.get("locations").is_none());
    assert!(object.get("message").unwrap().as_str().unwrap().starts_with("Running query with prefetch"));
}

#[test]
fn messages_are_escaped_in_json() {
    let e = QueryExecutionError::Panic("say \"hi\"".to_string());
    assert_eq!(
        QueryError::ExecutionError(e).to_json(),
        "{\"message\":\"panic processing query: say \\\"hi\\\"\"}"
    );
}

#[test]
fn every_message_is_nonempty_single_line() {
    let all = vec![
        QueryExecutionError::OperationNameRequired,
        QueryExecutionError::EmptyQuery,
        QueryExecutionError::Timeout,
        QueryExecutionError::TooExpensive,
        QueryExecutionError::Throttled,
        QueryExecutionError::EventStreamError,
        QueryExecutionError::InvalidFilterError,
        QueryExecutionError::NotSupported("x".to_string()),
        QueryExecutionError::StoreError(graphql_response::error::CloneableFailureError::new("db down".to_string())),
    ];
    for e in all {
        let m = e.message();
        assert!(!m.is_empty());
        assert!(!m.contains('\n'));
        assert_eq!(m, e.clone().message());
    }
}

#[test]
fn store_error_keeps_cause_text() {
    let e = QueryExecutionError::from_store_error("connection refused".to_string());
    assert_eq!(e.message(), "Store error: connection refused");
}

#[test]
fn hex_error_becomes_value_parse_error() {
    let err = hex::decode("abc").unwrap_err();
    let e = QueryExecutionError::from_hex_error(&err);
    assert_eq!(e.message(), "Failed to decode `Bytes` value: `Odd number of digits`");
}

#[test]
fn bigint_error_becomes_value_parse_error() {
    let err = "x1".parse::<num_bigint::BigInt>().unwrap_err();
    let e = QueryExecutionError::from_bigint_error(&err);
    assert_eq!(e.message(), format!("Failed to decode `BigInt` value: `{}`", err));
}

#[test]
fn bigdecimal_error_becomes_value_parse_error() {
    let err = "x1".parse::<bigdecimal::BigDecimal>().unwrap_err();
    let e = QueryExecutionError::from_bigdecimal_error(&err);
    assert_eq!(e.message(), format!("Failed to decode `BigDecimal` value: `{}`", err));
}

#[test]
fn locate_reads_line_and_column() {
    assert_eq!(
        locate("query parse error: Parse error at 3:17\nUnexpected `}`\n"),
        Some((3, 17, "Unexpected `}`".to_string()))
    );
    assert_eq!(locate("query parse error: Parse error at 3:17"), None);
    assert_eq!(locate("at 99999999999:1\nx"), None);
}

#[test]
fn query_error_message_through_server_error() {
    let q = QueryError::from(QueryExecutionError::EmptyQuery);
    assert_eq!(q.message(), "The query is empty");
    assert_eq!(
        GraphQLServerError::QueryError(q).message(),
        "GraphQL server error (query error): The query is empty"
    );
    let r = GraphQLResponse::new(Err(GraphQLServerError::Canceled));
    assert_eq!(r.body(), "{\"errors\":[{\"message\":\"GraphQL server error (query was canceled)\"}]}");
}

#[test]
fn query_error_has_no_indirect_weight() {
    let q = QueryError::EncodingError("invalid utf-8 sequence".to_string());
    assert_eq!(q.indirect_weight(), 0);
}
