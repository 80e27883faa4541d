//! Turning the outcome of a query into an HTTP status and a JSON body.
use vstd::prelude::*;
use crate::error::QueryError;
use crate::error::message_object;
use crate::text::{cat2, cat3};

verus! {

/// The failure categories of the server; each becomes one error object.
#[derive(Clone, Debug)]
pub enum GraphQLServerError {
    ClientError(String),
    QueryError(QueryError),
    Canceled,
    InternalError(String),
}

pub open spec fn canceled_message() -> Seq<char> {
    "GraphQL server error (query was canceled)"@
}

impl GraphQLServerError {
    /// The message of the failure.
    pub open spec fn message_view(&self) -> Seq<char> {
        match self {
            GraphQLServerError::ClientError(s) => "GraphQL server error (client error): "@ + s@,
            GraphQLServerError::QueryError(e) => "GraphQL server error (query error): "@ + e.message_view(),
            GraphQLServerError::Canceled => canceled_message(),
            GraphQLServerError::InternalError(s) => "GraphQL server error (internal error): "@ + s@,
        }
    }

    /// The JSON error object of the failure: a query error brings its own,
    /// the others hold their message.
    pub open spec fn json_view(&self) -> Seq<char> {
        match self {
            GraphQLServerError::QueryError(e) => e.json_view(),
            _ => message_object(self.message_view()),
        }
    }

    /// The message of the failure.
    pub fn message(&self) -> (r: String)
        ensures
            r@ == self.message_view(),
    {
        match self {
            GraphQLServerError::ClientError(s) => cat2("GraphQL server error (client error): ", s.as_str()),
            GraphQLServerError::QueryError(e) => {
                let m = e.message();
                cat2("GraphQL server error (query error): ", m.as_str())
            },
            GraphQLServerError::Canceled => "GraphQL server error (query was canceled)".to_owned(),
            GraphQLServerError::InternalError(s) => cat2("GraphQL server error (internal error): ", s.as_str()),
        }
    }

    /// Serializes the failure as a JSON error object.
    pub fn to_json(&self) -> (r: String)
        ensures
            r@ == self.json_view(),
    {
        match self {
            GraphQLServerError::QueryError(e) => e.to_json(),
            _ => {
                let m = self.message();
                crate::error::message_json(m.as_str())
            },
        }
    }
}

impl From<QueryError> for GraphQLServerError {
    fn from(e: QueryError) -> (r: GraphQLServerError)
        ensures
            r == GraphQLServerError::QueryError(e),
    {
        GraphQLServerError::QueryError(e)
    }
}

impl vstd::std_specs::convert::FromSpecImpl<QueryError> for GraphQLServerError {
    open spec fn obeys_from_spec() -> bool {
        true
    }

    open spec fn from_spec(e: QueryError) -> GraphQLServerError {
        GraphQLServerError::QueryError(e)
    }
}

/// The HTTP status of an outcome: 200 on success, 400 for client and
/// query errors, 500 for canceled queries and internal errors.
pub open spec fn status_of(result: Result<String, GraphQLServerError>) -> u16 {
    match result {
        Ok(_) => 200,
        Err(GraphQLServerError::ClientError(_)) => 400,
        Err(GraphQLServerError::QueryError(_)) => 400,
        Err(GraphQLServerError::Canceled) => 500,
        Err(GraphQLServerError::InternalError(_)) => 500,
    }
}

/// The JSON body of an outcome: the payload's own JSON text on success,
/// an `errors` array with the one error object on failure.
pub open spec fn body_of(result: Result<String, GraphQLServerError>) -> Seq<char> {
    match result {
        Ok(payload) => payload@,
        Err(e) => "{\"errors\":["@ + e.json_view() + "]}"@,
    }
}

/// The HTTP response to a query: the outcome of running it, whose success
/// payload is the JSON text of the query result.
pub struct GraphQLResponse {
    pub result: Result<String, GraphQLServerError>,
}

impl GraphQLResponse {
    /// Creates the response to the outcome of running a query.
    pub fn new(result: Result<String, GraphQLServerError>) -> (r: Self)
        ensures
            r.result == result,
    {
        GraphQLResponse { result }
    }

    /// The HTTP status code of the response.
    pub fn status_code(&self) -> (r: u16)
        ensures
            r == status_of(self.result),
    {
        match &self.result {
            Ok(_) => 200,
            Err(GraphQLServerError::ClientError(_)) | Err(GraphQLServerError::QueryError(_)) => 400,
            Err(GraphQLServerError::Canceled) | Err(GraphQLServerError::InternalError(_)) => 500,
        }
    }

    /// The JSON text of the response body.
    pub fn body(&self) -> (r: String)
        ensures
            r@ == body_of(self.result),
    {
        match &self.result {
            Ok(payload) => payload.clone(),
            Err(e) => {
                let obj = e.to_json();
                cat3("{\"errors\":[", obj.as_str(), "]}")
            },
        }
    }

    /// The headers every response carries, which let browsers of any
    /// origin send queries.
    pub fn headers() -> (r: Vec<(&'static str, &'static str)>)
        ensures
            r@.len() == 3,
            r@[0].0@ == "Access-Control-Allow-Origin"@ && r@[0].1@ == "*"@,
            r@[1].0@ == "Access-Control-Allow-Headers"@ && r@[1].1@ == "Content-Type"@,
            r@[2].0@ == "Access-Control-Allow-Methods"@ && r@[2].1@ == "GET, OPTIONS, POST"@,
    {
        vec![
            ("Access-Control-Allow-Origin", "*"),
            ("Access-Control-Allow-Headers", "Content-Type"),
            ("Access-Control-Allow-Methods", "GET, OPTIONS, POST"),
        ]
    }
}

} // verus!
