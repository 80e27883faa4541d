//! Laws that hold across the messages, error objects and responses.
use vstd::prelude::*;
use crate::error::{
    located_object, message_object, prefetch_object, range_clause, range_clauses,
    QueryError, QueryExecutionError,
};
use crate::response::{body_of, status_of, GraphQLResponse, GraphQLServerError};
use crate::text::{join, lemma_concat_single_line, lemma_dec_single_line, lemma_join_single_line, single_line};

verus! {

proof fn lemma_join_nonempty(items: Seq<Seq<char>>, sep: Seq<char>)
    requires
        items.len() > 0,
        items.last().len() > 0,
    ensures
        join(items, sep).len() > 0,
{
}

/// The message of an execution failure is never empty, but for a range
/// violation that names no argument, and equal failures have equal
/// messages.
pub proof fn lemma_message_nonempty(e: QueryExecutionError, other: QueryExecutionError)
    requires
        !(e matches QueryExecutionError::RangeArgumentsError(args, _) && args@.len() == 0),
    ensures
        e.message_view().len() > 0,
        e == other ==> e.message_view() == other.message_view(),
{
    reveal_strlit("Operation name required");
    reveal_strlit("Operation name not found `");
    reveal_strlit("Not supported: ");
    reveal_strlit("No root Query type defined in the schema");
    reveal_strlit("No root Subscription type defined in the schema");
    reveal_strlit("Null value resolved for non-null field `");
    reveal_strlit("Non-list value resolved for list field `");
    reveal_strlit("Failed to resolve named type `");
    reveal_strlit("Failed to resolve abstract type `");
    reveal_strlit("Invalid value provided for argument `");
    reveal_strlit("No value provided for required argument: `");
    reveal_strlit("Variable `");
    reveal_strlit("No value provided for required variable `");
    reveal_strlit("Failed to get `");
    reveal_strlit("Failed to get entities from store: ");
    reveal_strlit("Ordering by `");
    reveal_strlit("Ordering by `");
    reveal_strlit("Filter not supported by value `");
    reveal_strlit("Type `");
    reveal_strlit("The query is empty");
    reveal_strlit("Only a single top-level field is allowed in subscriptions");
    reveal_strlit("Failed to get subgraph ID from type: `");
    reveal_strlit("Filter must by an object");
    reveal_strlit("Entity `");
    reveal_strlit("Values passed to filter `");
    reveal_strlit("Non-list value passed to `");
    reveal_strlit("Failed to decode `");
    reveal_strlit("Query contains value with invalid type `");
    reveal_strlit("Broken entity found in store: ");
    reveal_strlit("Store error: ");
    reveal_strlit("Query timed out");
    reveal_strlit("Selection set for type `");
    reveal_strlit("Ambiguous result for derived field `");
    reveal_strlit("Feature `");
    reveal_strlit("Failed to coerce value `");
    reveal_strlit("Failed to coerce value `");
    reveal_strlit("query potentially returns `");
    reveal_strlit("query has a depth that exceeds the limit of `");
    reveal_strlit("query is too expensive");
    reveal_strlit("service is overloaded and can not run the query right now. Please try again in a few minutes");
    reveal_strlit("fragment `");
    reveal_strlit("panic processing query: ");
    reveal_strlit("error in the subscription event stream");
    reveal_strlit("fulltext search queries can only use EntityFilter::Equal");
    reveal_strlit("Running query with prefetch and slow query resolution yielded different results. This is a bug. Please open an issue at https://github.com/graphprotocol/graph-node");
    reveal_strlit("Value of \"first\" must be between 1 and ");
    reveal_strlit("Value of \"skip\" must be greater than 0");
    reveal_strlit("Value of \"");
    match e {
        QueryExecutionError::RangeArgumentsError(args, limit) => {
            let cs = range_clauses(args@, limit as nat);
            assert(cs.last() == range_clause(args@.last()@, limit as nat));
            lemma_join_nonempty(cs, ", "@);
        },
        _ => {
            assert(e.message_view().len() > 0);
        },
    }
}

/// A failure that carries a position reports exactly that position, with
/// its message, in its error object.
pub proof fn lemma_position_reported(e: QueryExecutionError)
    requires
        e.position_view() is Some,
    ensures
        QueryError::ExecutionError(e).json_view() == located_object(
            e.position_view().unwrap().line as nat,
            e.position_view().unwrap().column as nat,
            e.message_view(),
        ),
{
}

/// The error object of a diverging-results failure holds its two results,
/// a flag and the message; every other error object holds a message and
/// at most a location besides.
pub proof fn lemma_error_object_keys(q: QueryError)
    ensures
        q matches QueryError::ExecutionError(QueryExecutionError::IncorrectPrefetchResult { slow, prefetch })
            ==> q.json_view() == prefetch_object(slow@, prefetch@),
        !(q matches QueryError::ExecutionError(QueryExecutionError::IncorrectPrefetchResult { .. }))
            ==> (exists|m: Seq<char>| q.json_view() == message_object(m))
                || (exists|l: nat, c: nat, m: Seq<char>| q.json_view() == located_object(l, c, m)),
{
    match q {
        QueryError::ParseError(d) => {
            match crate::diagnostic::located((*d)@) {
                Some((l, c, m)) => {
                    assert(q.json_view() == located_object(l, c, m));
                },
                None => {
                    assert(q.json_view() == message_object((*d)@));
                },
            }
        },
        QueryError::ExecutionError(QueryExecutionError::IncorrectPrefetchResult { .. }) => {},
        QueryError::ExecutionError(e) => {
            match e.position_view() {
                Some(p) => {
                    assert(q.json_view() == located_object(p.line as nat, p.column as nat, e.message_view()));
                },
                None => {
                    assert(q.json_view() == message_object(e.message_view()));
                },
            }
        },
        QueryError::EncodingError(t) => {
            assert(q.json_view() == message_object(t@));
        },
    }
}

/// A successful outcome's body is its payload unchanged; a failed one's
/// is an `errors` array with exactly the failure's error object.
pub proof fn lemma_body_round_trip(result: Result<String, GraphQLServerError>)
    ensures
        result matches Ok(p) ==> body_of(result) == p@,
        result matches Err(e) ==> body_of(result) == "{\"errors\":["@ + e.json_view() + "]}"@,
{
}

/// Success gives 200, client and query errors 400, canceled queries and
/// internal errors 500.
pub proof fn lemma_status_classes(result: Result<String, GraphQLServerError>)
    ensures
        result is Ok <==> status_of(result) == 200,
        (result matches Err(GraphQLServerError::ClientError(_)) || result matches Err(GraphQLServerError::QueryError(_)))
            <==> status_of(result) == 400,
        (result matches Err(GraphQLServerError::Canceled) || result matches Err(GraphQLServerError::InternalError(_)))
            <==> status_of(result) == 500,
{
}

/// The message of an execution failure holds no line break, where the
/// texts it shows hold none.
pub proof fn lemma_message_single_line(e: QueryExecutionError)
    requires
        e.shown_text_single_line(),
    ensures
        single_line(e.message_view()),
{
    broadcast use lemma_concat_single_line;
    match &e {
        QueryExecutionError::OperationNameRequired => {
            reveal_strlit("Operation name required");
        },
        QueryExecutionError::OperationNotFound(s) => {
            reveal_strlit("Operation name not found `");
            reveal_strlit("`");
        },
        QueryExecutionError::NotSupported(s) => {
            reveal_strlit("Not supported: ");
        },
        QueryExecutionError::NoRootQueryObjectType => {
            reveal_strlit("No root Query type defined in the schema");
        },
        QueryExecutionError::NoRootSubscriptionObjectType => {
            reveal_strlit("No root Subscription type defined in the schema");
        },
        QueryExecutionError::NonNullError(_, s) => {
            reveal_strlit("Null value resolved for non-null field `");
            reveal_strlit("`");
        },
        QueryExecutionError::ListValueError(_, s) => {
            reveal_strlit("Non-list value resolved for list field `");
            reveal_strlit("`");
        },
        QueryExecutionError::NamedTypeError(s) => {
            reveal_strlit("Failed to resolve named type `");
            reveal_strlit("`");
        },
        QueryExecutionError::AbstractTypeError(s) => {
            reveal_strlit("Failed to resolve abstract type `");
            reveal_strlit("`");
        },
        QueryExecutionError::InvalidArgumentError(_, s, v) => {
            reveal_strlit("Invalid value provided for argument `");
            reveal_strlit("`: ");
        },
        QueryExecutionError::MissingArgumentError(_, s) => {
            reveal_strlit("No value provided for required argument: `");
            reveal_strlit("`");
        },
        QueryExecutionError::InvalidVariableTypeError(_, s) => {
            reveal_strlit("Variable `");
            reveal_strlit("` must have an input type");
        },
        QueryExecutionError::MissingVariableError(_, s) => {
            reveal_strlit("No value provided for required variable `");
            reveal_strlit("`");
        },
        QueryExecutionError::ResolveEntityError(_, entity, id, e) => {
            reveal_strlit("Failed to get `");
            reveal_strlit("` entity with ID `");
            reveal_strlit("` from store: ");
        },
        QueryExecutionError::ResolveEntitiesError(e) => {
            reveal_strlit("Failed to get entities from store: ");
        },
        QueryExecutionError::OrderByNotSupportedError(entity, field) => {
            reveal_strlit("Ordering by `");
            reveal_strlit("` is not supported for type `");
            reveal_strlit("`");
        },
        QueryExecutionError::OrderByNotSupportedForType(t) => {
            reveal_strlit("Ordering by `");
            reveal_strlit("` fields is not supported");
        },
        QueryExecutionError::FilterNotSupportedError(value, filter) => {
            reveal_strlit("Filter not supported by value `");
            reveal_strlit("`: `");
            reveal_strlit("`");
        },
        QueryExecutionError::UnknownField(_, t, s) => {
            reveal_strlit("Type `");
            reveal_strlit("` has no field `");
            reveal_strlit("`");
        },
        QueryExecutionError::EmptyQuery => {
            reveal_strlit("The query is empty");
        },
        QueryExecutionError::MultipleSubscriptionFields => {
            reveal_strlit("Only a single top-level field is allowed in subscriptions");
        },
        QueryExecutionError::SubgraphDeploymentIdError(s) => {
            reveal_strlit("Failed to get subgraph ID from type: `");
            reveal_strlit("`");
        },
        QueryExecutionError::RangeArgumentsError(args, limit) => {
            reveal_strlit(", ");
            reveal_strlit("Value of \"first\" must be between 1 and ");
            reveal_strlit("Value of \"skip\" must be greater than 0");
            reveal_strlit("Value of \"");
            reveal_strlit("\" is must be an integer");
            let cs = range_clauses(args@, limit as nat);
            lemma_dec_single_line(limit as nat);
            assert forall|k: int| 0 <= k < cs.len() implies single_line(cs[k]) by {
                assert(single_line(args@[k]@));
                assert(cs[k] == range_clause(args@[k]@, limit as nat));
            }
            lemma_join_single_line(cs, ", "@);
        },
        QueryExecutionError::InvalidFilterError => {
            reveal_strlit("Filter must by an object");
        },
        QueryExecutionError::EntityFieldError(e, a) => {
            reveal_strlit("Entity `");
            reveal_strlit("` has no attribute `");
            reveal_strlit("`");
        },
        QueryExecutionError::ListTypesError(s, v) => {
            reveal_strlit("Values passed to filter `");
            reveal_strlit("` must be of the same type but are of different types: ");
            reveal_strlit(", ");
            lemma_join_single_line(v.deep_view(), ", "@);
        },
        QueryExecutionError::ListFilterError(s) => {
            reveal_strlit("Non-list value passed to `");
            reveal_strlit("` filter");
        },
        QueryExecutionError::ValueParseError(t, e) => {
            reveal_strlit("Failed to decode `");
            reveal_strlit("` value: `");
            reveal_strlit("`");
        },
        QueryExecutionError::AttributeTypeError(value, ty) => {
            reveal_strlit("Query contains value with invalid type `");
            reveal_strlit("`: `");
            reveal_strlit("`");
        },
        QueryExecutionError::EntityParseError(s) => {
            reveal_strlit("Broken entity found in store: ");
        },
        QueryExecutionError::StoreError(e) => {
            reveal_strlit("Store error: ");
        },
        QueryExecutionError::Timeout => {
            reveal_strlit("Query timed out");
        },
        QueryExecutionError::EmptySelectionSet(t) => {
            reveal_strlit("Selection set for type `");
            reveal_strlit("` is empty");
        },
        QueryExecutionError::AmbiguousDerivedFromResult(_, field, target_type, target_field) => {
            reveal_strlit("Ambiguous result for derived field `");
            reveal_strlit("`: Multiple `");
            reveal_strlit("` entities refer back via `");
            reveal_strlit("`");
        },
        QueryExecutionError::Unimplemented(feature) => {
            reveal_strlit("Feature `");
            reveal_strlit("` is not yet implemented");
        },
        QueryExecutionError::EnumCoercionError(_, field, value, enum_type, values) => {
            reveal_strlit("Failed to coerce value `");
            reveal_strlit("` of field `");
            reveal_strlit("` to enum type `");
            reveal_strlit("`. Possible values are: ");
            reveal_strlit(", ");
            lemma_join_single_line(values.deep_view(), ", "@);
        },
        QueryExecutionError::ScalarCoercionError(_, field, value, scalar_type) => {
            reveal_strlit("Failed to coerce value `");
            reveal_strlit("` of field `");
            reveal_strlit("` to scalar type `");
            reveal_strlit("`");
        },
        QueryExecutionError::TooComplex(c, m) => {
            reveal_strlit("query potentially returns `");
            reveal_strlit("` entities or more and thereby exceeds the limit of `");
            reveal_strlit("` entities. Possible solutions are reducing the depth of the query, querying fewer relationships or using `first` to return smaller collections");
            lemma_dec_single_line(*c as nat);
            lemma_dec_single_line(*m as nat);
        },
        QueryExecutionError::TooDeep(d) => {
            reveal_strlit("query has a depth that exceeds the limit of `");
            reveal_strlit("`");
            lemma_dec_single_line(*d as nat);
        },
        QueryExecutionError::TooExpensive => {
            reveal_strlit("query is too expensive");
        },
        QueryExecutionError::Throttled => {
            reveal_strlit("service is overloaded and can not run the query right now. Please try again in a few minutes");
        },
        QueryExecutionError::UndefinedFragment(f) => {
            reveal_strlit("fragment `");
            reveal_strlit("` is not defined");
        },
        QueryExecutionError::IncorrectPrefetchResult { .. } => {
            reveal_strlit("Running query with prefetch and slow query resolution yielded different results. This is a bug. Please open an issue at https://github.com/graphprotocol/graph-node");
        },
        QueryExecutionError::Panic(m) => {
            reveal_strlit("panic processing query: ");
        },
        QueryExecutionError::EventStreamError => {
            reveal_strlit("error in the subscription event stream");
        },
        QueryExecutionError::FulltextQueryRequiresFilter => {
            reveal_strlit("fulltext search queries can only use EntityFilter::Equal");
        },
    }
}

} // verus!
