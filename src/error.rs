//! The closed set of query failures and the message each one renders.
use std::sync::Arc;
use vstd::prelude::*;
use vstd::string::to_string_from_display_ensures;
use crate::diagnostic::{locate, located};
use crate::text::{cat2, cat3, cat4, cat5, cat6, cat7, cat8, dec, join, join_texts, json_quoted, push_decimal, push_str, quote_json, same_text, single_line};

verus! {

/// A 1-based position in the query text.
#[derive(Clone, Copy, Debug, PartialEq, Eq, Structural)]
pub struct Pos {
    pub line: usize,
    pub column: usize,
}

/// A store failure, shared read-only between clones; it keeps the
/// failure's message text.
#[derive(Clone, Debug)]
pub struct CloneableFailureError(pub Arc<String>);

impl CloneableFailureError {
    /// Wraps the message text of a store failure.
    pub fn new(text: String) -> (r: Self)
        ensures
            r.text() == text@,
    {
        CloneableFailureError(Arc::new(text))
    }

    pub open spec fn text(&self) -> Seq<char> {
        (*self.0)@
    }
}

/// Error caused while executing a query.
///
/// Query values are held as the text the messages show of them:
/// `InvalidArgumentError` holds the value's debug rendering, the coercion
/// errors its display rendering, and `IncorrectPrefetchResult` holds the
/// JSON text of both results.
#[derive(Clone, Debug)]
pub enum QueryExecutionError {
    OperationNameRequired,
    OperationNotFound(String),
    NotSupported(String),
    NoRootQueryObjectType,
    NoRootSubscriptionObjectType,
    NonNullError(Pos, String),
    ListValueError(Pos, String),
    NamedTypeError(String),
    AbstractTypeError(String),
    InvalidArgumentError(Pos, String, String),
    MissingArgumentError(Pos, String),
    InvalidVariableTypeError(Pos, String),
    MissingVariableError(Pos, String),
    ResolveEntityError(String, String, String, String),
    ResolveEntitiesError(String),
    OrderByNotSupportedError(String, String),
    OrderByNotSupportedForType(String),
    FilterNotSupportedError(String, String),
    UnknownField(Pos, String, String),
    EmptyQuery,
    MultipleSubscriptionFields,
    SubgraphDeploymentIdError(String),
    RangeArgumentsError(Vec<&'static str>, u32),
    InvalidFilterError,
    EntityFieldError(String, String),
    ListTypesError(String, Vec<String>),
    ListFilterError(String),
    ValueParseError(String, String),
    AttributeTypeError(String, String),
    EntityParseError(String),
    StoreError(CloneableFailureError),
    Timeout,
    EmptySelectionSet(String),
    AmbiguousDerivedFromResult(Pos, String, String, String),
    Unimplemented(String),
    EnumCoercionError(Pos, String, String, String, Vec<String>),
    ScalarCoercionError(Pos, String, String, String),
    TooComplex(u64, u64),
    TooDeep(u8),
    TooExpensive,
    Throttled,
    UndefinedFragment(String),
    IncorrectPrefetchResult { slow: String, prefetch: String },
    Panic(String),
    EventStreamError,
    FulltextQueryRequiresFilter,
}

/// The clause that a range violation of one argument contributes.
pub open spec fn range_clause(arg: Seq<char>, limit: nat) -> Seq<char> {
    if arg == "first"@ {
        "Value of \"first\" must be between 1 and "@ + dec(limit)
    } else if arg == "skip"@ {
        "Value of \"skip\" must be greater than 0"@
    } else {
        "Value of \""@ + arg + "\" is must be an integer"@
    }
}

/// The clauses of a range violation, one per argument, in order.
pub open spec fn range_clauses(args: Seq<&'static str>, limit: nat) -> Seq<Seq<char>> {
    args.map_values(|a: &'static str| range_clause(a@, limit))
}

pub open spec fn prefetch_message() -> Seq<char> {
    "Running query with prefetch and slow query resolution yielded different results. This is a bug. Please open an issue at https://github.com/graphprotocol/graph-node"@
}

impl QueryExecutionError {
    /// The message of the failure.
    pub open spec fn message_view(&self) -> Seq<char> {
        match self {
            QueryExecutionError::OperationNameRequired => "Operation name required"@,
            QueryExecutionError::OperationNotFound(s) => "Operation name not found `"@ + s@ + "`"@,
            QueryExecutionError::NotSupported(s) => "Not supported: "@ + s@,
            QueryExecutionError::NoRootQueryObjectType => "No root Query type defined in the schema"@,
            QueryExecutionError::NoRootSubscriptionObjectType => "No root Subscription type defined in the schema"@,
            QueryExecutionError::NonNullError(_, s) => "Null value resolved for non-null field `"@ + s@ + "`"@,
            QueryExecutionError::ListValueError(_, s) => "Non-list value resolved for list field `"@ + s@ + "`"@,
            QueryExecutionError::NamedTypeError(s) => "Failed to resolve named type `"@ + s@ + "`"@,
            QueryExecutionError::AbstractTypeError(s) => "Failed to resolve abstract type `"@ + s@ + "`"@,
            QueryExecutionError::InvalidArgumentError(_, s, v) => "Invalid value provided for argument `"@ + s@ + "`: "@ + v@,
            QueryExecutionError::MissingArgumentError(_, s) => "No value provided for required argument: `"@ + s@ + "`"@,
            QueryExecutionError::InvalidVariableTypeError(_, s) => "Variable `"@ + s@ + "` must have an input type"@,
            QueryExecutionError::MissingVariableError(_, s) => "No value provided for required variable `"@ + s@ + "`"@,
            QueryExecutionError::ResolveEntityError(_, entity, id, e) => "Failed to get `"@ + entity@ + "` entity with ID `"@ + id@ + "` from store: "@ + e@,
            QueryExecutionError::ResolveEntitiesError(e) => "Failed to get entities from store: "@ + e@,
            QueryExecutionError::OrderByNotSupportedError(entity, field) => "Ordering by `"@ + field@ + "` is not supported for type `"@ + entity@ + "`"@,
            QueryExecutionError::OrderByNotSupportedForType(t) => "Ordering by `"@ + t@ + "` fields is not supported"@,
            QueryExecutionError::FilterNotSupportedError(value, filter) => "Filter not supported by value `"@ + value@ + "`: `"@ + filter@ + "`"@,
            QueryExecutionError::UnknownField(_, t, s) => "Type `"@ + t@ + "` has no field `"@ + s@ + "`"@,
            QueryExecutionError::EmptyQuery => "The query is empty"@,
            QueryExecutionError::MultipleSubscriptionFields => "Only a single top-level field is allowed in subscriptions"@,
            QueryExecutionError::SubgraphDeploymentIdError(s) => "Failed to get subgraph ID from type: `"@ + s@ + "`"@,
            QueryExecutionError::RangeArgumentsError(args, limit) => join(range_clauses(args@, *limit as nat), ", "@),
            QueryExecutionError::InvalidFilterError => "Filter must by an object"@,
            QueryExecutionError::EntityFieldError(e, a) => "Entity `"@ + e@ + "` has no attribute `"@ + a@ + "`"@,
            QueryExecutionError::ListTypesError(s, v) => "Values passed to filter `"@ + s@ + "` must be of the same type but are of different types: "@ + join(v.deep_view(), ", "@),
            QueryExecutionError::ListFilterError(s) => "Non-list value passed to `"@ + s@ + "` filter"@,
            QueryExecutionError::ValueParseError(t, e) => "Failed to decode `"@ + t@ + "` value: `"@ + e@ + "`"@,
            QueryExecutionError::AttributeTypeError(value, ty) => "Query contains value with invalid type `"@ + ty@ + "`: `"@ + value@ + "`"@,
            QueryExecutionError::EntityParseError(s) => "Broken entity found in store: "@ + s@,
            QueryExecutionError::StoreError(e) => "Store error: "@ + e.text(),
            QueryExecutionError::Timeout => "Query timed out"@,
            QueryExecutionError::EmptySelectionSet(t) => "Selection set for type `"@ + t@ + "` is empty"@,
            QueryExecutionError::AmbiguousDerivedFromResult(_, field, target_type, target_field) => "Ambiguous result for derived field `"@ + field@ + "`: Multiple `"@ + target_type@ + "` entities refer back via `"@ + target_field@ + "`"@,
            QueryExecutionError::Unimplemented(feature) => "Feature `"@ + feature@ + "` is not yet implemented"@,
            QueryExecutionError::EnumCoercionError(_, field, value, enum_type, values) => "Failed to coerce value `"@ + value@ + "` of field `"@ + field@ + "` to enum type `"@ + enum_type@ + "`. Possible values are: "@ + join(values.deep_view(), ", "@),
            QueryExecutionError::ScalarCoercionError(_, field, value, scalar_type) => "Failed to coerce value `"@ + value@ + "` of field `"@ + field@ + "` to scalar type `"@ + scalar_type@ + "`"@,
            QueryExecutionError::TooComplex(c, m) => "query potentially returns `"@ + dec(*c as nat) + "` entities or more and thereby exceeds the limit of `"@ + dec(*m as nat) + "` entities. Possible solutions are reducing the depth of the query, querying fewer relationships or using `first` to return smaller collections"@,
            QueryExecutionError::TooDeep(d) => "query has a depth that exceeds the limit of `"@ + dec(*d as nat) + "`"@,
            QueryExecutionError::TooExpensive => "query is too expensive"@,
            QueryExecutionError::Throttled => "service is overloaded and can not run the query right now. Please try again in a few minutes"@,
            QueryExecutionError::UndefinedFragment(f) => "fragment `"@ + f@ + "` is not defined"@,
            QueryExecutionError::IncorrectPrefetchResult { .. } => prefetch_message(),
            QueryExecutionError::Panic(m) => "panic processing query: "@ + m@,
            QueryExecutionError::EventStreamError => "error in the subscription event stream"@,
            QueryExecutionError::FulltextQueryRequiresFilter => "fulltext search queries can only use EntityFilter::Equal"@,
        }
    }

    /// Whether the texts that the message shows hold no line break.
    pub open spec fn shown_text_single_line(&self) -> bool {
        match self {
            QueryExecutionError::OperationNameRequired => true,
            QueryExecutionError::OperationNotFound(s) => single_line(s@),
            QueryExecutionError::NotSupported(s) => single_line(s@),
            QueryExecutionError::NoRootQueryObjectType => true,
            QueryExecutionError::NoRootSubscriptionObjectType => true,
            QueryExecutionError::NonNullError(_, s) => single_line(s@),
            QueryExecutionError::ListValueError(_, s) => single_line(s@),
            QueryExecutionError::NamedTypeError(s) => single_line(s@),
            QueryExecutionError::AbstractTypeError(s) => single_line(s@),
            QueryExecutionError::InvalidArgumentError(_, s, v) => single_line(s@) && single_line(v@),
            QueryExecutionError::MissingArgumentError(_, s) => single_line(s@),
            QueryExecutionError::InvalidVariableTypeError(_, s) => single_line(s@),
            QueryExecutionError::MissingVariableError(_, s) => single_line(s@),
            QueryExecutionError::ResolveEntityError(_, entity, id, e) => single_line(entity@) && single_line(id@) && single_line(e@),
            QueryExecutionError::ResolveEntitiesError(e) => single_line(e@),
            QueryExecutionError::OrderByNotSupportedError(entity, field) => single_line(entity@) && single_line(field@),
            QueryExecutionError::OrderByNotSupportedForType(t) => single_line(t@),
            QueryExecutionError::FilterNotSupportedError(value, filter) => single_line(value@) && single_line(filter@),
            QueryExecutionError::UnknownField(_, t, s) => single_line(t@) && single_line(s@),
            QueryExecutionError::EmptyQuery => true,
            QueryExecutionError::MultipleSubscriptionFields => true,
            QueryExecutionError::SubgraphDeploymentIdError(s) => single_line(s@),
            QueryExecutionError::RangeArgumentsError(args, limit) => (forall|k: int| 0 <= k < args@.len() ==> single_line(args@[k]@)),
            QueryExecutionError::InvalidFilterError => true,
            QueryExecutionError::EntityFieldError(e, a) => single_line(e@) && single_line(a@),
            QueryExecutionError::ListTypesError(s, v) => single_line(s@) && (forall|k: int| 0 <= k < v@.len() ==> single_line(v@[k]@)),
            QueryExecutionError::ListFilterError(s) => single_line(s@),
            QueryExecutionError::ValueParseError(t, e) => single_line(t@) && single_line(e@),
            QueryExecutionError::AttributeTypeError(value, ty) => single_line(value@) && single_line(ty@),
            QueryExecutionError::EntityParseError(s) => single_line(s@),
            QueryExecutionError::StoreError(e) => single_line(e.text()),
            QueryExecutionError::Timeout => true,
            QueryExecutionError::EmptySelectionSet(t) => single_line(t@),
            QueryExecutionError::AmbiguousDerivedFromResult(_, field, target_type, target_field) => single_line(field@) && single_line(target_type@) && single_line(target_field@),
            QueryExecutionError::Unimplemented(feature) => single_line(feature@),
            QueryExecutionError::EnumCoercionError(_, field, value, enum_type, values) => single_line(field@) && single_line(value@) && single_line(enum_type@) && (forall|k: int| 0 <= k < values@.len() ==> single_line(values@[k]@)),
            QueryExecutionError::ScalarCoercionError(_, field, value, scalar_type) => single_line(field@) && single_line(value@) && single_line(scalar_type@),
            QueryExecutionError::TooComplex(c, m) => true,
            QueryExecutionError::TooDeep(d) => true,
            QueryExecutionError::TooExpensive => true,
            QueryExecutionError::Throttled => true,
            QueryExecutionError::UndefinedFragment(f) => single_line(f@),
            QueryExecutionError::IncorrectPrefetchResult { .. } => true,
            QueryExecutionError::Panic(m) => single_line(m@),
            QueryExecutionError::EventStreamError => true,
            QueryExecutionError::FulltextQueryRequiresFilter => true,
        }
    }

    /// The position a failure carries, for those that carry one.
    pub open spec fn position_view(&self) -> Option<Pos> {
        match self {
            QueryExecutionError::NonNullError(p, _) => Some(*p),
            QueryExecutionError::ListValueError(p, _) => Some(*p),
            QueryExecutionError::InvalidArgumentError(p, _, _) => Some(*p),
            QueryExecutionError::MissingArgumentError(p, _) => Some(*p),
            QueryExecutionError::InvalidVariableTypeError(p, _) => Some(*p),
            QueryExecutionError::MissingVariableError(p, _) => Some(*p),
            QueryExecutionError::AmbiguousDerivedFromResult(p, _, _, _) => Some(*p),
            QueryExecutionError::EnumCoercionError(p, _, _, _, _) => Some(*p),
            QueryExecutionError::ScalarCoercionError(p, _, _, _) => Some(*p),
            QueryExecutionError::UnknownField(p, _, _) => Some(*p),
            _ => None,
        }
    }
}

} // verus!

verus! {

fn range_message(args: &Vec<&'static str>, limit: u32) -> (r: String)
    ensures
        r@ == join(range_clauses(args@, limit as nat), ", "@),
{
    let mut clauses: Vec<String> = Vec::new();
    let mut i: usize = 0;
    while i < args.len()
        invariant
            i <= args.len(),
            clauses.deep_view() =~= range_clauses(args@.take(i as int), limit as nat),
        decreases args.len() - i,
    {
        let arg = args[i];
        let clause = if same_text(arg, "first") {
            let mut c = "Value of \"first\" must be between 1 and ".to_owned();
            push_decimal(&mut c, limit as u64);
            c
        } else if same_text(arg, "skip") {
            "Value of \"skip\" must be greater than 0".to_owned()
        } else {
            cat3("Value of \"", arg, "\" is must be an integer")
        };
        assert(clause@ == range_clause(arg@, limit as nat));
        let ghost before = clauses.deep_view();
        clauses.push(clause);
        assert(clauses.deep_view() =~= before.push(range_clause(arg@, limit as nat)));
        assert(args@.take(i + 1) =~= args@.take(i as int).push(args@[i as int]));
        i = i + 1;
    }
    assert(args@.take(i as int) =~= args@);
    join_texts(&clauses, ", ")
}

impl QueryExecutionError {
    /// The message of the failure.
    pub fn message(&self) -> (r: String)
        ensures
            r@ == self.message_view(),
    {
        match self {
            QueryExecutionError::OperationNameRequired => "Operation name required".to_owned(),
            QueryExecutionError::OperationNotFound(s) => cat3("Operation name not found `", s.as_str(), "`"),
            QueryExecutionError::NotSupported(s) => cat2("Not supported: ", s.as_str()),
            QueryExecutionError::NoRootQueryObjectType => "No root Query type defined in the schema".to_owned(),
            QueryExecutionError::NoRootSubscriptionObjectType => "No root Subscription type defined in the schema".to_owned(),
            QueryExecutionError::NonNullError(_, s) => cat3("Null value resolved for non-null field `", s.as_str(), "`"),
            QueryExecutionError::ListValueError(_, s) => cat3("Non-list value resolved for list field `", s.as_str(), "`"),
            QueryExecutionError::NamedTypeError(s) => cat3("Failed to resolve named type `", s.as_str(), "`"),
            QueryExecutionError::AbstractTypeError(s) => cat3("Failed to resolve abstract type `", s.as_str(), "`"),
            QueryExecutionError::InvalidArgumentError(_, s, v) => cat4("Invalid value provided for argument `", s.as_str(), "`: ", v.as_str()),
            QueryExecutionError::MissingArgumentError(_, s) => cat3("No value provided for required argument: `", s.as_str(), "`"),
            QueryExecutionError::InvalidVariableTypeError(_, s) => cat3("Variable `", s.as_str(), "` must have an input type"),
            QueryExecutionError::MissingVariableError(_, s) => cat3("No value provided for required variable `", s.as_str(), "`"),
            QueryExecutionError::ResolveEntityError(_, entity, id, e) => cat6("Failed to get `", entity.as_str(), "` entity with ID `", id.as_str(), "` from store: ", e.as_str()),
            QueryExecutionError::ResolveEntitiesError(e) => cat2("Failed to get entities from store: ", e.as_str()),
            QueryExecutionError::OrderByNotSupportedError(entity, field) => cat5("Ordering by `", field.as_str(), "` is not supported for type `", entity.as_str(), "`"),
            QueryExecutionError::OrderByNotSupportedForType(t) => cat3("Ordering by `", t.as_str(), "` fields is not supported"),
            QueryExecutionError::FilterNotSupportedError(value, filter) => cat5("Filter not supported by value `", value.as_str(), "`: `", filter.as_str(), "`"),
            QueryExecutionError::UnknownField(_, t, s) => cat5("Type `", t.as_str(), "` has no field `", s.as_str(), "`"),
            QueryExecutionError::EmptyQuery => "The query is empty".to_owned(),
            QueryExecutionError::MultipleSubscriptionFields => "Only a single top-level field is allowed in subscriptions".to_owned(),
            QueryExecutionError::SubgraphDeploymentIdError(s) => cat3("Failed to get subgraph ID from type: `", s.as_str(), "`"),
            QueryExecutionError::RangeArgumentsError(args, limit) => range_message(args, *limit),
            QueryExecutionError::InvalidFilterError => "Filter must by an object".to_owned(),
            QueryExecutionError::EntityFieldError(e, a) => cat5("Entity `", e.as_str(), "` has no attribute `", a.as_str(), "`"),
            QueryExecutionError::ListTypesError(s, v) => {
                let joined = join_texts(v, ", ");
                cat4("Values passed to filter `", s.as_str(), "` must be of the same type but are of different types: ", joined.as_str())
            },
            QueryExecutionError::ListFilterError(s) => cat3("Non-list value passed to `", s.as_str(), "` filter"),
            QueryExecutionError::ValueParseError(t, e) => cat5("Failed to decode `", t.as_str(), "` value: `", e.as_str(), "`"),
            QueryExecutionError::AttributeTypeError(value, ty) => cat5("Query contains value with invalid type `", ty.as_str(), "`: `", value.as_str(), "`"),
            QueryExecutionError::EntityParseError(s) => cat2("Broken entity found in store: ", s.as_str()),
            QueryExecutionError::StoreError(e) => cat2("Store error: ", e.0.as_str()),
            QueryExecutionError::Timeout => "Query timed out".to_owned(),
            QueryExecutionError::EmptySelectionSet(t) => cat3("Selection set for type `", t.as_str(), "` is empty"),
            QueryExecutionError::AmbiguousDerivedFromResult(_, field, target_type, target_field) => cat7("Ambiguous result for derived field `", field.as_str(), "`: Multiple `", target_type.as_str(), "` entities refer back via `", target_field.as_str(), "`"),
            QueryExecutionError::Unimplemented(feature) => cat3("Feature `", feature.as_str(), "` is not yet implemented"),
            QueryExecutionError::EnumCoercionError(_, field, value, enum_type, values) => {
                let joined = join_texts(values, ", ");
                cat8("Failed to coerce value `", value.as_str(), "` of field `", field.as_str(), "` to enum type `", enum_type.as_str(), "`. Possible values are: ", joined.as_str())
            },
            QueryExecutionError::ScalarCoercionError(_, field, value, scalar_type) => cat7("Failed to coerce value `", value.as_str(), "` of field `", field.as_str(), "` to scalar type `", scalar_type.as_str(), "`"),
            QueryExecutionError::TooComplex(c, m) => {
                let mut r = "query potentially returns `".to_owned();
                push_decimal(&mut r, *c);
                push_str(&mut r, "` entities or more and thereby exceeds the limit of `");
                push_decimal(&mut r, *m);
                push_str(&mut r, "` entities. Possible solutions are reducing the depth of the query, querying fewer relationships or using `first` to return smaller collections");
                r
            },
            QueryExecutionError::TooDeep(d) => {
                let mut r = "query has a depth that exceeds the limit of `".to_owned();
                push_decimal(&mut r, *d as u64);
                push_str(&mut r, "`");
                r
            },
            QueryExecutionError::TooExpensive => "query is too expensive".to_owned(),
            QueryExecutionError::Throttled => "service is overloaded and can not run the query right now. Please try again in a few minutes".to_owned(),
            QueryExecutionError::UndefinedFragment(f) => cat3("fragment `", f.as_str(), "` is not defined"),
            QueryExecutionError::IncorrectPrefetchResult { .. } => "Running query with prefetch and slow query resolution yielded different results. This is a bug. Please open an issue at https://github.com/graphprotocol/graph-node".to_owned(),
            QueryExecutionError::Panic(m) => cat2("panic processing query: ", m.as_str()),
            QueryExecutionError::EventStreamError => "error in the subscription event stream".to_owned(),
            QueryExecutionError::FulltextQueryRequiresFilter => "fulltext search queries can only use EntityFilter::Equal".to_owned(),
        }
    }

    /// The position the failure carries, if it carries one.
    pub fn position(&self) -> (r: Option<Pos>)
        ensures
            r == self.position_view(),
    {
        match self {
            QueryExecutionError::NonNullError(p, _) => Some(*p),
            QueryExecutionError::ListValueError(p, _) => Some(*p),
            QueryExecutionError::InvalidArgumentError(p, _, _) => Some(*p),
            QueryExecutionError::MissingArgumentError(p, _) => Some(*p),
            QueryExecutionError::InvalidVariableTypeError(p, _) => Some(*p),
            QueryExecutionError::MissingVariableError(p, _) => Some(*p),
            QueryExecutionError::AmbiguousDerivedFromResult(p, _, _, _) => Some(*p),
            QueryExecutionError::EnumCoercionError(p, _, _, _, _) => Some(*p),
            QueryExecutionError::ScalarCoercionError(p, _, _, _) => Some(*p),
            QueryExecutionError::UnknownField(p, _, _) => Some(*p),
            _ => None,
        }
    }
}

} // verus!

verus! {

/// Error caused while processing a query request. An encoding failure
/// keeps its message text, a parse failure the parser's diagnostic text,
/// shared read-only between clones.
#[derive(Clone, Debug)]
pub enum QueryError {
    EncodingError(String),
    ParseError(Arc<String>),
    ExecutionError(QueryExecutionError),
}

/// The JSON error object that holds only a message.
pub open spec fn message_object(m: Seq<char>) -> Seq<char> {
    "{\"message\":"@ + json_quoted(m) + "}"@
}

/// The JSON error object with one location and a message.
pub open spec fn located_object(line: nat, column: nat, m: Seq<char>) -> Seq<char> {
    "{\"locations\":[{\"line\":"@ + dec(line) + ",\"column\":"@ + dec(column) + "}],\"message\":"@ + json_quoted(m) + "}"@
}

/// The JSON error object that reports diverging results of the two ways to
/// resolve a query; `slow` and `prefetch` are JSON texts.
pub open spec fn prefetch_object(slow: Seq<char>, prefetch: Seq<char>) -> Seq<char> {
    "{\"incorrectPrefetch\":true,\"single\":"@ + slow + ",\"prefetch\":"@ + prefetch + ",\"message\":"@ + json_quoted(prefetch_message()) + "}"@
}

pub(crate) fn message_json(m: &str) -> (r: String)
    ensures
        r@ == message_object(m@),
{
    let q = quote_json(m);
    cat3("{\"message\":", q.as_str(), "}")
}

fn located_json(line: usize, column: usize, m: &str) -> (r: String)
    ensures
        r@ == located_object(line as nat, column as nat, m@),
{
    let mut r = "{\"locations\":[{\"line\":".to_owned();
    push_decimal(&mut r, line as u64);
    push_str(&mut r, ",\"column\":");
    push_decimal(&mut r, column as u64);
    push_str(&mut r, "}],\"message\":");
    let q = quote_json(m);
    push_str(&mut r, q.as_str());
    push_str(&mut r, "}");
    r
}

fn prefetch_json(slow: &str, prefetch: &str) -> (r: String)
    ensures
        r@ == prefetch_object(slow@, prefetch@),
{
    let q = quote_json("Running query with prefetch and slow query resolution yielded different results. This is a bug. Please open an issue at https://github.com/graphprotocol/graph-node");
    cat7("{\"incorrectPrefetch\":true,\"single\":", slow, ",\"prefetch\":", prefetch, ",\"message\":", q.as_str(), "}")
}

impl QueryError {
    /// The message of the error.
    pub open spec fn message_view(&self) -> Seq<char> {
        match self {
            QueryError::EncodingError(t) => t@,
            QueryError::ParseError(d) => (**d)@,
            QueryError::ExecutionError(e) => e.message_view(),
        }
    }

    /// The JSON error object of the error. A parse failure whose diagnostic
    /// states a position reports it with the rest of the diagnostic as the
    /// message; one whose diagnostic does not holds the whole text.
    pub open spec fn json_view(&self) -> Seq<char> {
        match self {
            QueryError::ParseError(d) => match located((**d)@) {
                Some((l, c, m)) => located_object(l, c, m),
                None => message_object((**d)@),
            },
            QueryError::ExecutionError(QueryExecutionError::IncorrectPrefetchResult { slow, prefetch }) =>
                prefetch_object(slow@, prefetch@),
            QueryError::ExecutionError(e) => match e.position_view() {
                Some(p) => located_object(p.line as nat, p.column as nat, e.message_view()),
                None => message_object(e.message_view()),
            },
            QueryError::EncodingError(t) => message_object(t@),
        }
    }

    /// The message of the error.
    pub fn message(&self) -> (r: String)
        ensures
            r@ == self.message_view(),
    {
        match self {
            QueryError::EncodingError(t) => t.clone(),
            QueryError::ParseError(d) => (**d).clone(),
            QueryError::ExecutionError(e) => e.message(),
        }
    }

    /// The heap memory the error holds beyond itself, as counted by caches:
    /// none is counted.
    pub fn indirect_weight(&self) -> (r: usize)
        ensures
            r == 0,
    {
        0
    }

    /// Serializes the error as a JSON object.
    pub fn to_json(&self) -> (r: String)
        ensures
            r@ == self.json_view(),
    {
        match self {
            QueryError::ParseError(d) => match locate((**d).as_str()) {
                Some((l, c, m)) => located_json(l as usize, c as usize, m.as_str()),
                None => message_json((**d).as_str()),
            },
            QueryError::ExecutionError(QueryExecutionError::IncorrectPrefetchResult { slow, prefetch }) =>
                prefetch_json(slow.as_str(), prefetch.as_str()),
            QueryError::ExecutionError(e) => {
                let m = e.message();
                match e.position() {
                    Some(p) => located_json(p.line, p.column, m.as_str()),
                    None => message_json(m.as_str()),
                }
            },
            QueryError::EncodingError(t) => message_json(t.as_str()),
        }
    }
}

impl From<QueryExecutionError> for QueryError {
    fn from(e: QueryExecutionError) -> (r: QueryError)
        ensures
            r == QueryError::ExecutionError(e),
    {
        QueryError::ExecutionError(e)
    }
}

impl vstd::std_specs::convert::FromSpecImpl<QueryExecutionError> for QueryError {
    open spec fn obeys_from_spec() -> bool {
        true
    }

    open spec fn from_spec(e: QueryExecutionError) -> QueryError {
        QueryError::ExecutionError(e)
    }
}

} // verus!

verus! {

/// hex's decoding error, carried opaquely; only its `Display` text is used.
#[verifier::external_type_specification]
#[verifier::external_body]
pub struct ExFromHexError(hex::FromHexError);

/// num-bigint's parse error, carried opaquely; only its `Display` text is used.
#[verifier::external_type_specification]
#[verifier::external_body]
pub struct ExParseBigIntError(num_bigint::ParseBigIntError);

/// bigdecimal's parse error, carried opaquely; only its `Display` text is used.
#[verifier::external_type_specification]
#[verifier::external_body]
pub struct ExParseBigDecimalError(bigdecimal::ParseBigDecimalError);

impl QueryExecutionError {
    /// A failure to decode hex text as `Bytes`, with the decoder's message.
    pub fn from_hex_error(e: &hex::FromHexError) -> (r: Self)
        ensures
            r matches QueryExecutionError::ValueParseError(t, m) && t@ == "Bytes"@
                && to_string_from_display_ensures::<hex::FromHexError>(e, m),
    {
        QueryExecutionError::ValueParseError("Bytes".to_owned(), e.to_string())
    }

    /// A failure to parse a `BigInt`, with the parser's message.
    pub fn from_bigint_error(e: &num_bigint::ParseBigIntError) -> (r: Self)
        ensures
            r matches QueryExecutionError::ValueParseError(t, m) && t@ == "BigInt"@
                && to_string_from_display_ensures::<num_bigint::ParseBigIntError>(e, m),
    {
        QueryExecutionError::ValueParseError("BigInt".to_owned(), e.to_string())
    }

    /// A failure to parse a `BigDecimal`, with the parser's message.
    pub fn from_bigdecimal_error(e: &bigdecimal::ParseBigDecimalError) -> (r: Self)
        ensures
            r matches QueryExecutionError::ValueParseError(t, m) && t@ == "BigDecimal"@
                && to_string_from_display_ensures::<bigdecimal::ParseBigDecimalError>(e, m),
    {
        QueryExecutionError::ValueParseError("BigDecimal".to_owned(), e.to_string())
    }

    /// A store failure, keeping its message text.
    pub fn from_store_error(text: String) -> (r: Self)
        ensures
            r matches QueryExecutionError::StoreError(c) && c.text() == text@,
    {
        QueryExecutionError::StoreError(CloneableFailureError::new(text))
    }
}

} // verus!
