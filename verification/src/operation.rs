//! GraphQL operations: the document, its variables, and the builders for
//! queries, aggregations, subscriptions and batches of requests.

use crate::client::{ClientMessage, GraphQLMessageFromClient};
use crate::error::ClientError;
use crate::json::{json_model, json_object, json_option, optional_number, Json};
use crate::naming::{
    after_first_segment, capitalized, capitalized_segments, doc_type,
    lemma_capitalized_segments_unfold, lemma_doc_type_unfold, plural, push_capitalized,
    segment_end, singular, subscription_filter_type,
};
use crate::text::{
    ends_with_char, is_normal, is_whitespace, lemma_normalized_is_normal, normalize_whitespace,
    normalized, to_chars,
};
use crate::types::{
    aggregations_json, aggregations_to_value, order_json, order_to_value, requests_json,
    requests_to_value, FieldAggregation, OrderBy, PostRequest,
};
use serde_json::Value;
use vstd::prelude::*;
use vstd::string::*;

verus! {

/// An operation that is ready to be started.
#[derive(Debug, Clone)]
pub struct GraphQLOperation {
    /// The GraphQL document.
    pub query: String,
    pub variables: Option<Value>,
    pub operation_name: Option<String>,
    /// The member of the response's data that holds the result, where the
    /// builder knows it.
    pub result_name: Option<String>,
}

/// An operation as a mathematical value.
pub struct Operation {
    pub query: Seq<char>,
    pub variables: Option<Json>,
    pub operation_name: Option<Seq<char>>,
    pub result_name: Option<Seq<char>>,
}

impl Operation {
    /// The document is in normal form: its whitespace is single spaces
    /// between words.
    pub open spec fn well_formed(self) -> bool {
        is_normal(self.query)
    }
}

impl View for GraphQLOperation {
    type V = Operation;

    open spec fn view(&self) -> Operation {
        Operation {
            query: self.query@,
            variables: json_option(self.variables),
            operation_name: match self.operation_name {
                Some(name) => Some(name@),
                None => None,
            },
            result_name: match self.result_name {
                Some(name) => Some(name@),
                None => None,
            },
        }
    }
}

/// What happens to an operation that was started.
#[derive(Debug)]
pub enum GraphQLOperationEvent {
    Id(u32),
    Data(Value),
    Error(ClientError),
    Complete,
}

/// The document of a query for the documents of a collection, before its
/// whitespace is normalized.
pub open spec fn query_text(collection: Seq<char>, fields: Seq<char>) -> Seq<char> {
    "query "@ + collection + " ($filter: "@ + doc_type(collection)
        + "Filter, $orderBy: [QueryOrderBy], $limit: Int, $timeout: Float) { "@ + collection
        + "(filter: $filter, orderBy: $orderBy, limit: $limit, timeout: $timeout) { "@ + fields
        + " } }"@
}

/// The name of the query that aggregates over a collection.
pub open spec fn aggregate_name(collection: Seq<char>) -> Seq<char> {
    "aggregate"@ + plural(doc_type(collection))
}

/// The document of an aggregation over a collection, before its whitespace
/// is normalized.
pub open spec fn aggregate_text(collection: Seq<char>) -> Seq<char> {
    "query "@ + aggregate_name(collection) + "($filter: "@ + doc_type(collection)
        + "Filter, $fields: [FieldAggregation]) { "@ + aggregate_name(collection)
        + "(filter: $filter, fields: $fields) }"@
}

/// The document of a subscription to a table, before its whitespace is
/// normalized.
pub open spec fn subscription_text(table: Seq<char>, fields: Seq<char>) -> Seq<char> {
    "subscription "@ + table + "($filter: "@ + subscription_filter_type(table) + ") { "@ + table
        + "(filter: $filter) { "@ + fields + " } }"@
}

/// The operation that queries a collection. All four variables are there;
/// one that was not given is null.
pub open spec fn query_operation(
    collection: Seq<char>,
    filter: Json,
    fields: Seq<char>,
    order_by: Option<Vec<OrderBy>>,
    limit: Option<u32>,
    timeout: Option<u32>,
) -> Operation {
    Operation {
        query: normalized(query_text(collection, fields)),
        variables: Some(
            Json::Object(
                map![
                    "filter"@ => filter,
                    "orderBy"@ => match order_by {
                        Some(order) => order_json(order@),
                        None => Json::Null,
                    },
                    "limit"@ => match limit {
                        Some(n) => Json::Integer(n as int),
                        None => Json::Null,
                    },
                    "timeout"@ => match timeout {
                        Some(n) => Json::Integer(n as int),
                        None => Json::Null,
                    },
                ],
            ),
        ),
        operation_name: None,
        result_name: Some(collection),
    }
}

/// The operation that aggregates over a collection.
pub open spec fn aggregate_operation(
    collection: Seq<char>,
    filter: Json,
    fields: Seq<FieldAggregation>,
) -> Operation {
    Operation {
        query: normalized(aggregate_text(collection)),
        variables: Some(
            Json::Object(map!["filter"@ => filter, "fields"@ => aggregations_json(fields)]),
        ),
        operation_name: None,
        result_name: Some(aggregate_name(collection)),
    }
}

/// The operation that subscribes to a table.
pub open spec fn subscription_operation(
    table: Seq<char>,
    filter: Json,
    fields: Seq<char>,
) -> Operation {
    Operation {
        query: normalized(subscription_text(table, fields)),
        variables: Some(Json::Object(map!["filter"@ => filter])),
        operation_name: None,
        result_name: None,
    }
}

/// The operation that posts a batch of requests.
pub open spec fn post_requests_operation(requests: Seq<PostRequest>) -> Operation {
    Operation {
        query: "mutation postRequests($requests:[Request]){postRequests(requests:$requests)}"@,
        variables: Some(Json::Object(map!["requests"@ => requests_json(requests)])),
        operation_name: None,
        result_name: None,
    }
}

/// The document of the mutation that posts requests is in normal form: its
/// one whitespace character is the space behind `mutation`.
proof fn lemma_mutation_text_is_normal()
    ensures
        is_normal("mutation postRequests($requests:[Request]){postRequests(requests:$requests)}"@),
{
    reveal_strlit("mutation postRequests($requests:[Request]){postRequests(requests:$requests)}");
    let text = "mutation postRequests($requests:[Request]){postRequests(requests:$requests)}"@;
    assert forall|i: int| 0 <= i < text.len() && is_whitespace(#[trigger] text[i]) implies i
        == 8 by {
        if i < 20 {
        } else if i < 40 {
        } else if i < 60 {
        }
    }
}

impl GraphQLOperation {
    /// The message that starts this operation under the given id.
    pub fn get_start_message(&self, id: String) -> (res: GraphQLMessageFromClient)
        ensures
            res@ == (ClientMessage::Start {
                id: id@,
                query: self@.query,
                variables: self@.variables,
                operation_name: self@.operation_name,
            }),
            res@.well_formed() <==> id@.len() > 0,
    {
        GraphQLMessageFromClient::Start {
            id,
            query: self.query.clone(),
            variables: self.variables.clone(),
            operation_name: self.operation_name.clone(),
        }
    }

    /// The name of the GraphQL type of the documents of a collection: the
    /// segments of the collection's name between its underscores, each
    /// capitalized, the first without an `s` at its end.
    pub fn collection_doc_type(collection: &str) -> (res: String)
        requires
            collection@.len() > 0,
        ensures
            res@ == doc_type(collection@),
    {
        let chars = to_chars(collection);
        let n = chars.len();
        let mut out = String::new();
        let end = segment_end(&chars, 0);
        let keep = if end >= 2 && chars[end - 1] == 's' {
            end - 1
        } else {
            end
        };
        push_capitalized(&mut out, &chars, 0, keep);
        proof {
            let name = collection@;
            assert(name.skip(0) =~= name);
            assert(name.take(end as int) =~= name.subrange(0, end as int));
            assert(out@ =~= singular(capitalized(name.take(end as int))));
            lemma_doc_type_unfold(name);
        }
        let mut at = end;
        while at < n
            invariant
                n == chars@.len(),
                chars@ == collection@,
                at <= n,
                doc_type(collection@) == out@ + (if at < n {
                    capitalized_segments(collection@.skip(at + 1))
                } else {
                    Seq::empty()
                }),
            decreases n - at,
        {
            let start = at + 1;
            let end = segment_end(&chars, start);
            let ghost before = out@;
            push_capitalized(&mut out, &chars, start, end);
            proof {
                let tail = collection@.skip(start as int);
                lemma_capitalized_segments_unfold(tail);
                assert(tail.take(end - start) =~= collection@.subrange(start as int, end as int));
                if end < n {
                    assert(tail.skip(end - start + 1) =~= collection@.skip(end + 1));
                }
                assert(before + (out@.skip(before.len() as int) + after_first_segment(tail))
                    =~= out@ + after_first_segment(tail));
            }
            at = end;
        }
        out
    }

    /// Builds the query for the documents of a collection.
    pub fn query(
        collection: &str,
        filter: &Value,
        fields: &str,
        order_by: Option<Vec<OrderBy>>,
        limit: Option<u32>,
        timeout: Option<u32>,
    ) -> (res: GraphQLOperation)
        requires
            collection@.len() > 0,
        ensures
            res@ == query_operation(
                collection@,
                json_model(*filter),
                fields@,
                order_by,
                limit,
                timeout,
            ),
            res@.well_formed(),
    {
        let doc_type = Self::collection_doc_type(collection);
        let mut text = "query ".to_owned();
        text.append(collection);
        text.append(" ($filter: ");
        text.append(doc_type.as_str());
        text.append("Filter, $orderBy: [QueryOrderBy], $limit: Int, $timeout: Float) { ");
        text.append(collection);
        text.append("(filter: $filter, orderBy: $orderBy, limit: $limit, timeout: $timeout) { ");
        text.append(fields);
        text.append(" } }");
        let query = normalize_whitespace(text.as_str());
        proof {
            lemma_normalized_is_normal(text@);
        }

        let mut variables = serde_json::Map::new();
        variables.insert("filter".to_owned(), filter.clone());
        variables.insert("orderBy".to_owned(), order_to_value(&order_by));
        variables.insert("limit".to_owned(), optional_number(limit));
        variables.insert("timeout".to_owned(), optional_number(timeout));

        GraphQLOperation {
            query,
            variables: Some(json_object(variables)),
            operation_name: None,
            result_name: Some(collection.to_owned()),
        }
    }

    /// Builds the aggregation over the documents of a collection.
    pub fn aggregate(collection: &str, filter: &Value, fields: &Vec<FieldAggregation>) -> (res:
        GraphQLOperation)
        requires
            collection@.len() > 0,
        ensures
            res@ == aggregate_operation(collection@, json_model(*filter), fields@),
            res@.well_formed(),
    {
        let doc_type = Self::collection_doc_type(collection);
        let mut query_name = "aggregate".to_owned();
        query_name.append(doc_type.as_str());
        if !ends_with_char(doc_type.as_str(), 's') {
            query_name.push('s');
            proof {
                assert(query_name@ =~= "aggregate"@ + doc_type@.push('s'));
            }
        }
        let mut text = "query ".to_owned();
        text.append(query_name.as_str());
        text.append("($filter: ");
        text.append(doc_type.as_str());
        text.append("Filter, $fields: [FieldAggregation]) { ");
        text.append(query_name.as_str());
        text.append("(filter: $filter, fields: $fields) }");
        let query = normalize_whitespace(text.as_str());
        proof {
            lemma_normalized_is_normal(text@);
        }

        let mut variables = serde_json::Map::new();
        variables.insert("filter".to_owned(), filter.clone());
        variables.insert("fields".to_owned(), aggregations_to_value(fields));

        GraphQLOperation {
            query,
            variables: Some(json_object(variables)),
            operation_name: None,
            result_name: Some(query_name),
        }
    }

    /// Builds the subscription to a table.
    pub fn subscription(table: &str, filter: &Value, fields: &str) -> (res: GraphQLOperation)
        requires
            table@.len() > 0,
        ensures
            res@ == subscription_operation(table@, json_model(*filter), fields@),
            res@.well_formed(),
    {
        let chars = to_chars(table);
        let mut scheme_type = String::new();
        push_capitalized(&mut scheme_type, &chars, 0, chars.len() - 1);
        scheme_type.append("Filter");
        proof {
            reveal_strlit("Filter");
            let stem = table@.drop_last();
            assert(stem =~= table@.subrange(0, table@.len() - 1));
            assert(scheme_type@ =~= subscription_filter_type(table@));
        }
        let mut text = "subscription ".to_owned();
        text.append(table);
        text.append("($filter: ");
        text.append(scheme_type.as_str());
        text.append(") { ");
        text.append(table);
        text.append("(filter: $filter) { ");
        text.append(fields);
        text.append(" } }");
        let query = normalize_whitespace(text.as_str());
        proof {
            lemma_normalized_is_normal(text@);
        }

        let mut variables = serde_json::Map::new();
        variables.insert("filter".to_owned(), filter.clone());

        GraphQLOperation {
            query,
            variables: Some(json_object(variables)),
            operation_name: None,
            result_name: None,
        }
    }

    /// Builds the mutation that posts a batch of requests, in their order.
    pub fn post_requests(requests: &[PostRequest]) -> (res: GraphQLOperation)
        ensures
            res@ == post_requests_operation(requests@),
            res@.well_formed(),
    {
        let query =
            "mutation postRequests($requests:[Request]){postRequests(requests:$requests)}".to_owned();
        proof {
            lemma_mutation_text_is_normal();
        }
        let mut variables = serde_json::Map::new();
        variables.insert("requests".to_owned(), requests_to_value(requests));
        GraphQLOperation {
            query,
            variables: Some(json_object(variables)),
            operation_name: None,
            result_name: None,
        }
    }
}


/// Building a query twice from the same arguments gives the same operation:
/// the same document, character by character, and the same variables, so
/// that both are serialised to the same text.
pub proof fn lemma_query_is_deterministic(
    collection: &str,
    filter: &Value,
    fields: &str,
    order_by: Option<Vec<OrderBy>>,
    limit: Option<u32>,
    timeout: Option<u32>,
    first: GraphQLOperation,
    second: GraphQLOperation,
)
    requires
        call_ensures(
            GraphQLOperation::query,
            (collection, filter, fields, order_by, limit, timeout),
            first,
        ),
        call_ensures(
            GraphQLOperation::query,
            (collection, filter, fields, order_by, limit, timeout),
            second,
        ),
    ensures
        first@ == second@,
{
}

/// Building an aggregation twice from the same arguments gives the same
/// operation.
pub proof fn lemma_aggregate_is_deterministic(
    collection: &str,
    filter: &Value,
    fields: &Vec<FieldAggregation>,
    first: GraphQLOperation,
    second: GraphQLOperation,
)
    requires
        call_ensures(GraphQLOperation::aggregate, (collection, filter, fields), first),
        call_ensures(GraphQLOperation::aggregate, (collection, filter, fields), second),
    ensures
        first@ == second@,
{
}

/// Building a subscription twice from the same arguments gives the same
/// operation.
pub proof fn lemma_subscription_is_deterministic(
    table: &str,
    filter: &Value,
    fields: &str,
    first: GraphQLOperation,
    second: GraphQLOperation,
)
    requires
        call_ensures(GraphQLOperation::subscription, (table, filter, fields), first),
        call_ensures(GraphQLOperation::subscription, (table, filter, fields), second),
    ensures
        first@ == second@,
{
}

/// Building the mutation for a batch twice from the same requests gives the
/// same operation.
pub proof fn lemma_post_requests_is_deterministic(
    requests: &[PostRequest],
    first: GraphQLOperation,
    second: GraphQLOperation,
)
    requires
        call_ensures(GraphQLOperation::post_requests, (requests,), first),
        call_ensures(GraphQLOperation::post_requests, (requests,), second),
    ensures
        first@ == second@,
{
}

/// Deriving the name of a type twice from the same collection gives the
/// same name.
pub proof fn lemma_collection_doc_type_is_deterministic(
    collection: &str,
    first: String,
    second: String,
)
    requires
        call_ensures(GraphQLOperation::collection_doc_type, (collection,), first),
        call_ensures(GraphQLOperation::collection_doc_type, (collection,), second),
    ensures
        first@ == second@,
{
}

/// The variables of a query are always four: the filter, and the order, the
/// limit and the timeout, each of them null where it was not given.
pub proof fn lemma_query_has_four_variables(
    collection: Seq<char>,
    filter: Json,
    fields: Seq<char>,
    order_by: Option<Vec<OrderBy>>,
    limit: Option<u32>,
    timeout: Option<u32>,
)
    ensures
        query_operation(collection, filter, fields, order_by, limit, timeout).variables is Some,
        query_operation(collection, filter, fields, order_by, limit, timeout).variables->0 is Object,
        ({
            let members = query_operation(
                collection,
                filter,
                fields,
                order_by,
                limit,
                timeout,
            ).variables->0->Object_0;
            &&& members.dom() =~= set!["filter"@, "orderBy"@, "limit"@, "timeout"@]
            &&& members.dom().len() == 4
            &&& members["filter"@] == filter
            &&& order_by is None ==> members["orderBy"@] == Json::Null
            &&& order_by is Some ==> members["orderBy"@] == order_json(order_by->0@)
            &&& limit is None ==> members["limit"@] == Json::Null
            &&& limit is Some ==> members["limit"@] == Json::Integer(limit->0 as int)
            &&& timeout is None ==> members["timeout"@] == Json::Null
            &&& timeout is Some ==> members["timeout"@] == Json::Integer(timeout->0 as int)
        }),
{
    reveal_strlit("filter");
    reveal_strlit("orderBy");
    reveal_strlit("limit");
    reveal_strlit("timeout");
    assert("filter"@.len() == 6 && "orderBy"@.len() == 7 && "limit"@.len() == 5);
    assert("timeout"@.len() == 7);
    assert("orderBy"@[0] != "timeout"@[0]);
    let keys = set!["filter"@, "orderBy"@, "limit"@, "timeout"@];
    assert(keys =~= Set::<Seq<char>>::empty().insert("filter"@).insert("orderBy"@).insert(
        "limit"@,
    ).insert("timeout"@));
}

/// The name of an aggregation ends in `s`, whatever the collection.
pub proof fn lemma_aggregate_name_is_plural(collection: Seq<char>)
    ensures
        aggregate_name(collection).len() > 0,
        aggregate_name(collection).last() == 's',
{
}

/// The requests of a batch stand in its variables in the order in which
/// they were given: the array under `requests` has one object for each, and
/// the object at a place holds the id and the body of the request at that
/// place.
pub proof fn lemma_post_requests_keep_order(requests: Seq<PostRequest>, i: int)
    requires
        0 <= i < requests.len(),
    ensures
        post_requests_operation(requests).variables is Some,
        post_requests_operation(requests).variables->0.member("requests"@).items() is Some,
        post_requests_operation(requests).variables->0.member("requests"@).items()->0.len()
            == requests.len(),
        post_requests_operation(requests).variables->0.member("requests"@).items()->0[i].member(
            "id"@,
        ) == Json::Str(requests[i].id@),
        post_requests_operation(requests).variables->0.member("requests"@).items()->0[i].member(
            "body"@,
        ) == Json::Str(requests[i].body@),
{
    reveal_strlit("id");
    reveal_strlit("body");
    assert("id"@ != "body"@) by {
        assert("id"@.len() == 2);
        assert("body"@.len() == 4);
    }
}

} // verus!
