//! The plain data that goes into the variables of an operation, and the JSON
//! form of each.

use crate::json::{json_array, json_model, json_models, json_null, json_object, json_string, Json};
use serde_json::Value;
use vstd::prelude::*;

verus! {

/// The direction of a sort.
#[derive(Debug, Clone)]
pub enum SortDirection {
    ASC,
    DESC,
}

/// One key of a sort: a field and the direction.
#[derive(Debug, Clone)]
pub struct OrderBy {
    /// Dot separated path to the field.
    pub path: String,
    pub direction: SortDirection,
}

/// A function that sums up the values of a field over the records.
#[derive(Debug, Clone)]
pub enum AggregationFn {
    /// The number of records.
    COUNT,
    /// The least value of the field.
    MIN,
    /// The greatest value of the field.
    MAX,
    /// The sum of the values of the field.
    SUM,
    /// The average of the values of the field.
    AVERAGE,
}

/// A field and the function to apply to its values.
#[derive(Debug, Clone)]
pub struct FieldAggregation {
    /// Dot separated path to the field.
    pub field: String,
    /// The function; in JSON it stands under the key `fn`.
    pub aggregation_fn: AggregationFn,
}

/// A request to post: an id and a body, both taken as they come.
#[derive(Debug, Clone)]
pub struct PostRequest {
    pub id: String,
    pub body: String,
}

impl SortDirection {
    /// The name of the direction.
    pub open spec fn name(self) -> Seq<char> {
        match self {
            SortDirection::ASC => "ASC"@,
            SortDirection::DESC => "DESC"@,
        }
    }

    /// The JSON form: the name as a string.
    pub open spec fn json(self) -> Json {
        Json::Str(self.name())
    }

    /// The JSON form as a value.
    pub fn to_value(&self) -> (res: Value)
        ensures
            json_model(res) == self.json(),
    {
        match self {
            SortDirection::ASC => json_string("ASC".to_owned()),
            SortDirection::DESC => json_string("DESC".to_owned()),
        }
    }
}

impl OrderBy {
    /// The JSON form: an object with the members `path` and `direction`.
    pub open spec fn json(self) -> Json {
        Json::Object(
            map!["path"@ => Json::Str(self.path@), "direction"@ => self.direction.json()],
        )
    }

    /// The JSON form as a value.
    pub fn to_value(&self) -> (res: Value)
        ensures
            json_model(res) == self.json(),
    {
        let mut members = serde_json::Map::new();
        members.insert("path".to_owned(), json_string(self.path.clone()));
        members.insert("direction".to_owned(), self.direction.to_value());
        json_object(members)
    }
}

impl AggregationFn {
    /// The name of the function.
    pub open spec fn name(self) -> Seq<char> {
        match self {
            AggregationFn::COUNT => "COUNT"@,
            AggregationFn::MIN => "MIN"@,
            AggregationFn::MAX => "MAX"@,
            AggregationFn::SUM => "SUM"@,
            AggregationFn::AVERAGE => "AVERAGE"@,
        }
    }

    /// The JSON form: the name as a string.
    pub open spec fn json(self) -> Json {
        Json::Str(self.name())
    }

    /// The JSON form as a value.
    pub fn to_value(&self) -> (res: Value)
        ensures
            json_model(res) == self.json(),
    {
        match self {
            AggregationFn::COUNT => json_string("COUNT".to_owned()),
            AggregationFn::MIN => json_string("MIN".to_owned()),
            AggregationFn::MAX => json_string("MAX".to_owned()),
            AggregationFn::SUM => json_string("SUM".to_owned()),
            AggregationFn::AVERAGE => json_string("AVERAGE".to_owned()),
        }
    }
}

impl FieldAggregation {
    /// The JSON form: an object with the members `field` and `fn`.
    pub open spec fn json(self) -> Json {
        Json::Object(
            map!["field"@ => Json::Str(self.field@), "fn"@ => self.aggregation_fn.json()],
        )
    }

    /// The JSON form as a value.
    pub fn to_value(&self) -> (res: Value)
        ensures
            json_model(res) == self.json(),
    {
        let mut members = serde_json::Map::new();
        members.insert("field".to_owned(), json_string(self.field.clone()));
        members.insert("fn".to_owned(), self.aggregation_fn.to_value());
        json_object(members)
    }
}

impl PostRequest {
    /// The JSON form: an object with the members `id` and `body`.
    pub open spec fn json(self) -> Json {
        Json::Object(map!["id"@ => Json::Str(self.id@), "body"@ => Json::Str(self.body@)])
    }

    /// The JSON form as a value.
    pub fn to_value(&self) -> (res: Value)
        ensures
            json_model(res) == self.json(),
    {
        let mut members = serde_json::Map::new();
        members.insert("id".to_owned(), json_string(self.id.clone()));
        members.insert("body".to_owned(), json_string(self.body.clone()));
        json_object(members)
    }
}

/// The JSON form of a sort order: an array of the keys in their order.
pub open spec fn order_json(order: Seq<OrderBy>) -> Json {
    Json::Array(order.map_values(|key: OrderBy| key.json()))
}

/// The JSON form of a list of aggregations: an array, in the same order.
pub open spec fn aggregations_json(fields: Seq<FieldAggregation>) -> Json {
    Json::Array(fields.map_values(|field: FieldAggregation| field.json()))
}

/// The JSON form of a list of requests: an array, in the same order.
pub open spec fn requests_json(requests: Seq<PostRequest>) -> Json {
    Json::Array(requests.map_values(|request: PostRequest| request.json()))
}

/// The JSON form of a sort order as a value; a null where there is none.
pub fn order_to_value(order: &Option<Vec<OrderBy>>) -> (res: Value)
    ensures
        json_model(res) == (match order {
            Some(order) => order_json(order@),
            None => Json::Null,
        }),
{
    match order {
        Some(order) => {
            let mut items: Vec<Value> = Vec::new();
            for i in 0..order.len()
                invariant
                    items@.len() == i,
                    forall|k: int| 0 <= k < i ==> json_model(#[trigger] items@[k]) == order@[k].json(),
            {
                items.push(order[i].to_value());
            }
            assert(json_models(items@) =~= order@.map_values(|key: OrderBy| key.json()));
            json_array(items)
        },
        None => json_null(),
    }
}

/// The JSON form of a list of aggregations as a value.
pub fn aggregations_to_value(fields: &Vec<FieldAggregation>) -> (res: Value)
    ensures
        json_model(res) == aggregations_json(fields@),
{
    let mut items: Vec<Value> = Vec::new();
    for i in 0..fields.len()
        invariant
            items@.len() == i,
            forall|k: int| 0 <= k < i ==> json_model(#[trigger] items@[k]) == fields@[k].json(),
    {
        items.push(fields[i].to_value());
    }
    assert(json_models(items@) =~= fields@.map_values(|field: FieldAggregation| field.json()));
    json_array(items)
}

/// The JSON form of a list of requests as a value.
pub fn requests_to_value(requests: &[PostRequest]) -> (res: Value)
    ensures
        json_model(res) == requests_json(requests@),
{
    let mut items: Vec<Value> = Vec::new();
    for i in 0..requests.len()
        invariant
            items@.len() == i,
            forall|k: int|
                0 <= k < i ==> json_model(#[trigger] items@[k]) == requests@[k].json(),
    {
        items.push(requests[i].to_value());
    }
    assert(json_models(items@) =~= requests@.map_values(|request: PostRequest| request.json()));
    json_array(items)
}

} // verus!
