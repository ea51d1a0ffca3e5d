//! The messages of the request protocol.

use vstd::prelude::*;
use crate::util::data_container::{DataContainer, DataValue, Float64, InfoMap};
use crate::util::payload::PayLoad;
use crate::web::Command;

verus! {

/// A JSON number, as the parser holds it: a non-negative integer, a negative
/// integer, or a float.
#[derive(Debug, Clone, Copy, PartialEq, Eq, Structural)]
pub enum JsonNumber {
    PosInt(u64),
    NegInt(i64),
    Float(Float64),
}

/// A JSON value. An object's members are kept in the order they were read.
#[derive(Debug, PartialEq)]
pub enum JsonValue {
    Null,
    Bool(bool),
    Number(JsonNumber),
    String(String),
    Array(Vec<JsonValue>),
    Object(Vec<(String, JsonValue)>),
}

/// A request: its protocol version, its id, what it asks for, and one entry
/// per target, each with its optional parameters (a JSON object).
#[derive(Debug)]
pub struct Request {
    pub version: u32,
    pub id: String,
    pub command: Command,
    pub payload: Vec<(String, Option<Vec<(String, JsonValue)>>)>,
}

/// Why one target of a request has no value.
#[derive(Debug, Clone, PartialEq)]
pub struct ResponseError {
    pub code: String,
    pub message: String,
}

/// The answer for one target: its value, or the reason it has none.
#[derive(Debug, PartialEq)]
pub enum PayloadItem {
    Success { result: DataContainer, addition: InfoMap },
    Error { error: ResponseError },
}

/// A response: its protocol version, the request's id, a state code, and
/// one entry per target.
#[derive(Debug)]
pub struct Response {
    pub version: u32,
    pub id: String,
    pub state: u32,
    pub payload: Vec<(String, PayloadItem)>,
}

/// A response of the first protocol version, with which a line that is no
/// request is answered: its version, an id, a state code, and one value with
/// its optional addition.
#[derive(Debug)]
pub struct ResponseV1 {
    pub version: u32,
    pub id: String,
    pub state: u32,
    pub payload: PayLoad,
}

/// The answer for one target, as values.
pub enum ItemView {
    Success(DataValue, Seq<(Seq<char>, DataValue)>),
    Error(Seq<char>, Seq<char>),
}

/// An answer as values.
pub open spec fn item_view(item: PayloadItem) -> ItemView {
    match item {
        PayloadItem::Success { result, addition } => ItemView::Success(result@, addition@),
        PayloadItem::Error { error } => ItemView::Error(error.code@, error.message@),
    }
}

/// A response's entries, as values.
pub open spec fn payload_view(payload: Seq<(String, PayloadItem)>) -> Seq<(Seq<char>, ItemView)> {
    Seq::new(payload.len(), |i: int| (payload[i].0@, item_view(payload[i].1)))
}

} // verus!
