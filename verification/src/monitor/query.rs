//! Looking a value up in the model of the machine by its key.

use vstd::prelude::*;
use crate::monitor::process::ProcessSnapshot;
use crate::util::data_container::{DataContainer, DataValue, InfoMap};

verus! {

/// The outcome of looking a key up: `Found(Some(v))` when the key names a
/// value the model holds, `Found(None)` when it names a value the model does
/// not hold yet, `NotFound` when it names nothing.
#[derive(Debug)]
pub enum QueryResult {
    Found(Option<DataContainer>),
    NotFound,
}

/// A query outcome as a value: `None` when the key names nothing,
/// `Some(None)` when it names a value that is not there.
pub open spec fn answer(r: QueryResult) -> Option<Option<DataValue>> {
    match r {
        QueryResult::Found(Some(d)) => Some(Some(d@)),
        QueryResult::Found(None) => Some(None),
        QueryResult::NotFound => None,
    }
}

impl QueryResult {
    /// Whether the key named nothing.
    pub fn is_not_found(&self) -> (r: bool)
        ensures
            r == (answer(*self) is None),
    {
        match self {
            QueryResult::NotFound => true,
            _ => false,
        }
    }
}

/// A part of the model that answers queries by key.
pub trait QueryField {
    /// What a query for `key` answers.
    spec fn spec_query(
        &self,
        key: Seq<char>,
        attach: Option<&InfoMap>,
        processes: Option<&Vec<ProcessSnapshot>>,
    ) -> Option<Option<DataValue>>;

    /// Looks `key` up. `attach` carries the query's parameters; `processes`
    /// the running processes, for keys that list them.
    fn query(&self, key: &str, attach: Option<&InfoMap>, processes: Option<&Vec<ProcessSnapshot>>) -> (r: QueryResult)
        ensures
            answer(r) == self.spec_query(key@, attach, processes),
    ;
}

} // verus!
