//! The answer to one query.

use vstd::prelude::*;
use crate::util::data_container::{DataContainer, InfoMap};

verus! {

/// A query's value, with whatever else the query has to say about it.
#[derive(Debug, PartialEq)]
pub struct PayLoad {
    pub value: DataContainer,
    pub addition: Option<InfoMap>,
}

} // verus!
