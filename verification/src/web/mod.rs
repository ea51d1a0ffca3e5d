//! The request protocol: requests come in as lines of JSON, each answered by
//! a response.

use vstd::prelude::*;
use crate::util::data_container::{DataContainer, DataValue};
use crate::util::payload::PayLoad;
use crate::web::model::ResponseV1;

pub mod model;
pub mod request_executor;

verus! {

/// Every target was answered.
pub const SUCCESS_STATE: u32 = 100;
/// Some targets were answered and some were not.
pub const PARTIAL_SUCCESS_STATE: u32 = 207;
/// The request could not be read, or asks for something that does not exist.
pub const NOT_FOUND_STATE: u32 = 404;
/// No target was answered.
pub const INTERNAL_ERROR_STATE: u32 = 500;
/// The newest version of the protocol.
pub const LATEST_VERSION: u32 = 1;

/// The id of a response to a request whose own id could not be read.
pub open spec fn default_id() -> Seq<char> {
    "__default_id__"@
}

/// What a request asks the engine to do.
#[derive(Debug, Clone, Copy, PartialEq, Eq, Structural)]
pub enum Command {
    GetInfo,
    ExecuteTool,
    Shutdown,
}

/// How `{:?}` writes a string: quoted, with quotes, backslashes and control
/// characters escaped.
pub uninterp spec fn debug_quoted(s: Seq<char>) -> Seq<char>;

/// Writes a string as `{:?}` does (std's `Debug` for `str`).
#[verifier::external_body]
fn debug_quote(s: &str) -> (r: String)
    ensures
        r@ == debug_quoted(s@),
{
    format!("{:?}", s)
}

/// The message with which an unreadable request is refused.
pub open spec fn parse_error_message(line: Seq<char>) -> Seq<char> {
    "Failed to parse request: "@ + debug_quoted(line)
}

/// The response to a line that is not a request, in the first protocol
/// version: version 1, the default id, state 404, and as its value the
/// message that quotes the line, with no addition.
pub fn parse_error_response(line: String) -> (r: ResponseV1)
    ensures
        r.version == LATEST_VERSION,
        r.id@ == default_id(),
        r.state == NOT_FOUND_STATE,
        r.payload.value@ == DataValue::Text(parse_error_message(line@)),
        r.payload.addition is None,
{
    let mut message = String::from_str("Failed to parse request: ");
    let quoted = debug_quote(line.as_str());
    message.append(quoted.as_str());
    ResponseV1 {
        version: LATEST_VERSION,
        id: String::from_str("__default_id__"),
        state: NOT_FOUND_STATE,
        payload: PayLoad { value: DataContainer::Text(message), addition: None },
    }
}

} // verus!
