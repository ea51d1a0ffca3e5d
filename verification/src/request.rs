//! The kinds of request the engine's first protocol version knew.

use vstd::prelude::*;

verus! {

/// What a request asks for.
#[derive(Debug, Clone, Copy, PartialEq, Eq, Structural)]
pub enum RequestKind {
    GetInfo,
    ExecuteTool,
}

/// The name of a request kind in requests.
pub open spec fn request_kind_name(k: RequestKind) -> Seq<char> {
    match k {
        RequestKind::GetInfo => "get_info"@,
        RequestKind::ExecuteTool => "execute_tool"@,
    }
}

impl RequestKind {
    /// The name of the kind in requests.
    pub fn name(self) -> (s: &'static str)
        ensures
            s@ == request_kind_name(self),
    {
        match self {
            RequestKind::GetInfo => "get_info",
            RequestKind::ExecuteTool => "execute_tool",
        }
    }
}

} // verus!
