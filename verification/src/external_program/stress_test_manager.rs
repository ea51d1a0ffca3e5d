//! The stress tests that can be run, each by its own external program.

use vstd::prelude::*;

verus! {

/// The part of the machine a stress test loads.
#[derive(Debug, Clone, Copy, PartialEq, Eq, Structural)]
pub enum TestKind {
    Cpu,
    Gpu,
    Ram,
}

/// The message for a stress test whose program is not available.
pub open spec fn unavailable_message(kind: TestKind) -> Seq<char> {
    match kind {
        TestKind::Cpu => "CPU stress test not available"@,
        TestKind::Gpu => "GPU stress test not available"@,
        TestKind::Ram => "RAM stress test not available"@,
    }
}

impl TestKind {
    /// The message reported when the program of this test is not available.
    pub fn unavailable(self) -> (m: &'static str)
        ensures
            m@ == unavailable_message(self),
    {
        match self {
            TestKind::Cpu => "CPU stress test not available",
            TestKind::Gpu => "GPU stress test not available",
            TestKind::Ram => "RAM stress test not available",
        }
    }
}

} // verus!
