//! The bookkeeping of a stress test session: which tests run, in what mode,
//! and the state shown for the session and for each part of the machine.
//! Starting and stopping the test programs and the worker that watches them
//! is left to the caller, which follows what these functions decide.

use vstd::prelude::*;
use crate::external_program::program::{LaunchSpec, texts, optional_text_lists};

verus! {

/// Which tests run together: three bits, for the processor, the graphics
/// processor and the memory.
pub type TestCombine = u8;

/// The processor test's bit.
pub const CPU_TEST: TestCombine = 0b100;
/// The graphics processor test's bit.
pub const GPU_TEST: TestCombine = 0b010;
/// The memory test's bit.
pub const RAM_TEST: TestCombine = 0b001;
/// The processor and graphics processor tests together.
pub const CPU_GPU_TEST: TestCombine = 0b110;
/// All three tests.
pub const ALL_TEST: TestCombine = 0b111;

/// How a test, or the session, is doing.
#[derive(Debug, Clone, Copy, PartialEq, Eq, Structural)]
pub enum TestState {
    Waiting,
    Well,
    OverHeat,
    LowPower,
    NotStable,
    Unknown,
    NotWorking,
}

/// How long a session runs.
#[derive(Debug, Clone, Copy, PartialEq, Eq, Structural)]
pub enum TestMode {
    Infinity,
    AutoJudge,
    TimeLimit(u64),
}

/// The part of the machine a test loads.
#[derive(Debug, Clone, Copy, PartialEq, Eq, Structural)]
pub enum TestKind {
    Cpu,
    Gpu,
    Ram,
}

/// Why a session could not be started.
#[derive(Debug, Clone, Copy, PartialEq, Eq, Structural)]
pub enum StressTestError {
    AlreadyStarted,
}

/// The tests a combination selects, in the order processor, graphics
/// processor, memory.
pub open spec fn selected_kinds(combine: u8) -> Seq<TestKind> {
    (if combine & CPU_TEST != 0 { seq![TestKind::Cpu] } else { Seq::empty() })
        + (if combine & GPU_TEST != 0 { seq![TestKind::Gpu] } else { Seq::empty() })
        + (if combine & RAM_TEST != 0 { seq![TestKind::Ram] } else { Seq::empty() })
}

/// The tests a combination selects, in order.
pub fn select_kinds(combine: TestCombine) -> (v: Vec<TestKind>)
    ensures
        v@ == selected_kinds(combine),
{
    let mut v: Vec<TestKind> = Vec::new();
    if combine & CPU_TEST != 0 {
        v.push(TestKind::Cpu);
    }
    if combine & GPU_TEST != 0 {
        v.push(TestKind::Gpu);
    }
    if combine & RAM_TEST != 0 {
        v.push(TestKind::Ram);
    }
    assert(v@ =~= selected_kinds(combine));
    v
}

/// The tests started when a session starts: none in the automatic mode,
/// which judges for itself, else the selected ones.
pub open spec fn kinds_to_start(combine: u8, mode: TestMode) -> Seq<TestKind> {
    if mode == TestMode::AutoJudge {
        Seq::empty()
    } else {
        selected_kinds(combine)
    }
}

/// The states of an idle session: nothing works.
pub open spec fn idle_states() -> Seq<TestState> {
    seq![TestState::NotWorking, TestState::NotWorking, TestState::NotWorking, TestState::NotWorking]
}

/// The states of a session that has just been started.
pub open spec fn starting_states() -> Seq<TestState> {
    seq![TestState::Waiting, TestState::Well, TestState::Well, TestState::Well]
}

/// A stress test session: the state of the session and of the processor,
/// graphics processor and memory tests, the tests that run, and the mode,
/// which is set exactly while the session runs.
#[derive(Debug, Clone, Copy)]
pub struct TestSession {
    pub state: [TestState; 4],
    pub combine: TestCombine,
    pub mode: Option<TestMode>,
}

impl TestSession {
    /// Whether the session is idle.
    pub open spec fn is_idle(&self) -> bool {
        &&& self.state@ == idle_states()
        &&& self.combine == 0
        &&& self.mode is None
    }

    /// An idle session.
    pub fn new() -> (s: Self)
        ensures
            s.is_idle(),
    {
        let s = TestSession {
            state: [TestState::NotWorking, TestState::NotWorking, TestState::NotWorking, TestState::NotWorking],
            combine: 0,
            mode: None,
        };
        assert(s.state@ =~= idle_states());
        s
    }

    /// Starts a session with the given tests and mode, and returns the
    /// tests whose programs the caller starts next. A session that runs
    /// already is refused and left as it is.
    pub fn begin(&mut self, combine: TestCombine, mode: TestMode) -> (r: Result<Vec<TestKind>, StressTestError>)
        ensures
            old(self).mode is Some ==> {
                &&& r == Err::<Vec<TestKind>, StressTestError>(StressTestError::AlreadyStarted)
                &&& *final(self) == *old(self)
            },
            old(self).mode is None ==> {
                &&& r matches Ok(kinds) && kinds@ == kinds_to_start(combine, mode)
                &&& final(self).combine == combine
                &&& final(self).state@ == starting_states()
                &&& final(self).mode == Some(mode)
            },
    {
        if self.mode.is_some() {
            return Err(StressTestError::AlreadyStarted);
        }
        self.combine = combine;
        self.state = [TestState::Waiting, TestState::Well, TestState::Well, TestState::Well];
        assert(self.state@ =~= starting_states());
        self.mode = Some(mode);
        if mode == TestMode::AutoJudge {
            Ok(Vec::new())
        } else {
            Ok(select_kinds(combine))
        }
    }

    /// Marks the session as running well, once its programs have started.
    pub fn mark_started(&mut self)
        ensures
            final(self).state@ == old(self).state@.update(0, TestState::Well),
            final(self).combine == old(self).combine,
            final(self).mode == old(self).mode,
    {
        let s = self.state;
        self.state = [TestState::Well, s[1], s[2], s[3]];
        assert(self.state@ =~= old(self).state@.update(0, TestState::Well));
    }

    /// The tests whose programs the caller closes to stop the session;
    /// `None` for an idle session, which has nothing to stop.
    pub fn kinds_to_close(&self) -> (r: Option<Vec<TestKind>>)
        ensures
            match r {
                Some(kinds) => self.mode is Some && kinds@ == selected_kinds(self.combine),
                None => self.mode is None,
            },
    {
        if self.mode.is_none() {
            None
        } else {
            Some(select_kinds(self.combine))
        }
    }

    /// Returns the session to idle, once its programs are closed.
    pub fn reset(&mut self)
        ensures
            final(self).is_idle(),
    {
        self.combine = 0;
        self.state = [TestState::NotWorking, TestState::NotWorking, TestState::NotWorking, TestState::NotWorking];
        assert(self.state@ =~= idle_states());
        self.mode = None;
    }

    /// The states of the session and of each test.
    pub fn get_state(&self) -> (r: [TestState; 4])
        ensures
            r@ == self.state@,
    {
        self.state
    }
}

/// The tool that runs a test on this platform, if there is one: `stress`
/// for the processor and the memory, `gpu_burn` for the graphics processor,
/// on Linux only.
pub fn test_tool(kind: TestKind, linux: bool) -> (r: Option<&'static str>)
    ensures
        match r {
            Some(t) => linux && t@ == match kind {
                TestKind::Gpu => "gpu_burn"@,
                _ => "stress"@,
            },
            None => !linux,
        },
{
    if linux {
        match kind {
            TestKind::Cpu => Some("stress"),
            TestKind::Gpu => Some("gpu_burn"),
            TestKind::Ram => Some("stress"),
        }
    } else {
        None
    }
}

/// How a test's tool, found at `tool_path`, is launched: the processor and
/// memory tests with their preset arguments, the graphics processor test
/// in the tool's own directory.
pub fn test_program(kind: TestKind, tool_path: String) -> (p: LaunchSpec)
    ensures
        p.program == tool_path,
        p.pre_args is None,
        !p.standalone,
        match kind {
            TestKind::Cpu => optional_text_lists(p.args_set) == Some(seq![seq!["--quiet"@, "--cpu"@, "16"@]])
                && !p.preserve_working_dir,
            TestKind::Gpu => p.args_set is None && p.preserve_working_dir,
            TestKind::Ram => optional_text_lists(p.args_set) == Some(seq![seq!["--quiet"@, "--vm"@, "16"@]])
                && !p.preserve_working_dir,
        },
{
    let tool = LaunchSpec::new_external_tool(tool_path);
    match kind {
        TestKind::Cpu => {
            let mut args: Vec<String> = Vec::new();
            args.push(String::from_str("--quiet"));
            args.push(String::from_str("--cpu"));
            args.push(String::from_str("16"));
            assert(texts(args@) =~= seq!["--quiet"@, "--cpu"@, "16"@]);
            let p = tool.args(args);
            assert(optional_text_lists(p.args_set)->0 =~= seq![seq!["--quiet"@, "--cpu"@, "16"@]]);
            p
        },
        TestKind::Gpu => tool.preserve_working_dir(),
        TestKind::Ram => {
            let mut args: Vec<String> = Vec::new();
            args.push(String::from_str("--quiet"));
            args.push(String::from_str("--vm"));
            args.push(String::from_str("16"));
            assert(texts(args@) =~= seq!["--quiet"@, "--vm"@, "16"@]);
            let p = tool.args(args);
            assert(optional_text_lists(p.args_set)->0 =~= seq![seq!["--quiet"@, "--vm"@, "16"@]]);
            p
        },
    }
}


/// Stopping a session closes exactly the tests its start started, unless
/// the automatic mode started none; and a test is selected exactly when its
/// bit is set.
pub proof fn law_stop_closes_what_start_started(combine: u8, mode: TestMode)
    ensures
        mode != TestMode::AutoJudge ==> kinds_to_start(combine, mode) == selected_kinds(combine),
        selected_kinds(combine).contains(TestKind::Cpu) <==> combine & CPU_TEST != 0,
        selected_kinds(combine).contains(TestKind::Gpu) <==> combine & GPU_TEST != 0,
        selected_kinds(combine).contains(TestKind::Ram) <==> combine & RAM_TEST != 0,
        selected_kinds(combine).no_duplicates(),
{
    let s = selected_kinds(combine);
    let a: Seq<TestKind> = if combine & CPU_TEST != 0 { seq![TestKind::Cpu] } else { Seq::empty() };
    let b: Seq<TestKind> = if combine & GPU_TEST != 0 { seq![TestKind::Gpu] } else { Seq::empty() };
    let c: Seq<TestKind> = if combine & RAM_TEST != 0 { seq![TestKind::Ram] } else { Seq::empty() };
    assert(s == a + b + c);
    if combine & CPU_TEST != 0 {
        assert(s[0] == TestKind::Cpu);
    }
    if combine & GPU_TEST != 0 {
        assert(s[a.len() as int] == TestKind::Gpu);
    }
    if combine & RAM_TEST != 0 {
        assert(s[(a.len() + b.len()) as int] == TestKind::Ram);
    }
}

} // verus!
