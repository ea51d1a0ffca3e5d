//! The engine behind a hardware and software monitor: the model of the
//! machine, the queries that read it, the request protocol spoken over TCP,
//! the configuration and the detection rules for package managers.
//!
//! Everything that touches the machine (sensors, processes, files, sockets)
//! lives outside this library; it hands plain values in and takes plain
//! values back.

use vstd::prelude::*;

pub mod cli;
pub mod config;
pub mod external;
pub mod external_program;
pub mod util;
pub mod monitor;
pub mod request;
pub mod stress_test;
pub mod web;

verus! {

/// Whether the engine's background workers should keep running.
pub struct RunState {
    running: bool,
}

impl RunState {
    /// The flag as the workers see it.
    pub closed spec fn running(&self) -> bool {
        self.running
    }

    /// A freshly started engine keeps running.
    pub fn new() -> (s: Self)
        ensures
            s.running(),
    {
        RunState { running: true }
    }

    /// The flag once stopped.
    pub closed spec fn stopped(self) -> RunState {
        RunState { running: false }
    }

    /// Asks every worker to stop. Stopping is the only change a flag can
    /// undergo, so once stopped it stays stopped.
    pub fn stop(&mut self)
        ensures
            *final(self) == old(self).stopped(),
            !final(self).running(),
    {
        self.running = false;
    }
}

/// Reads the running flag.
pub fn get_running_flag(state: &RunState) -> (r: bool)
    ensures
        r == state.running(),
{
    state.running
}

/// Once the flag is down it stays down: stopping gives a flag that does not
/// run, stopping again changes nothing, and a flag that does not run is
/// already stopped.
pub proof fn law_stopped_stays_stopped(s: RunState)
    ensures
        !s.stopped().running(),
        s.stopped().stopped() == s.stopped(),
        !s.running() ==> s.stopped() == s,
{
}

/// Errors the engine itself reports.
#[derive(Debug, Clone, Copy, PartialEq, Eq, Structural)]
pub enum EngineError {
    /// A reading's text is not the number it should be.
    InvalidNumber,
    /// A counter moved further than its type can hold.
    CounterOverflow,
}

/// Shuts the engine down. Nothing has to be released yet, so this always
/// succeeds.
pub fn shutdown() -> (r: Result<(), EngineError>)
    ensures
        r is Ok,
{
    Ok(())
}

} // verus!
