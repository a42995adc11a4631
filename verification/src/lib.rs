//! Detection of process forks.
//!
//! A guard remembers what it last observed of the process (its id, or the
//! number of forks that a fork handler has counted) and reports a fork when
//! a later observation differs. The observations themselves are made by the
//! caller; the guards hold the decisions.

pub mod atfork;
pub mod detection;
pub mod noop;
pub mod pid;
pub mod text;

use vstd::prelude::*;
use core::convert::Infallible;

pub use pid::Guard;

verus! {

/// The kinds of guard this crate provides.
#[derive(Debug, Clone, PartialEq, Eq, Hash, Structural)]
#[non_exhaustive]
pub enum Flavor {
    /// The guard fed by a `pthread_atfork()` child handler.
    Atfork,
    /// The guard that tracks the process id.
    Pid,
    /// The guard that never reports a fork.
    Noop,
}

/// The name under which a flavor is printed.
pub open spec fn flavor_name(f: Flavor) -> Seq<char> {
    match f {
        Flavor::Atfork => "Atfork"@,
        Flavor::Pid => "Pid"@,
        Flavor::Noop => "Noop"@,
    }
}

impl Flavor {
    /// The flavor's name, as its `Debug` output prints it.
    pub fn name(&self) -> (s: &'static str)
        ensures
            s@ == flavor_name(*self),
    {
        match self {
            Flavor::Atfork => "Atfork",
            Flavor::Pid => "Pid",
            Flavor::Noop => "Noop",
        }
    }
}

/// Creates a guard of the active flavor (the process-id guard) for the
/// process whose id is `current_pid`.
pub fn new(current_pid: u32) -> (guard: Guard)
    ensures
        guard@ == current_pid,
{
    Guard::from_pid(current_pid)
}

/// Creates a guard of the active flavor for the process whose id is
/// `current_pid`; the process-id guard never fails.
pub fn try_new(current_pid: u32) -> (res: Result<Guard, Infallible>)
    ensures
        res matches Ok(guard) && guard@ == current_pid,
{
    Guard::try_new(current_pid)
}

} // verus!
