//! A guard that detects forks by tracking the process id.
//!
//! Only the child of a fork gets a new process id, so the guard reports a
//! fork only in the child. The caller reads the process id and hands it in.

use vstd::prelude::*;
use core::convert::Infallible;
use crate::Flavor;
use crate::detection::reports_fork;
use crate::text::{append_decimal, decimal, is_decimal_text_of, lemma_decimal_reads_back};
use crate::flavor_name;

verus! {

/// A fork guard that remembers the process id it last observed.
pub struct Guard {
    last_pid: u32,
}

impl View for Guard {
    type V = u32;

    /// The process id that the guard last observed.
    closed spec fn view(&self) -> u32 {
        self.last_pid
    }
}

/// The debug text of a guard that last observed `last_pid`.
pub open spec fn pid_debug_text(last_pid: u32) -> Seq<char> {
    "Guard { flavor(): "@ + flavor_name(Flavor::Pid) + ", last_pid: "@ + decimal(last_pid as nat)
        + " }"@
}

/// The debug text of a process-id guard names its flavor and then the process
/// id it last observed, in its usual base-10 text.
pub proof fn lemma_pid_debug_text_shows_pid(last_pid: u32)
    ensures
        exists|t: Seq<char>|
            #![trigger is_decimal_text_of(t, last_pid as int)]
            pid_debug_text(last_pid) == "Guard { flavor(): Pid, last_pid: "@ + t + " }"@
                && is_decimal_text_of(t, last_pid as int),
{
    reveal_strlit("Guard { flavor(): ");
    reveal_strlit("Pid");
    reveal_strlit(", last_pid: ");
    reveal_strlit("Guard { flavor(): Pid, last_pid: ");
    lemma_decimal_reads_back(last_pid as nat);
    let t = decimal(last_pid as nat);
    assert(pid_debug_text(last_pid) =~= "Guard { flavor(): Pid, last_pid: "@ + t + " }"@);
}

impl Guard {
    /// The flavor of this guard type.
    pub const FLAVOR: Flavor = Flavor::Pid;

    /// Creates a guard for the process whose id is `current_pid`.
    pub fn from_pid(current_pid: u32) -> (guard: Guard)
        ensures
            guard@ == current_pid,
    {
        Guard { last_pid: current_pid }
    }

    /// Creates a guard for the process whose id is `current_pid`; never fails.
    pub fn try_new(current_pid: u32) -> (res: Result<Guard, Infallible>)
        ensures
            res matches Ok(guard) && guard@ == current_pid,
    {
        Ok(Guard::from_pid(current_pid))
    }

    /// Given the current process id, returns `true` when it differs from the
    /// one the guard last observed (the process is a forked child since the
    /// last check), and remembers it.
    pub fn detected_fork(&mut self, current_pid: u32) -> (forked: bool)
        ensures
            forked == reports_fork(old(self)@ as int, current_pid as int),
            final(self)@ == current_pid,
    {
        if self.last_pid == current_pid {
            false
        } else {
            self.set_pid(current_pid);
            true
        }
    }

    fn set_pid(&mut self, value: u32)
        ensures
            final(self)@ == value,
    {
        self.last_pid = value;
    }

    /// Returns the flavor of this guard.
    pub fn flavor(&self) -> (f: Flavor)
        ensures
            f == Self::FLAVOR,
    {
        Flavor::Pid
    }

    /// The text that the guard's `Debug` output gives: its flavor and the
    /// process id it last observed.
    pub fn debug_string(&self) -> (s: String)
        ensures
            s@ == pid_debug_text(self@),
    {
        let mut s = String::from_str("Guard { flavor(): ");
        s.append(self.flavor().name());
        s.append(", last_pid: ");
        append_decimal(&mut s, self.last_pid as u64);
        s.append(" }");
        s
    }
}

} // verus!
