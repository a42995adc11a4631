//! A guard that detects forks through a `pthread_atfork()` child handler.
//!
//! The handler, registered once per process, adds one to a process-wide
//! counter in every forked child. The guard remembers the count it last
//! observed and reports a fork when the count has moved, so, as with the
//! process-id guard, only the child sees a fork. Registering the handler and
//! reading the counter are done by the caller; the guard decides.

use vstd::prelude::*;
use libc::c_int;
use crate::Flavor;
use crate::detection::reports_fork;
use crate::text::{
    append_decimal,
    append_signed_decimal,
    decimal,
    is_decimal_text_of,
    is_signed_decimal_text_of,
    lemma_decimal_reads_back,
    lemma_signed_decimal_reads_back,
    signed_decimal,
};
use crate::flavor_name;

verus! {

/// A fork guard that remembers the fork count it last observed.
#[derive(Debug)]
pub struct Guard {
    last_fork_count: usize,
}

impl View for Guard {
    type V = usize;

    /// The fork count that the guard last observed.
    closed spec fn view(&self) -> usize {
        self.last_fork_count
    }
}

/// The error that a failed `pthread_atfork()` gives: its nonzero return code.
#[derive(Debug)]
pub struct AtforkError(c_int);

impl View for AtforkError {
    type V = c_int;

    /// The return code of the failed registration.
    closed spec fn view(&self) -> c_int {
        self.0
    }
}

impl AtforkError {
    /// A failure is never reported with the code of success.
    #[verifier::type_invariant]
    spec fn code_is_nonzero(self) -> bool {
        self.0 != 0
    }

    /// Returns the raw error code from `pthread_atfork()`.
    pub fn code(&self) -> (code: c_int)
        ensures
            code == self@,
            code != 0,
    {
        proof {
            use_type_invariant(self);
        }
        self.0
    }

    /// The error's message, as its `Display` output gives it.
    pub fn to_string(&self) -> (s: String)
        ensures
            s@ == atfork_error_text(self@ as int),
    {
        let mut s = String::from_str("pthread_atfork() failed (code: ");
        append_signed_decimal(&mut s, self.0);
        s.append(")");
        s
    }
}

/// The message of an error with return code `code`.
pub open spec fn atfork_error_text(code: int) -> Seq<char> {
    "pthread_atfork() failed (code: "@ + signed_decimal(code) + ")"@
}

/// The debug text of a guard that last observed the fork count
/// `last_fork_count`.
pub open spec fn atfork_debug_text(last_fork_count: usize) -> Seq<char> {
    "Guard { flavor(): "@ + flavor_name(Flavor::Atfork) + ", last_fork_count: "@ + decimal(
        last_fork_count as nat,
    ) + " }"@
}

/// The debug text of a fork-count guard names its flavor and then the fork
/// count it last observed, in its usual base-10 text.
pub proof fn lemma_atfork_debug_text_shows_count(last_fork_count: usize)
    ensures
        exists|t: Seq<char>|
            #![trigger is_decimal_text_of(t, last_fork_count as int)]
            atfork_debug_text(last_fork_count) == "Guard { flavor(): Atfork, last_fork_count: "@
                + t + " }"@ && is_decimal_text_of(t, last_fork_count as int),
{
    reveal_strlit("Guard { flavor(): ");
    reveal_strlit("Atfork");
    reveal_strlit(", last_fork_count: ");
    reveal_strlit("Guard { flavor(): Atfork, last_fork_count: ");
    lemma_decimal_reads_back(last_fork_count as nat);
    let t = decimal(last_fork_count as nat);
    assert(atfork_debug_text(last_fork_count) =~= "Guard { flavor(): Atfork, last_fork_count: "@
        + t + " }"@);
}

/// The message of a failed registration gives the return code in its usual
/// signed base-10 text.
pub proof fn lemma_atfork_error_text_shows_code(code: int)
    ensures
        exists|t: Seq<char>|
            #![trigger is_signed_decimal_text_of(t, code)]
            atfork_error_text(code) == "pthread_atfork() failed (code: "@ + t + ")"@
                && is_signed_decimal_text_of(t, code),
{
    lemma_signed_decimal_reads_back(code);
    let t = signed_decimal(code);
    assert(atfork_error_text(code) == "pthread_atfork() failed (code: "@ + t + ")"@);
}

impl Guard {
    /// The flavor of this guard type.
    pub const FLAVOR: Flavor = Flavor::Atfork;

    /// Creates a guard from the result of registering the fork handler and
    /// the fork count observed now: a guard when the registration returned
    /// 0, else the error with the code it returned.
    pub fn try_new(atfork_result: c_int, current_fork_count: usize) -> (res: Result<
        Guard,
        AtforkError,
    >)
        ensures
            res is Ok <==> atfork_result == 0,
            res matches Ok(guard) ==> guard@ == current_fork_count,
            res matches Err(err) ==> err@ == atfork_result,
    {
        if atfork_result == 0 {
            Ok(Guard { last_fork_count: current_fork_count })
        } else {
            Err(AtforkError(atfork_result))
        }
    }

    /// Given the current fork count, returns `true` when it differs from the
    /// one the guard last observed (a fork happened since the last check and
    /// this is the child), and remembers it.
    pub fn detected_fork(&mut self, current_fork_count: usize) -> (forked: bool)
        ensures
            forked == reports_fork(old(self)@ as int, current_fork_count as int),
            final(self)@ == current_fork_count,
    {
        if self.last_fork_count == current_fork_count {
            false
        } else {
            self.set_fork_count(current_fork_count);
            true
        }
    }

    fn set_fork_count(&mut self, value: usize)
        ensures
            final(self)@ == value,
    {
        self.last_fork_count = value;
    }

    /// Returns the flavor of this guard.
    pub fn flavor(&self) -> (f: Flavor)
        ensures
            f == Self::FLAVOR,
    {
        Flavor::Atfork
    }

    /// The text that the guard's `Debug` output gives: its flavor and the
    /// fork count it last observed.
    pub fn debug_string(&self) -> (s: String)
        ensures
            s@ == atfork_debug_text(self@),
    {
        let mut s = String::from_str("Guard { flavor(): ");
        s.append(self.flavor().name());
        s.append(", last_fork_count: ");
        append_decimal(&mut s, self.last_fork_count as u64);
        s.append(" }");
        s
    }
}

} // verus!
