//! A guard that never reports a fork.
//!
//! It suits platforms where fork detection is not supported or not needed.

use vstd::prelude::*;
use core::convert::Infallible;
use crate::{flavor_name, Flavor};

verus! {

/// A fork guard that does nothing: `detected_fork` always returns `false`.
pub struct Guard {
    _private: (),
}

/// The one value a no-op guard can have: it holds nothing.
pub closed spec fn the_guard() -> Guard {
    Guard { _private: () }
}

impl Clone for Guard {
    fn clone(&self) -> (copy: Guard)
        ensures
            copy == *self,
    {
        Guard { _private: () }
    }
}

impl Default for Guard {
    fn default() -> (guard: Guard)
        ensures
            guard == the_guard(),
    {
        Guard { _private: () }
    }
}

/// The debug text of a no-op guard.
pub open spec fn noop_debug_text() -> Seq<char> {
    "Guard { flavor(): "@ + flavor_name(Flavor::Noop) + " }"@
}

impl Guard {
    /// The flavor of this guard type.
    pub const FLAVOR: Flavor = Flavor::Noop;

    /// Creates a new guard; never fails.
    pub fn try_new() -> (res: Result<Guard, Infallible>)
        ensures
            res == Ok::<Guard, Infallible>(the_guard()),
    {
        Ok(Guard::default())
    }

    /// Always returns `false`, and leaves the guard as it was.
    pub fn detected_fork(&mut self) -> (forked: bool)
        ensures
            !forked,
            *final(self) == *old(self),
    {
        false
    }

    /// Returns the flavor of this guard.
    pub fn flavor(&self) -> (f: Flavor)
        ensures
            f == Self::FLAVOR,
    {
        Flavor::Noop
    }

    /// The text that the guard's `Debug` output gives: its flavor.
    pub fn debug_string(&self) -> (s: String)
        ensures
            s@ == noop_debug_text(),
    {
        let mut s = String::from_str("Guard { flavor(): ");
        s.append(self.flavor().name());
        s.append(" }");
        s
    }
}

} // verus!
