//! The shared counter store: the application's name, fixed at startup, and a
//! counter that greeting requests increment. A caller that serves requests
//! concurrently wraps the state in its mutual-exclusion primitive and holds
//! the guard exactly for the one call, so each method here is one indivisible
//! read or read-modify-write step.

use vstd::prelude::*;

verus! {

/// Process-wide state shared by all request handlers.
pub struct AppState {
    pub app_name: String,
    pub counter: u64,
}

impl AppState {
    /// A fresh state: the given application name, and the counter at zero.
    pub fn new(app_name: &str) -> (s: Self)
        ensures
            s.app_name@ == app_name@,
            s.counter == 0,
    {
        AppState { app_name: app_name.to_owned(), counter: 0 }
    }

    /// Increments the counter by one and returns the new value.
    pub fn increment_and_read(&mut self) -> (c: u64)
        requires
            old(self).counter < u64::MAX,
        ensures
            final(self).counter == old(self).counter + 1,
            final(self).app_name@ == old(self).app_name@,
            c == final(self).counter,
    {
        self.counter = self.counter + 1;
        self.counter
    }

    /// Reads the counter without changing anything.
    pub fn read(&self) -> (c: u64)
        ensures
            c == self.counter,
    {
        self.counter
    }
}

} // verus!
