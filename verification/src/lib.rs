//! Browser automation instructions over a single WebDriver session.
//!
//! The crate is organised around two concerns. The session module decides
//! how a browser session is established (reuse a running driver or spawn a
//! managed child process), how it is shut down, and how an element lookup
//! polls until its timeout. The codec module carries element references
//! across instruction calls as opaque strings. The args module parses the
//! configured driver and browser argument strings.

use vstd::prelude::*;

pub mod args;
pub mod codec;
pub mod evidence;
pub mod session;

verus! {

/// Errors raised by the engine itself, before any backend is involved.
#[derive(Debug)]
pub enum EngineError {
    /// An instruction that needs an active session was invoked with none.
    NotInitialised,
}

impl EngineError {
    /// The caller-visible description of this error.
    pub fn message(&self) -> (m: &'static str)
        ensures
            m@ == "The browser robot hasn't been initialised before use."@,
    {
        "The browser robot hasn't been initialised before use."
    }
}

} // verus!
