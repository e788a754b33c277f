//! The error type every fallible operation of this crate reports.

use vstd::prelude::*;

verus! {

/// An error carrying a human-readable description of what went wrong:
/// a full atlas grid, a texture id that a layer does not hold, or a
/// pixel buffer whose size does not match its declared dimensions.
#[derive(Debug)]
pub struct EffectError {
    pub msg: String,
}

impl EffectError {
    /// Wraps a message in an error value.
    pub fn new(msg: &str) -> (r: Self)
        ensures
            r.msg@ == msg@,
    {
        Self { msg: msg.to_owned() }
    }

    /// The description this error was built with.
    pub fn message(&self) -> (r: &str)
        ensures
            r@ == self.msg@,
    {
        self.msg.as_str()
    }
}

} // verus!
