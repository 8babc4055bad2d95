use vstd::prelude::*;

verus! {

/// An error carrying a human-readable message.
#[derive(Debug)]
pub struct Error {
    pub msg: String,
}

/// Wrap a message as an `Error`.
pub fn error(msg: String) -> (r: Error)
    ensures
        r == (Error { msg }),
{
    Error { msg }
}

} // verus!
