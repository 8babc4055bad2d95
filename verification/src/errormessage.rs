use vstd::prelude::*;
use vstd::string::StringExecFns;

use crate::error::Error;

verus! {

/// Adds a method `msg()` to result types, which prefixes errors with an
/// extra message: `compute().msg("load configuration")?` returns the
/// underlying error prefixed with `"load configuration: "`.
pub trait ErrorMessage<T>: Sized {
    fn msg(self, x: &str) -> Result<T, Error>;
}

impl<T> ErrorMessage<T> for Result<T, Error> {
    fn msg(self, x: &str) -> (r: Result<T, Error>)
        ensures
            self matches Ok(v) ==> r matches Ok(w) && w == v,
            self matches Err(e) ==> r matches Err(e2) && e2.msg@ == x@ + ": "@ + e.msg@,
    {
        match self {
            Ok(v) => Ok(v),
            Err(e) => {
                let mut m = String::from_str(x);
                m.append(": ");
                m.append(e.msg.as_str());
                Err(Error { msg: m })
            },
        }
    }
}

} // verus!
