use vstd::prelude::*;

verus! {

/// A failed system call, carrying the platform's error code.
#[derive(Clone, Copy, Debug, PartialEq, Eq, Structural)]
pub struct OsError {
    pub code: i32,
}

impl OsError {
    pub fn new(code: i32) -> (r: OsError)
        ensures
            r.code == code,
    {
        OsError { code }
    }
}

} // verus!
