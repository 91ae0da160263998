//! The permission-setting primitive's decision logic.
//!
//! Changing a file's permission bits crosses the operating-system
//! boundary. Everything about that crossing that can be decided without
//! the system call is decided here: a path is marshaled into its
//! null-terminated form (rejecting embedded null bytes before any call
//! is attempted), and the call's integer result is translated back into
//! a `Result`. The unverified binary performs only the call itself,
//! between these two steps.

use vstd::prelude::*;

use crate::marshal::{first_nul, has_nul, to_nul_terminated};

verus! {

/// An error from the permission-setting primitive.
#[derive(Debug, PartialEq, Eq, Structural, Clone, Copy)]
pub enum ChmodError {
    /// The path contained an embedded null byte at this position and
    /// cannot be passed to the operating system; no call was made.
    BadArgument { nul_position: usize },
    /// The system call failed with this operating-system error code.
    Errno { code: i32 },
}

impl ChmodError {
    /// A short description of the error kind.
    pub fn description(&self) -> (d: &'static str)
        ensures
            self is BadArgument ==> d@ == "bad argument to chmod"@,
            self is Errno ==> d@ == "couldn't chmod file"@,
    {
        match self {
            ChmodError::BadArgument { .. } => "bad argument to chmod",
            ChmodError::Errno { .. } => "couldn't chmod file",
        }
    }
}

/// A permission-change request, ready for the operating system: the
/// path in null-terminated form, and the permission bits to apply.
#[derive(Debug, PartialEq, Eq)]
pub struct ChmodRequest {
    pub path_z: Vec<u8>,
    pub mode: u32,
}

/// Marshals a permission-change request. A path with an embedded null
/// byte is rejected with `BadArgument` and the position of the first
/// such byte; no request is produced, so no system call can follow.
pub fn chmod_request(path: &Vec<u8>, mode: u32) -> (r: Result<ChmodRequest, ChmodError>)
    ensures
        match r {
            Ok(req) => {
                &&& !has_nul(path@)
                &&& req.path_z@ == path@.push(0u8)
                &&& req.mode == mode
            },
            Err(e) => {
                &&& has_nul(path@)
                &&& e == (ChmodError::BadArgument { nul_position: first_nul(path@) as usize })
            },
        },
{
    match to_nul_terminated(path) {
        Ok(path_z) => Ok(ChmodRequest { path_z, mode }),
        Err(i) => Err(ChmodError::BadArgument { nul_position: i }),
    }
}

/// Translates the permission system call's return value: a negative
/// result is a failure carrying the reported operating-system error
/// code, anything else is success.
pub fn chmod_outcome(res: i32, err_code: i32) -> (r: Result<(), ChmodError>)
    ensures
        res < 0 ==> r == Result::<(), ChmodError>::Err(ChmodError::Errno { code: err_code }),
        res >= 0 ==> r is Ok,
{
    if res < 0 {
        Err(ChmodError::Errno { code: err_code })
    } else {
        Ok(())
    }
}

} // verus!
