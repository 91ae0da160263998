//! The process-replacement primitive's decision logic.
//!
//! Replacing the process image takes a program name and an argument
//! vector, each marshaled into null-terminated form. Everything about
//! that crossing that can be decided without the system call is decided
//! here: every string is checked for embedded null bytes before any
//! call is attempted (fail fast, program first, then the arguments in
//! order), and the argument vector is laid out as the exec family
//! expects it, the program name first. The call itself never returns on
//! success; when it does return, its error code is translated here.

use vstd::prelude::*;

use crate::marshal::{first_nul, has_nul, to_nul_terminated};

verus! {

/// An error from the process-replacement primitive.
#[derive(Debug, PartialEq, Eq, Structural, Clone, Copy)]
pub enum ExecError {
    /// The program name or an argument contained an embedded null byte
    /// at this position within it; no call was made.
    BadArgument { nul_position: usize },
    /// The system call returned, which it does only on failure, with
    /// this operating-system error code.
    Errno { code: i32 },
}

impl ExecError {
    /// A short description of the error kind.
    pub fn description(&self) -> (d: &'static str)
        ensures
            self is BadArgument ==> d@ == "bad argument to exec"@,
            self is Errno ==> d@ == "couldn't exec process"@,
    {
        match self {
            ExecError::BadArgument { .. } => "bad argument to exec",
            ExecError::Errno { .. } => "couldn't exec process",
        }
    }
}

/// Whether any of the argument strings contains an embedded null byte.
pub open spec fn any_has_nul(args: Seq<Seq<u8>>) -> bool {
    exists|k: int| 0 <= k < args.len() && has_nul(args[k])
}

/// Index of the first argument string containing a null byte;
/// meaningful only when `any_has_nul(args)` holds.
pub open spec fn first_bad_arg(args: Seq<Seq<u8>>) -> int
    decreases args.len(),
{
    if args.len() == 0 {
        0
    } else if has_nul(args[0]) {
        0
    } else {
        1 + first_bad_arg(args.drop_first())
    }
}

/// An offending argument at `k` with none before it is the first one.
proof fn lemma_first_bad_arg(args: Seq<Seq<u8>>, k: int)
    requires
        0 <= k < args.len(),
        has_nul(args[k]),
        forall|j: int| 0 <= j < k ==> !has_nul(args[j]),
    ensures
        any_has_nul(args),
        first_bad_arg(args) == k,
    decreases k,
{
    if k > 0 {
        assert(!has_nul(args[0]));
        assert(has_nul(args.drop_first()[k - 1]));
        assert(forall|j: int| 0 <= j < k - 1 ==> !has_nul(args.drop_first()[j]));
        lemma_first_bad_arg(args.drop_first(), k - 1);
    }
}

/// The argument vector handed to the exec family: the program name
/// first, then the arguments, each in null-terminated form. (The final
/// null pointer sentinel is a pointer-level concern, added where the
/// call is made.)
pub open spec fn exec_argv(program: Seq<u8>, args: Seq<Seq<u8>>) -> Seq<Seq<u8>> {
    seq![program.push(0u8)] + args.map_values(|a: Seq<u8>| a.push(0u8))
}

/// A process-replacement request, ready for the operating system.
#[derive(Debug, PartialEq, Eq)]
pub struct ExecRequest {
    pub program_z: Vec<u8>,
    pub argv_z: Vec<Vec<u8>>,
}

/// Marshals a process-replacement request. Any embedded null byte
/// anywhere aborts with `BadArgument` before the request exists, so no
/// system call can follow; the reported position is that of the first
/// null byte in the first offending string, the program name being
/// checked first.
pub fn execvp_request(program: &Vec<u8>, args: &Vec<Vec<u8>>) -> (r: Result<
    ExecRequest,
    ExecError,
>)
    ensures
        match r {
            Ok(req) => {
                &&& !has_nul(program@)
                &&& !any_has_nul(args.deep_view())
                &&& req.program_z@ == program@.push(0u8)
                &&& req.argv_z.deep_view() == exec_argv(program@, args.deep_view())
            },
            Err(e) => {
                &&& has_nul(program@) || any_has_nul(args.deep_view())
                &&& e matches ExecError::BadArgument { nul_position }
                &&& nul_position as int == (if has_nul(program@) {
                    first_nul(program@)
                } else {
                    first_nul(args.deep_view()[first_bad_arg(args.deep_view())])
                })
            },
        },
{
    let program_z = match to_nul_terminated(program) {
        Ok(z) => z,
        Err(i) => {
            return Err(ExecError::BadArgument { nul_position: i });
        },
    };
    let mut argv_z: Vec<Vec<u8>> = Vec::new();
    let argv0 = program_z.clone();
    proof {
        assert(argv0@ =~= program_z@);
    }
    argv_z.push(argv0);
    let ghost gargs = args.deep_view();
    let mut k: usize = 0;
    while k < args.len()
        invariant
            k <= args.len(),
            gargs == args.deep_view(),
            gargs.len() == args.len(),
            forall|j: int| 0 <= j < k ==> !has_nul(gargs[j]),
            argv_z@.len() == k + 1,
            argv_z@[0]@ == program@.push(0u8),
            forall|j: int| 1 <= j <= k ==> #[trigger] argv_z@[j]@ == gargs[j - 1].push(0u8),
            !has_nul(program@),
        decreases args.len() - k,
    {
        match to_nul_terminated(&args[k]) {
            Ok(z) => {
                proof {
                    assert(gargs[k as int] =~= args@[k as int]@);
                }
                argv_z.push(z);
            },
            Err(i) => {
                proof {
                    assert(gargs[k as int] =~= args@[k as int]@);
                    lemma_first_bad_arg(gargs, k as int);
                }
                return Err(ExecError::BadArgument { nul_position: i });
            },
        }
        k += 1;
    }
    proof {
        assert(argv_z.deep_view() =~~= exec_argv(program@, gargs));
    }
    Ok(ExecRequest { program_z, argv_z })
}

/// Translates the exec system call's return into the error it reports:
/// the call returns only on failure, so every return carries the
/// operating-system error code.
pub fn execvp_failure(err_code: i32) -> (r: ExecError)
    ensures
        r == (ExecError::Errno { code: err_code }),
{
    ExecError::Errno { code: err_code }
}

} // verus!
