//! Decision rules of secret materialization.
//!
//! Materialization installs each declared secret into the process
//! environment or the file system. The decisions are made here, the
//! effects are performed by the unverified binary: for a variable,
//! which value (if any) to store given the override policy; for a file,
//! the exact ordered plan of steps, empty for a file that already
//! exists (idempotency) and permission-restricting before any content
//! is written (a secret file must never be observable with broader
//! access, even momentarily).

use vstd::prelude::*;

verus! {

/// Owner-read-only permission bits: no write, no execute, nothing for
/// group or other.
pub const OWNER_READ_ONLY: u32 = 0o400;

/// One step of materializing a secret file, to be performed in plan
/// order by the caller.
#[derive(Debug, PartialEq, Eq, Structural, Clone, Copy)]
pub enum FileAction {
    /// Create the missing parent directories of the path, if any.
    EnsureDirs,
    /// Create the file itself, empty.
    CreateFile,
    /// Restrict the file's permission bits to this mode.
    SetPermissions { mode: u32 },
    /// Fetch the file's bytes from the secret provider.
    FetchContent,
    /// Write the fetched bytes to the file in full.
    WriteContent,
}

/// The plan for one declared file path: nothing at all when a file
/// already exists there, otherwise the five steps in their one valid
/// order.
pub open spec fn file_plan_spec(exists: bool) -> Seq<FileAction> {
    if exists {
        Seq::<FileAction>::empty()
    } else {
        seq![
            FileAction::EnsureDirs,
            FileAction::CreateFile,
            FileAction::SetPermissions { mode: OWNER_READ_ONLY },
            FileAction::FetchContent,
            FileAction::WriteContent,
        ]
    }
}

/// Plans the materialization of one declared file path, given whether
/// a file already exists there.
pub fn plan_file(exists: bool) -> (plan: Vec<FileAction>)
    ensures
        plan@ == file_plan_spec(exists),
{
    let mut plan: Vec<FileAction> = Vec::new();
    if !exists {
        plan.push(FileAction::EnsureDirs);
        plan.push(FileAction::CreateFile);
        plan.push(FileAction::SetPermissions { mode: OWNER_READ_ONLY });
        plan.push(FileAction::FetchContent);
        plan.push(FileAction::WriteContent);
    }
    proof {
        assert(plan@ =~= file_plan_spec(exists));
    }
    plan
}

/// A path at which a file already exists is left entirely alone:
/// nothing is fetched, created, rewritten or re-permissioned, so
/// repeated runs never clobber a secret materialized or hand-edited
/// earlier.
pub proof fn lemma_existing_file_untouched()
    ensures
        file_plan_spec(true) == Seq::<FileAction>::empty(),
{
}

/// In every file plan, the permission bits are restricted to
/// owner-read-only strictly before any content is written: no step
/// before the restriction writes content, and every content write is
/// preceded by the restriction.
pub proof fn lemma_permissions_before_content(exists: bool)
    ensures
        forall|i: int|
            0 <= i < file_plan_spec(exists).len() && file_plan_spec(exists)[i]
                is WriteContent ==> exists|j: int|
                0 <= j < i && file_plan_spec(exists)[j] == (FileAction::SetPermissions {
                    mode: OWNER_READ_ONLY,
                }),
{
    if !exists {
        assert forall|i: int|
            0 <= i < file_plan_spec(exists).len() && file_plan_spec(exists)[i]
                is WriteContent implies exists|j: int|
            0 <= j < i && file_plan_spec(exists)[j] == (FileAction::SetPermissions {
                mode: OWNER_READ_ONLY,
            }) by {
            assert(file_plan_spec(exists)[2] == (FileAction::SetPermissions {
                mode: OWNER_READ_ONLY,
            }));
            assert(i == 4);
        }
    }
}

/// The value a declared environment variable holds after
/// materialization: the resolved value, unless overriding is
/// disallowed and the variable already had one, in which case the
/// existing value wins.
pub open spec fn env_update_spec(
    allow_override: bool,
    existing: Option<Seq<char>>,
    resolved: Seq<char>,
) -> Option<Seq<char>> {
    if allow_override || existing is None {
        Some(resolved)
    } else {
        None
    }
}

/// Decides what to store in a declared environment variable, given the
/// override policy, the variable's current value, and the value the
/// provider resolved (the provider is always consulted first, so that
/// resolution failures surface even for a value that loses). `None`
/// means the variable is left exactly as it is.
pub fn env_update(allow_override: bool, existing: &Option<String>, resolved: String) -> (r: Option<
    String,
>)
    ensures
        r.deep_view() == env_update_spec(allow_override, existing.deep_view(), resolved@),
        !allow_override && existing is Some ==> r is None,
{
    if allow_override {
        Some(resolved)
    } else {
        match existing {
            Option::None => Some(resolved),
            Option::Some(_) => None,
        }
    }
}

} // verus!
