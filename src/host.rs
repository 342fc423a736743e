//! What only the editor host can answer, through zed_extension_api.

use vstd::prelude::*;

use crate::resolver::HostOs;
use zed_extension_api::{Os, Worktree};

verus! {

/// A project worktree of the editor, opaque here.
#[verifier::external_type_specification]
#[verifier::external_body]
pub struct ExWorktree(Worktree);

/// Relies on `Worktree::which`: the host searches the worktree's executable
/// search path for `name`. The answer depends on the machine, so nothing is
/// stated of it.
#[verifier::external_body]
pub(crate) fn which(worktree: &Worktree, name: &str) -> (r: Option<String>) {
    worktree.which(name)
}

/// Relies on `zed_extension_api::current_platform`: the host reports the
/// operating system it runs on. The answer depends on the machine, so nothing
/// is stated of it.
#[verifier::external_body]
pub(crate) fn host_os() -> (r: HostOs) {
    match zed_extension_api::current_platform().0 {
        Os::Mac => HostOs::Mac,
        Os::Linux => HostOs::Linux,
        Os::Windows => HostOs::Windows,
    }
}

} // verus!
