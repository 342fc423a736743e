//! The extension object: finds the server in a worktree and builds its
//! command line.

use vstd::prelude::*;

use crate::host::{host_os, which};
use crate::resolver::{
    binary_from_lookup, invocation_for, resolution_view, spec_resolve, CliceBinary,
    HostOs, InvocationDescriptor, ResolutionError, Variant,
};
use zed_extension_api::Worktree;

verus! {

/// The extension. It keeps nothing between requests: every request looks the
/// server up again. Its one setting is the command-line variant.
#[derive(Clone, Copy, Debug, PartialEq, Eq, Structural)]
pub struct CliceExtension {
    pub variant: Variant,
}

impl CliceExtension {
    /// The extension with the minimal command line.
    pub fn new() -> (r: Self)
        ensures
            r.variant == Variant::Minimal,
    {
        CliceExtension { variant: Variant::Minimal }
    }

    /// The extension with the given command-line variant.
    pub fn with_variant(variant: Variant) -> (r: Self)
        ensures
            r.variant == variant,
    {
        CliceExtension { variant }
    }

    /// Looks `clice` up on the worktree's search path.
    pub fn find_clice_binary(&self, worktree: &Worktree) -> (r: Result<CliceBinary, ResolutionError>)
        ensures
            r is Err ==> r->Err_0 == ResolutionError::NotFound,
    {
        binary_from_lookup(which(worktree, "clice"))
    }

    /// The command line that starts the server for `worktree`, or why there is
    /// none. Whatever the search path and the system hold, the outcome is the
    /// one that resolution gives for some lookup result on some system.
    pub fn language_server_command(&mut self, worktree: &Worktree) -> (r: Result<
        InvocationDescriptor,
        ResolutionError,
    >)
        ensures
            *final(self) == *old(self),
            exists|found: Option<Seq<char>>, os: HostOs|
                resolution_view(r) == spec_resolve(found, old(self).variant, os),
    {
        let binary = match self.find_clice_binary(worktree) {
            Ok(b) => b,
            Err(e) => {
                assert(resolution_view(Err(e)) == spec_resolve(None, self.variant, HostOs::Linux));
                return Err(e);
            },
        };
        let ghost path = binary.path@;
        let os = host_os();
        let r = invocation_for(binary, self.variant, os);
        assert(resolution_view(r) == spec_resolve(Some(path), self.variant, os));
        r
    }
}

} // verus!
