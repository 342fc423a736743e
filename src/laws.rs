//! Properties of resolution that hold for every search-path state.

use vstd::prelude::*;

use crate::path::{has_separator, is_separator, last_separator, lemma_last_separator};
use crate::resolver::{
    resolution_view, spec_resolve, HostOs, InvocationDescriptor, InvocationView, ResolutionError,
    Variant,
};

verus! {

/// Where the server is not on the search path, resolution fails with
/// `NotFound` under every variant and on every system, and never yields a
/// command line.
pub proof fn law_absent_tool_not_found(variant: Variant, os: HostOs)
    ensures
        spec_resolve(None, variant, os) == Err::<InvocationView, ResolutionError>(
            ResolutionError::NotFound,
        ),
{
}

/// Where the path found holds a separator (`/` or `\`), the resource-directory
/// variant yields a command line whose resource directory is the part of the
/// path before its rightmost separator, joined with `lib` by the separator of
/// the running system; the arguments pass that directory before the transport
/// mode.
pub proof fn law_resource_dir_from_parent(path: Seq<char>, os: HostOs)
    requires
        has_separator(path),
    ensures
        ({
            let k = last_separator(path);
            let dir = path.subrange(0, k) + seq![os.spec_separator()] + "lib"@;
            &&& 0 <= k < path.len()
            &&& is_separator(path[k])
            &&& forall|j: int| k < j < path.len() ==> !is_separator(#[trigger] path[j])
            &&& spec_resolve(Some(path), Variant::ResourceDir, os) is Ok
            &&& spec_resolve(Some(path), Variant::ResourceDir, os)->Ok_0.executable_path == path
            &&& spec_resolve(Some(path), Variant::ResourceDir, os)->Ok_0.auxiliary_dir == Some(dir)
            &&& spec_resolve(Some(path), Variant::ResourceDir, os)->Ok_0.arguments == seq![
                "--resource-dir"@,
                dir,
                "--mode"@,
                "pipe"@,
            ]
        }),
{
    lemma_last_separator(path);
}

/// Where the path found holds no separator, the resource-directory variant
/// fails with `PathNotAbsolute` and never yields a command line.
pub proof fn law_bare_name_not_absolute(path: Seq<char>, os: HostOs)
    requires
        !has_separator(path),
    ensures
        spec_resolve(Some(path), Variant::ResourceDir, os) == Err::<
            InvocationView,
            ResolutionError,
        >(ResolutionError::PathNotAbsolute),
{
    lemma_last_separator(path);
}

/// Two resolutions against the same lookup result give identical outcomes:
/// the same executable, resource directory and arguments, character for
/// character, or the same error.
pub proof fn law_resolve_idempotent(
    found: Option<Seq<char>>,
    variant: Variant,
    os: HostOs,
    first: Result<InvocationDescriptor, ResolutionError>,
    second: Result<InvocationDescriptor, ResolutionError>,
)
    requires
        resolution_view(first) == spec_resolve(found, variant, os),
        resolution_view(second) == spec_resolve(found, variant, os),
    ensures
        resolution_view(first) == resolution_view(second),
        first is Ok <==> second is Ok,
        first is Err ==> first->Err_0 == second->Err_0,
{
}

} // verus!
