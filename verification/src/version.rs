//! The version of this runtime, as the node and other runtimes see it.
use vstd::prelude::*;
use std::collections::HashSet;

verus! {

/// The identifier of a runtime API.
pub type ApiId = [u8; 8];

/// The name of this runtime, for both its specification and its implementation.
pub const RUNTIME_NAME: &'static str = "cumulus-subsocial-parachain";

/// The version information of a runtime.
#[derive(Clone, Debug, PartialEq, Eq)]
pub struct RuntimeVersion {
    /// The name of the runtime's specification.
    pub spec_name: String,
    /// The name of the implementation of the specification.
    pub impl_name: String,
    /// Version of the block-authoring logic.
    pub authoring_version: u32,
    /// Version of the specification.
    pub spec_version: u32,
    /// Version of the implementation of the specification.
    pub impl_version: u32,
    /// The runtime APIs that the runtime offers, each with its version.
    pub apis: Vec<(ApiId, u32)>,
    /// Version of the extrinsic format.
    pub transaction_version: u32,
}

/// The version of a runtime when it runs natively.
#[derive(Debug)]
pub struct NativeVersion {
    /// The runtime's own version.
    pub runtime_version: RuntimeVersion,
    /// The `spec_version`s of the runtimes that this native runtime can also author
    /// blocks for.
    pub can_author_with: HashSet<u32>,
}

/// The version of this runtime, offering the runtime APIs `apis` (which the runtime-API
/// declaration lists): named "cumulus-subsocial-parachain" for both specification and
/// implementation, with every version number at 1.
pub fn version(apis: Vec<(ApiId, u32)>) -> (r: RuntimeVersion)
    ensures
        r.spec_name@ == RUNTIME_NAME@,
        r.impl_name@ == RUNTIME_NAME@,
        r.authoring_version == 1,
        r.spec_version == 1,
        r.impl_version == 1,
        r.apis@ == apis@,
        r.transaction_version == 1,
{
    RuntimeVersion {
        spec_name: RUNTIME_NAME.to_owned(),
        impl_name: RUNTIME_NAME.to_owned(),
        authoring_version: 1,
        spec_version: 1,
        impl_version: 1,
        apis,
        transaction_version: 1,
    }
}

/// The version information used to identify this runtime when compiled natively: its
/// version, and no other runtime that it can author blocks for.
pub fn native_version(apis: Vec<(ApiId, u32)>) -> (r: NativeVersion)
    ensures
        r.runtime_version.spec_name@ == RUNTIME_NAME@,
        r.runtime_version.impl_name@ == RUNTIME_NAME@,
        r.runtime_version.authoring_version == 1,
        r.runtime_version.spec_version == 1,
        r.runtime_version.impl_version == 1,
        r.runtime_version.apis@ == apis@,
        r.runtime_version.transaction_version == 1,
        r.can_author_with@ == Set::<u32>::empty(),
{
    NativeVersion { runtime_version: version(apis), can_author_with: HashSet::new() }
}

} // verus!
