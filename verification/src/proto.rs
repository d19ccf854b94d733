//! Locations of the protocol-buffer sources that the build tooling
//! consumes, and the path arithmetic the tooling relies on.  The tooling
//! itself — invoking the protobuf compiler and writing generated files —
//! lives outside the verified library.

use vstd::prelude::*;

verus! {

/// Directories holding the protocol-buffer sources.
pub struct ProtoPaths<'a> {
    /// Directory of the swap service's proto files.
    pub swap: &'a str,
    /// Directory of the base-type proto files.
    pub base_types: &'a str,
}

/// The path of the swap service's proto file: its fixed location under
/// the swap source directory.
pub fn swap_proto_file(proto: &ProtoPaths<'_>) -> (r: String)
    ensures
        r@ == proto.swap@ + "/ic_sns_swap/pb/v1/swap.proto"@,
{
    let mut s = proto.swap.to_owned();
    s.append("/ic_sns_swap/pb/v1/swap.proto");
    s
}

} // verus!
