//! Locations of the transport runtime artefacts a deployment loads.
//! How a concrete provider implementation is obtained — statically
//! linked, loaded as a plugin, compiled in — is a deployment concern,
//! not a protocol concern; these helpers only name the conventional
//! artefacts.

use vstd::prelude::*;

verus! {

/// The name of the core runtime library, resolved through the
/// loader's library path.
pub fn get_mxl_so_path() -> (r: String)
    ensures
        r@ == "libmxl.so"@,
{
    String::from_str("libmxl.so")
}

/// The name of the fabrics transport runtime library, resolved through
/// the loader's library path.
pub fn get_mxl_fabrics_ofi_so_path() -> (r: String)
    ensures
        r@ == "libmxl-fabrics.so"@,
{
    String::from_str("libmxl-fabrics.so")
}

/// The root under which a checkout keeps its auxiliary data, relative
/// to the directory a deployment runs in.
pub fn get_mxl_repo_root() -> (r: String)
    ensures
        r@ == "."@,
{
    String::from_str(".")
}

} // verus!
