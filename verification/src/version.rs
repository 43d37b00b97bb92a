//! The version of the package as Python's packaging tools write it.

use crate::text::{replace_all, replaced};
use vstd::prelude::*;

verus! {

/// A package version with its pre-release marks `-alpha` and `-beta`
/// written the short way, as `a` and `b`.
pub open spec fn python_version(version: Seq<char>) -> Seq<char> {
    replaced(replaced(version, "-alpha"@, "a"@), "-beta"@, "b"@)
}

/// Writes a package version such as `1.0.0-alpha1` the way Python's
/// packaging tools do, as `1.0.0a1`.
pub fn get_pyorion_version(version: &str) -> (python: String)
    ensures
        python@ == python_version(version@),
{
    let alpha = replace_all(version, "-alpha", "a");
    replace_all(alpha.as_str(), "-beta", "b")
}

} // verus!
