//! Facts about the running build that the application displays.

use vstd::prelude::*;
use vstd::string::*;

verus! {

/// The version text shown to users: the version, then the commit hash in
/// parentheses when the build knows it.
pub open spec fn version_text(version: Seq<char>, git_hash: Option<Seq<char>>) -> Seq<char> {
    match git_hash {
        Some(h) => version + " ("@ + h + ")"@,
        None => version,
    }
}

/// Formats the version and, if known, the commit hash of the build.
pub fn formatted_version(version: &str, git_hash: Option<&str>) -> (r: String)
    ensures
        r@ == version_text(version@, match git_hash {
            Some(h) => Some(h@),
            None => None,
        }),
{
    let mut text = String::from_str(version);
    match git_hash {
        Some(h) => {
            text.append(" (");
            text.append(h);
            text.append(")");
        },
        None => {},
    }
    text
}

} // verus!
