//! A read-only working-tree status digest for git repositories: which files
//! changed and how many lines were added or removed (binary-safely), how far
//! the current branch has diverged from its upstream or a chosen base, and
//! supporting branch and log queries. Repository access goes through the gix
//! crate behind trusted wrappers; all classification, counting, filtering,
//! truncation and divergence logic is verified.

pub mod branch;
pub mod diff_summary;
pub mod errors;
pub mod gitio;
pub mod lines;
pub mod log;
pub mod records;
pub mod status_summary;
pub mod text;

use vstd::prelude::*;

verus! {

/// Liveness probe: always answers "pong".
pub fn ping() -> (r: String)
    ensures
        r@ == "pong"@,
{
    String::from_str("pong")
}

} // verus!
