use vstd::prelude::*;

verus! {

/// Failure taxonomy for every repository query. Open, HEAD-read and
/// status-enumeration failures are fatal to a call; per-item reference or blob
/// lookups degrade gracefully and never surface one of these.
#[derive(Clone, Copy, Debug, PartialEq, Eq, Structural)]
pub enum GitError {
    RepositoryOpen,
    ReferenceResolution,
    ObjectRead,
    StatusEnumeration,
    AncestryWalk,
}

pub open spec fn error_message_spec(e: GitError) -> Seq<char> {
    match e {
        GitError::RepositoryOpen => "failed to open repository"@,
        GitError::ReferenceResolution => "failed to resolve reference"@,
        GitError::ObjectRead => "failed to read object"@,
        GitError::StatusEnumeration => "failed to enumerate status"@,
        GitError::AncestryWalk => "failed to walk ancestry"@,
    }
}

impl GitError {
    /// A human-readable description of the failed step.
    pub fn message(&self) -> (r: String)
        ensures
            r@ == error_message_spec(*self),
    {
        match self {
            GitError::RepositoryOpen => String::from_str("failed to open repository"),
            GitError::ReferenceResolution => String::from_str("failed to resolve reference"),
            GitError::ObjectRead => String::from_str("failed to read object"),
            GitError::StatusEnumeration => String::from_str("failed to enumerate status"),
            GitError::AncestryWalk => String::from_str("failed to walk ancestry"),
        }
    }
}

} // verus!
