use vstd::prelude::*;

verus! {

/// Errors surfaced by the profiling lifecycle controllers.
///
/// Every operation returns a plain `Result`; no failure is retried and none is
/// fatal to the process.
#[derive(Debug)]
pub enum ProfError {
    /// `active` was called while a session of this kind was already running.
    AlreadyActive,
    /// `dump` was called while no session of this kind was running.
    NotActive,
    /// The external sampling or allocator capability failed; carries its message.
    Collaborator(String),
    /// A file could not be created or written during a dump.
    Io(String),
}

impl ProfError {
    /// The human-readable text for this error, as a sequence of characters.
    pub open spec fn spec_message(&self) -> Seq<char> {
        match self {
            ProfError::AlreadyActive => "profiling is already active"@,
            ProfError::NotActive => "profiling is not active"@,
            ProfError::Collaborator(m) => m@,
            ProfError::Io(m) => m@,
        }
    }

    /// The human-readable text for this error.
    pub fn message(&self) -> (r: String)
        ensures
            r@ == self.spec_message(),
    {
        match self {
            ProfError::AlreadyActive => "profiling is already active".to_owned(),
            ProfError::NotActive => "profiling is not active".to_owned(),
            ProfError::Collaborator(m) => m.clone(),
            ProfError::Io(m) => m.clone(),
        }
    }
}

} // verus!
