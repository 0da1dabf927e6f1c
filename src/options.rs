use vstd::prelude::*;

verus! {

/// How results are reported to the user.
#[derive(PartialEq, Eq, Structural, Copy, Clone, Debug)]
pub enum OutputFormat {
    Human,
    Json,
}

/// The options of a clone.
#[derive(PartialEq, Eq, Structural, Copy, Clone, Debug)]
pub struct Options {
    pub format: OutputFormat,
    pub bare: bool,
    pub handshake_info: bool,
}

/// What kind of repository a clone creates.
#[derive(PartialEq, Eq, Structural, Copy, Clone, Debug)]
pub enum RepositoryKind {
    /// No worktree: only the repository's own data.
    Bare,
    /// A repository with its main worktree checked out.
    WithWorktree,
}

/// Why a clone cannot start with the options given.
#[derive(PartialEq, Eq, Structural, Copy, Clone, Debug)]
pub enum CloneError {
    /// Only human-readable output is supported when cloning.
    UnsupportedFormat,
}

impl Options {
    /// The kind of repository to create, or why these options are refused.
    pub fn repository_kind(&self) -> (r: Result<RepositoryKind, CloneError>)
        ensures
            self.format != OutputFormat::Human ==> r == Err::<RepositoryKind, CloneError>(
                CloneError::UnsupportedFormat,
            ),
            self.format == OutputFormat::Human && self.bare ==> r == Ok::<
                RepositoryKind,
                CloneError,
            >(RepositoryKind::Bare),
            self.format == OutputFormat::Human && !self.bare ==> r == Ok::<
                RepositoryKind,
                CloneError,
            >(RepositoryKind::WithWorktree),
    {
        if self.format != OutputFormat::Human {
            Err(CloneError::UnsupportedFormat)
        } else if self.bare {
            Ok(RepositoryKind::Bare)
        } else {
            Ok(RepositoryKind::WithWorktree)
        }
    }
}

/// Whether a checkout that met `errors` errors and `collisions` collisions
/// left the worktree complete.
pub fn checkout_is_complete(errors: usize, collisions: usize) -> (r: bool)
    ensures
        r == (errors == 0 && collisions == 0),
{
    errors == 0 && collisions == 0
}

} // verus!
