use vstd::prelude::*;

verus! {

/// Class of a failure as the host library records it.
#[derive(PartialEq, Eq, Structural, Clone, Copy, Debug)]
pub enum GitError {
    Net,
}

impl GitError {
    /// The numeric class the host library uses for this kind of failure.
    pub fn klass(self) -> (r: i32)
        ensures
            self == GitError::Net ==> r == 12,
    {
        match self {
            GitError::Net => 12,
        }
    }
}

} // verus!
