use vstd::prelude::*;

verus! {

/// How the company file is opened when a session begins.
#[derive(Debug, Clone, Copy, PartialEq, Eq, Structural)]
pub enum FileMode {
    SingleUser,
    MultiUser,
    DoNotCare,
    Online,
}

impl FileMode {
    /// The number the server's interface definition assigns to each mode.
    pub open spec fn spec_code(self) -> i32 {
        match self {
            FileMode::SingleUser => 1,
            FileMode::MultiUser => 2,
            FileMode::DoNotCare => 2,
            FileMode::Online => 3,
        }
    }

    /// The numeric file-open-mode argument of "begin session".
    pub fn code(self) -> (c: i32)
        ensures
            c == self.spec_code(),
    {
        match self {
            FileMode::SingleUser => 1,
            FileMode::MultiUser => 2,
            FileMode::DoNotCare => 2,
            FileMode::Online => 3,
        }
    }
}

} // verus!
