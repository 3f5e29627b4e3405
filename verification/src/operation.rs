//! The four operations that a vessel asks of its host.
use vstd::prelude::*;

verus! {

/// What a vessel can wait for: bytes from the reader, or the writer's progress in taking bytes,
/// in flushing them or in closing.
#[derive(Clone, Copy, Debug, PartialEq, Eq, Structural)]
pub enum Operation {
    Read,
    Write,
    Flush,
    Close,
}

impl Operation {
    /// The place of the operation in the order in which a poll of the vessel serves them.
    pub open spec fn rank(self) -> int {
        match self {
            Operation::Read => 0,
            Operation::Write => 1,
            Operation::Flush => 2,
            Operation::Close => 3,
        }
    }
}

} // verus!
