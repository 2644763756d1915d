//! The errors of a decode.

use vstd::prelude::*;

verus! {

/// Everything that can stop a decode.
#[derive(Debug)]
pub enum Error {
    /// The operating system refused an operation on the target; the text is its message.
    Io(String),
    /// A read of the target's memory failed or was refused.
    Memory(String),
    /// A destination buffer was smaller than the length asked for.
    InsufficentMemory { msg: String, expected: usize, actual: usize },
    /// No process of the target was found on a first attempt.
    MissingGameProcess,
    /// A target that had been found has gone away.
    GameProcessClosed,
    /// A tag that routes decoding held a value outside its known set.
    InvalidEnumValue { enum_type: String, value: u64 },
    /// Bytes that had to form text did not.
    InvalidString { msg: String, bytes: Vec<u8> },
}

impl Error {
    /// The errors that a memory channel reports.
    pub open spec fn is_read_failure(&self) -> bool {
        ||| self is Io
        ||| self is Memory
        ||| self is GameProcessClosed
    }
}

} // verus!
