//! The coded value that generated enum tables are made of.

use vstd::prelude::*;

verus! {

/// A numeric code together with its human-readable message.
#[derive(Clone, Copy, Debug, PartialEq, Eq)]
pub enum Enum {
    Body { code: i32, message: &'static str },
}

impl Enum {
    /// The numeric code of this value.
    pub fn code(&self) -> (r: i32)
        ensures
            r == self->code,
    {
        match self {
            Enum::Body { code, message: _ } => *code,
        }
    }

    /// The message of this value.
    pub fn message(&self) -> (r: &'static str)
        ensures
            r == self->message,
    {
        match self {
            Enum::Body { code: _, message } => *message,
        }
    }
}

} // verus!
