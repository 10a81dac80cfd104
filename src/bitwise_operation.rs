use crate::status_bit::{bit_set, with_bit};
use vstd::prelude::*;

verus! {

/// What to do to one bit of the status byte.
#[derive(Debug, Clone, Copy, PartialEq, Eq, Structural)]
pub enum BitwiseOperation {
    SetBit,
    UnsetBit,
    FlipBit,
}

impl BitwiseOperation {
    /// `SetBit` iff `value`, else `UnsetBit`.
    pub fn from_bool(value: bool) -> (r: Self)
        ensures
            r == (if value {
                BitwiseOperation::SetBit
            } else {
                BitwiseOperation::UnsetBit
            }),
    {
        if value {
            BitwiseOperation::SetBit
        } else {
            BitwiseOperation::UnsetBit
        }
    }

    /// The byte `p` after this operation is applied to its bit `k`.
    pub open spec fn apply(self, p: u8, k: u8) -> u8 {
        match self {
            BitwiseOperation::SetBit => with_bit(p, k, true),
            BitwiseOperation::UnsetBit => with_bit(p, k, false),
            BitwiseOperation::FlipBit => with_bit(p, k, !bit_set(p, k)),
        }
    }
}

} // verus!
