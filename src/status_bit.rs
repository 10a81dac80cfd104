use vstd::prelude::*;

verus! {

/// The named bits of the processor status byte P. Bit 5 is unused.
#[derive(Debug, Clone, Copy, PartialEq, Eq, Structural)]
pub enum StatusBit {
    Carry,
    Zero,
    Interrupt,
    Decimal,
    Break,
    Overflow,
    Negative,
}

impl StatusBit {
    /// The index of this flag within the status byte.
    pub open spec fn spec_position(self) -> u8 {
        match self {
            StatusBit::Carry => 0,
            StatusBit::Zero => 1,
            StatusBit::Interrupt => 2,
            StatusBit::Decimal => 3,
            StatusBit::Break => 4,
            StatusBit::Overflow => 6,
            StatusBit::Negative => 7,
        }
    }

    /// The index of this flag within the status byte.
    #[verifier::when_used_as_spec(spec_position)]
    pub fn position(self) -> (r: u8)
        ensures
            r == self.spec_position(),
            r < 8,
    {
        match self {
            StatusBit::Carry => 0,
            StatusBit::Zero => 1,
            StatusBit::Interrupt => 2,
            StatusBit::Decimal => 3,
            StatusBit::Break => 4,
            StatusBit::Overflow => 6,
            StatusBit::Negative => 7,
        }
    }
}

/// The weight of bit `k` of a byte, 2 to the power `k`, for `k` < 8.
pub open spec fn bit_weight(k: u8) -> u8 {
    if k == 0 {
        1
    } else if k == 1 {
        2
    } else if k == 2 {
        4
    } else if k == 3 {
        8
    } else if k == 4 {
        16
    } else if k == 5 {
        32
    } else if k == 6 {
        64
    } else {
        128
    }
}

/// Whether bit `k` of `p` is set.
pub open spec fn bit_set(p: u8, k: u8) -> bool {
    (p / bit_weight(k)) % 2 == 1
}

/// Whether `flag` is set in the status byte `p`.
pub open spec fn flag(p: u8, flag: StatusBit) -> bool {
    bit_set(p, flag.spec_position())
}

/// `p` with bit `k` set to `v` and every other bit kept.
pub open spec fn with_bit(p: u8, k: u8, v: bool) -> u8 {
    if bit_set(p, k) == v {
        p
    } else if v {
        (p + bit_weight(k)) as u8
    } else {
        (p - bit_weight(k)) as u8
    }
}

/// `p` with `flag` set to `v` and every other bit kept.
pub open spec fn with_flag(p: u8, flag: StatusBit, v: bool) -> u8 {
    with_bit(p, flag.spec_position(), v)
}

/// `p` with Z and N derived from the 8-bit result `r`: Z iff `r` is zero, N iff
/// bit 7 of `r` is set.
pub open spec fn with_zero_negative(p: u8, r: u8) -> u8 {
    with_flag(with_flag(p, StatusBit::Zero, r == 0), StatusBit::Negative, r >= 0x80)
}

/// Setting bit `k` to `v` makes it read back as `v` and keeps every other bit.
pub proof fn lemma_with_bit(p: u8, k: u8, v: bool)
    requires
        k < 8,
    ensures
        bit_set(with_bit(p, k, v), k) == v,
        forall|j: u8| j < 8 && j != k ==> #[trigger] bit_set(with_bit(p, k, v), j) == bit_set(p, j),
{
    assert(bit_set(with_bit(p, k, v), k) == v) by (bit_vector)
        requires
            k < 8,
    ;
    assert(forall|j: u8| j < 8 && j != k ==> #[trigger] bit_set(with_bit(p, k, v), j) == bit_set(p, j))
        by (bit_vector)
        requires
            k < 8,
    ;
}

/// The shift-and-mask forms of testing, setting, clearing and toggling bit `k`.
pub proof fn lemma_bit_ops(p: u8, k: u8)
    requires
        k < 8,
    ensures
        ((p >> k) & 1u8 == 1u8) == bit_set(p, k),
        p | ((1u8 << k) as u8) == with_bit(p, k, true),
        p & !((1u8 << k) as u8) == with_bit(p, k, false),
        p ^ ((1u8 << k) as u8) == with_bit(p, k, !bit_set(p, k)),
{
    assert(((p >> k) & 1u8 == 1u8) == bit_set(p, k)) by (bit_vector)
        requires
            k < 8,
    ;
    assert(p | ((1u8 << k) as u8) == with_bit(p, k, true)) by (bit_vector)
        requires
            k < 8,
    ;
    assert(p & !((1u8 << k) as u8) == with_bit(p, k, false)) by (bit_vector)
        requires
            k < 8,
    ;
    assert(p ^ ((1u8 << k) as u8) == with_bit(p, k, !bit_set(p, k))) by (bit_vector)
        requires
            k < 8,
    ;
}

} // verus!
