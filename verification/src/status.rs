use vstd::prelude::*;

verus! {

/// The processor status register, one named field per flag bit.
///
/// Bit layout on the real chip, low bit first: Carry, Zero, InterruptDisable,
/// Decimal, Break, Break2, Overflow, Negative. Keeping one `bool` per flag
/// rules out accidental cross-flag corruption; `break2` is reserved and is
/// never set by any documented operation.
#[derive(Clone, Copy, Debug, PartialEq, Eq, Structural)]
pub struct StatusFlags {
    pub carry: bool,
    pub zero: bool,
    pub interrupt_disable: bool,
    pub decimal: bool,
    pub break_flag: bool,
    pub break2: bool,
    pub overflow: bool,
    pub negative: bool,
}

/// Status at power-on and after reset: InterruptDisable and Negative preset,
/// every other flag clear.
pub open spec fn startup_status() -> StatusFlags {
    StatusFlags {
        carry: false,
        zero: false,
        interrupt_disable: true,
        decimal: false,
        break_flag: false,
        break2: false,
        overflow: false,
        negative: true,
    }
}

/// Recompute Zero and Negative from a result byte, leaving every other flag
/// alone: Zero iff the byte is 0, Negative iff its bit 7 is set.
pub open spec fn with_zero_negative(f: StatusFlags, result: u8) -> StatusFlags {
    StatusFlags { zero: result == 0, negative: result & 0x80 != 0, ..f }
}

/// Deriving Zero and Negative is a pure function of the result byte alone:
/// the two derived flags come out the same whatever status held before, and
/// both are fully recomputed on every derivation, so no stale bit survives.
pub proof fn lemma_zero_negative_pure(f1: StatusFlags, f2: StatusFlags, result: u8)
    ensures
        with_zero_negative(f1, result).zero == with_zero_negative(f2, result).zero,
        with_zero_negative(f1, result).negative == with_zero_negative(f2, result).negative,
        with_zero_negative(f1, result).zero == (result == 0),
        with_zero_negative(f1, result).negative == (result & 0x80 != 0),
{
}

} // verus!
