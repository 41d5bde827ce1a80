use vstd::prelude::*;

verus! {

/// The ways an instruction locates its operand.
#[derive(Clone, Copy, Debug, PartialEq, Eq, Structural)]
pub enum Addressing {
    Immediate,
    ZeroPage,
    ZeroPageX,
    ZeroPageY,
    Absolute,
    AbsoluteX,
    AbsoluteY,
    IndirectX,
    IndirectY,
    Implied,
}

/// Number of operand bytes that follow the opcode in the given mode.
pub open spec fn spec_operand_length(mode: Addressing) -> nat {
    match mode {
        Addressing::Implied => 0,
        Addressing::Absolute | Addressing::AbsoluteX | Addressing::AbsoluteY => 2,
        _ => 1,
    }
}

/// Number of operand bytes that follow the opcode in the given mode:
/// none for `Implied`, a two-byte address for the absolute modes, and one
/// byte for the rest.
pub fn operand_length(mode: Addressing) -> (r: u8)
    ensures
        r as nat == spec_operand_length(mode),
        r <= 2,
{
    match mode {
        Addressing::Implied => 0,
        Addressing::Absolute | Addressing::AbsoluteX | Addressing::AbsoluteY => 2,
        _ => 1,
    }
}

} // verus!
