use vstd::prelude::*;

use crate::addressing::Addressing;
use crate::opcode::{first_fault, table_of, OpCode, OpcodeTable};

verus! {

/// The decode records of the official instructions that this decoder covers,
/// in ascending order of opcode byte, each marked with its mnemonic.
pub open spec fn standard_entries() -> Seq<OpCode> {
    seq![
        OpCode { code: 0x00, len: 1, mode: Addressing::Implied }, // BRK
        OpCode { code: 0x01, len: 2, mode: Addressing::IndirectX }, // ORA
        OpCode { code: 0x05, len: 2, mode: Addressing::ZeroPage }, // ORA
        OpCode { code: 0x09, len: 2, mode: Addressing::Immediate }, // ORA
        OpCode { code: 0x0D, len: 3, mode: Addressing::Absolute }, // ORA
        OpCode { code: 0x11, len: 2, mode: Addressing::IndirectY }, // ORA
        OpCode { code: 0x15, len: 2, mode: Addressing::ZeroPageX }, // ORA
        OpCode { code: 0x18, len: 1, mode: Addressing::Implied }, // CLC
        OpCode { code: 0x19, len: 3, mode: Addressing::AbsoluteY }, // ORA
        OpCode { code: 0x1D, len: 3, mode: Addressing::AbsoluteX }, // ORA
        OpCode { code: 0x21, len: 2, mode: Addressing::IndirectX }, // AND
        OpCode { code: 0x25, len: 2, mode: Addressing::ZeroPage }, // AND
        OpCode { code: 0x29, len: 2, mode: Addressing::Immediate }, // AND
        OpCode { code: 0x2D, len: 3, mode: Addressing::Absolute }, // AND
        OpCode { code: 0x31, len: 2, mode: Addressing::IndirectY }, // AND
        OpCode { code: 0x35, len: 2, mode: Addressing::ZeroPageX }, // AND
        OpCode { code: 0x38, len: 1, mode: Addressing::Implied }, // SEC
        OpCode { code: 0x39, len: 3, mode: Addressing::AbsoluteY }, // AND
        OpCode { code: 0x3D, len: 3, mode: Addressing::AbsoluteX }, // AND
        OpCode { code: 0x41, len: 2, mode: Addressing::IndirectX }, // EOR
        OpCode { code: 0x45, len: 2, mode: Addressing::ZeroPage }, // EOR
        OpCode { code: 0x46, len: 2, mode: Addressing::ZeroPage }, // LSR
        OpCode { code: 0x49, len: 2, mode: Addressing::Immediate }, // EOR
        OpCode { code: 0x4A, len: 1, mode: Addressing::Implied }, // LSR
        OpCode { code: 0x4D, len: 3, mode: Addressing::Absolute }, // EOR
        OpCode { code: 0x4E, len: 3, mode: Addressing::Absolute }, // LSR
        OpCode { code: 0x51, len: 2, mode: Addressing::IndirectY }, // EOR
        OpCode { code: 0x55, len: 2, mode: Addressing::ZeroPageX }, // EOR
        OpCode { code: 0x56, len: 2, mode: Addressing::ZeroPageX }, // LSR
        OpCode { code: 0x58, len: 1, mode: Addressing::Implied }, // CLI
        OpCode { code: 0x59, len: 3, mode: Addressing::AbsoluteY }, // EOR
        OpCode { code: 0x5D, len: 3, mode: Addressing::AbsoluteX }, // EOR
        OpCode { code: 0x5E, len: 3, mode: Addressing::AbsoluteX }, // LSR
        OpCode { code: 0x78, len: 1, mode: Addressing::Implied }, // SEI
        OpCode { code: 0x84, len: 2, mode: Addressing::ZeroPage }, // STY
        OpCode { code: 0x85, len: 2, mode: Addressing::ZeroPage }, // STA
        OpCode { code: 0x86, len: 2, mode: Addressing::ZeroPage }, // STX
        OpCode { code: 0x88, len: 1, mode: Addressing::Implied }, // DEY
        OpCode { code: 0x8A, len: 1, mode: Addressing::Implied }, // TXA
        OpCode { code: 0x8C, len: 3, mode: Addressing::Absolute }, // STY
        OpCode { code: 0x8D, len: 3, mode: Addressing::Absolute }, // STA
        OpCode { code: 0x8E, len: 3, mode: Addressing::Absolute }, // STX
        OpCode { code: 0x94, len: 2, mode: Addressing::ZeroPageX }, // STY
        OpCode { code: 0x95, len: 2, mode: Addressing::ZeroPageX }, // STA
        OpCode { code: 0x96, len: 2, mode: Addressing::ZeroPageY }, // STX
        OpCode { code: 0x98, len: 1, mode: Addressing::Implied }, // TYA
        OpCode { code: 0x99, len: 3, mode: Addressing::AbsoluteY }, // STA
        OpCode { code: 0x9A, len: 1, mode: Addressing::Implied }, // TXS
        OpCode { code: 0x9D, len: 3, mode: Addressing::AbsoluteX }, // STA
        OpCode { code: 0xA0, len: 2, mode: Addressing::Immediate }, // LDY
        OpCode { code: 0xA1, len: 2, mode: Addressing::IndirectX }, // LDA
        OpCode { code: 0xA2, len: 2, mode: Addressing::Immediate }, // LDX
        OpCode { code: 0xA4, len: 2, mode: Addressing::ZeroPage }, // LDY
        OpCode { code: 0xA5, len: 2, mode: Addressing::ZeroPage }, // LDA
        OpCode { code: 0xA6, len: 2, mode: Addressing::ZeroPage }, // LDX
        OpCode { code: 0xA8, len: 1, mode: Addressing::Implied }, // TAY
        OpCode { code: 0xA9, len: 2, mode: Addressing::Immediate }, // LDA
        OpCode { code: 0xAA, len: 1, mode: Addressing::Implied }, // TAX
        OpCode { code: 0xAC, len: 3, mode: Addressing::Absolute }, // LDY
        OpCode { code: 0xAD, len: 3, mode: Addressing::Absolute }, // LDA
        OpCode { code: 0xAE, len: 3, mode: Addressing::Absolute }, // LDX
        OpCode { code: 0xB1, len: 2, mode: Addressing::IndirectY }, // LDA
        OpCode { code: 0xB4, len: 2, mode: Addressing::ZeroPageX }, // LDY
        OpCode { code: 0xB5, len: 2, mode: Addressing::ZeroPageX }, // LDA
        OpCode { code: 0xB6, len: 2, mode: Addressing::ZeroPageY }, // LDX
        OpCode { code: 0xB8, len: 1, mode: Addressing::Implied }, // CLV
        OpCode { code: 0xB9, len: 3, mode: Addressing::AbsoluteY }, // LDA
        OpCode { code: 0xBA, len: 1, mode: Addressing::Implied }, // TSX
        OpCode { code: 0xBC, len: 3, mode: Addressing::AbsoluteX }, // LDY
        OpCode { code: 0xBD, len: 3, mode: Addressing::AbsoluteX }, // LDA
        OpCode { code: 0xBE, len: 3, mode: Addressing::AbsoluteY }, // LDX
        OpCode { code: 0xC8, len: 1, mode: Addressing::Implied }, // INY
        OpCode { code: 0xCA, len: 1, mode: Addressing::Implied }, // DEX
        OpCode { code: 0xD8, len: 1, mode: Addressing::Implied }, // CLD
        OpCode { code: 0xE8, len: 1, mode: Addressing::Implied }, // INX
        OpCode { code: 0xEA, len: 1, mode: Addressing::Implied }, // NOP
        OpCode { code: 0xF8, len: 1, mode: Addressing::Implied }, // SED
    ]
}

/// From index `k` on, each record is consistent and has a smaller byte than
/// the record after it.
spec fn ascending_consistent_from(s: Seq<OpCode>, k: nat) -> bool
    decreases s.len() - k,
{
    if k >= s.len() {
        true
    } else {
        &&& s[k as int].consistent()
        &&& (k + 1 < s.len() ==> s[k as int].code < s[k + 1 as int].code)
        &&& ascending_consistent_from(s, (k + 1) as nat)
    }
}

proof fn lemma_ascending_at(s: Seq<OpCode>, k: nat, i: int)
    requires
        ascending_consistent_from(s, k),
        k <= i < s.len(),
    ensures
        s[i].consistent(),
        i + 1 < s.len() ==> s[i].code < s[i + 1].code,
    decreases i - k,
{
    if k < i {
        lemma_ascending_at(s, (k + 1) as nat, i);
    }
}

proof fn lemma_ascending_strict(s: Seq<OpCode>, j: int, i: int)
    requires
        ascending_consistent_from(s, 0),
        0 <= j < i < s.len(),
    ensures
        s[j].code < s[i].code,
    decreases i - j,
{
    lemma_ascending_at(s, 0, j);
    if j + 1 < i {
        lemma_ascending_strict(s, j + 1, i);
    }
}

/// A list whose records are consistent and in strictly ascending order of
/// byte has no fault among its first `n` records.
proof fn lemma_ascending_no_fault(s: Seq<OpCode>, n: nat)
    requires
        ascending_consistent_from(s, 0),
        n <= s.len(),
    ensures
        first_fault(s, n) is None,
    decreases n,
{
    if n > 0 {
        let i = n - 1;
        lemma_ascending_no_fault(s, (n - 1) as nat);
        lemma_ascending_at(s, 0, i);
        assert forall|j: int| 0 <= j < i implies s[j].code != s[i].code by {
            lemma_ascending_strict(s, j, i);
        }
    }
}

/// The built-in records are consistent and free of duplicate bytes.
pub proof fn lemma_standard_entries_accepted()
    ensures
        first_fault(standard_entries(), standard_entries().len()) is None,
{
    reveal_with_fuel(ascending_consistent_from, 80);
    assert(ascending_consistent_from(standard_entries(), 0));
    lemma_ascending_no_fault(standard_entries(), standard_entries().len());
}

/// The records of `standard_entries`, as a list.
pub fn standard_entry_list() -> (r: Vec<OpCode>)
    ensures
        r@ == standard_entries(),
{
    vec![
        OpCode::new(0x00, 1, Addressing::Implied), // BRK
        OpCode::new(0x01, 2, Addressing::IndirectX), // ORA
        OpCode::new(0x05, 2, Addressing::ZeroPage), // ORA
        OpCode::new(0x09, 2, Addressing::Immediate), // ORA
        OpCode::new(0x0D, 3, Addressing::Absolute), // ORA
        OpCode::new(0x11, 2, Addressing::IndirectY), // ORA
        OpCode::new(0x15, 2, Addressing::ZeroPageX), // ORA
        OpCode::new(0x18, 1, Addressing::Implied), // CLC
        OpCode::new(0x19, 3, Addressing::AbsoluteY), // ORA
        OpCode::new(0x1D, 3, Addressing::AbsoluteX), // ORA
        OpCode::new(0x21, 2, Addressing::IndirectX), // AND
        OpCode::new(0x25, 2, Addressing::ZeroPage), // AND
        OpCode::new(0x29, 2, Addressing::Immediate), // AND
        OpCode::new(0x2D, 3, Addressing::Absolute), // AND
        OpCode::new(0x31, 2, Addressing::IndirectY), // AND
        OpCode::new(0x35, 2, Addressing::ZeroPageX), // AND
        OpCode::new(0x38, 1, Addressing::Implied), // SEC
        OpCode::new(0x39, 3, Addressing::AbsoluteY), // AND
        OpCode::new(0x3D, 3, Addressing::AbsoluteX), // AND
        OpCode::new(0x41, 2, Addressing::IndirectX), // EOR
        OpCode::new(0x45, 2, Addressing::ZeroPage), // EOR
        OpCode::new(0x46, 2, Addressing::ZeroPage), // LSR
        OpCode::new(0x49, 2, Addressing::Immediate), // EOR
        OpCode::new(0x4A, 1, Addressing::Implied), // LSR
        OpCode::new(0x4D, 3, Addressing::Absolute), // EOR
        OpCode::new(0x4E, 3, Addressing::Absolute), // LSR
        OpCode::new(0x51, 2, Addressing::IndirectY), // EOR
        OpCode::new(0x55, 2, Addressing::ZeroPageX), // EOR
        OpCode::new(0x56, 2, Addressing::ZeroPageX), // LSR
        OpCode::new(0x58, 1, Addressing::Implied), // CLI
        OpCode::new(0x59, 3, Addressing::AbsoluteY), // EOR
        OpCode::new(0x5D, 3, Addressing::AbsoluteX), // EOR
        OpCode::new(0x5E, 3, Addressing::AbsoluteX), // LSR
        OpCode::new(0x78, 1, Addressing::Implied), // SEI
        OpCode::new(0x84, 2, Addressing::ZeroPage), // STY
        OpCode::new(0x85, 2, Addressing::ZeroPage), // STA
        OpCode::new(0x86, 2, Addressing::ZeroPage), // STX
        OpCode::new(0x88, 1, Addressing::Implied), // DEY
        OpCode::new(0x8A, 1, Addressing::Implied), // TXA
        OpCode::new(0x8C, 3, Addressing::Absolute), // STY
        OpCode::new(0x8D, 3, Addressing::Absolute), // STA
        OpCode::new(0x8E, 3, Addressing::Absolute), // STX
        OpCode::new(0x94, 2, Addressing::ZeroPageX), // STY
        OpCode::new(0x95, 2, Addressing::ZeroPageX), // STA
        OpCode::new(0x96, 2, Addressing::ZeroPageY), // STX
        OpCode::new(0x98, 1, Addressing::Implied), // TYA
        OpCode::new(0x99, 3, Addressing::AbsoluteY), // STA
        OpCode::new(0x9A, 1, Addressing::Implied), // TXS
        OpCode::new(0x9D, 3, Addressing::AbsoluteX), // STA
        OpCode::new(0xA0, 2, Addressing::Immediate), // LDY
        OpCode::new(0xA1, 2, Addressing::IndirectX), // LDA
        OpCode::new(0xA2, 2, Addressing::Immediate), // LDX
        OpCode::new(0xA4, 2, Addressing::ZeroPage), // LDY
        OpCode::new(0xA5, 2, Addressing::ZeroPage), // LDA
        OpCode::new(0xA6, 2, Addressing::ZeroPage), // LDX
        OpCode::new(0xA8, 1, Addressing::Implied), // TAY
        OpCode::new(0xA9, 2, Addressing::Immediate), // LDA
        OpCode::new(0xAA, 1, Addressing::Implied), // TAX
        OpCode::new(0xAC, 3, Addressing::Absolute), // LDY
        OpCode::new(0xAD, 3, Addressing::Absolute), // LDA
        OpCode::new(0xAE, 3, Addressing::Absolute), // LDX
        OpCode::new(0xB1, 2, Addressing::IndirectY), // LDA
        OpCode::new(0xB4, 2, Addressing::ZeroPageX), // LDY
        OpCode::new(0xB5, 2, Addressing::ZeroPageX), // LDA
        OpCode::new(0xB6, 2, Addressing::ZeroPageY), // LDX
        OpCode::new(0xB8, 1, Addressing::Implied), // CLV
        OpCode::new(0xB9, 3, Addressing::AbsoluteY), // LDA
        OpCode::new(0xBA, 1, Addressing::Implied), // TSX
        OpCode::new(0xBC, 3, Addressing::AbsoluteX), // LDY
        OpCode::new(0xBD, 3, Addressing::AbsoluteX), // LDA
        OpCode::new(0xBE, 3, Addressing::AbsoluteY), // LDX
        OpCode::new(0xC8, 1, Addressing::Implied), // INY
        OpCode::new(0xCA, 1, Addressing::Implied), // DEX
        OpCode::new(0xD8, 1, Addressing::Implied), // CLD
        OpCode::new(0xE8, 1, Addressing::Implied), // INX
        OpCode::new(0xEA, 1, Addressing::Implied), // NOP
        OpCode::new(0xF8, 1, Addressing::Implied), // SED
    ]
}

impl OpcodeTable {
    /// The table of the official instructions that this decoder covers: it
    /// holds exactly the records of `standard_entries`.
    pub fn standard() -> (r: OpcodeTable)
        ensures
            table_of(standard_entries(), r@),
    {
        let entries = standard_entry_list();
        proof {
            lemma_standard_entries_accepted();
        }
        match OpcodeTable::from_entries(&entries) {
            Ok(t) => t,
            Err(_) => unreached(),
        }
    }
}

} // verus!
