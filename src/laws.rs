use vstd::prelude::*;

use crate::opcode::{fault_at, first_fault, lemma_first_fault_stays, spec_lookup, table_of, OpCode};

verus! {

/// Where no fault is found among the first `n` records, none of them is faulty.
proof fn lemma_no_fault_in_prefix(s: Seq<OpCode>, n: nat, i: int)
    requires
        first_fault(s, n) is None,
        0 <= i < n,
    ensures
        fault_at(s, i) is None,
    decreases n,
{
    if i < n - 1 {
        lemma_no_fault_in_prefix(s, (n - 1) as nat, i);
    }
}

/// Every record of a table built from an accepted list has a length of one
/// byte plus the operand bytes of its mode, and sits under its own byte.
pub proof fn lemma_accepted_records_consistent(s: Seq<OpCode>, t: Map<u8, OpCode>, b: u8)
    requires
        first_fault(s, s.len()) is None,
        table_of(s, t),
        t.contains_key(b),
    ensures
        t[b].consistent(),
        t[b].code == b,
{
    let i = choose|i: int| 0 <= i < s.len() && s[i].code == b;
    lemma_no_fault_in_prefix(s, s.len(), i);
}

/// No accepted list holds two records for one opcode byte: a list in which
/// two records share a byte is rejected.
pub proof fn lemma_duplicate_rejected(s: Seq<OpCode>, i: int, j: int)
    requires
        0 <= i < j < s.len(),
        s[i].code == s[j].code,
    ensures
        first_fault(s, s.len()) is Some,
{
    if first_fault(s, j as nat) is Some {
        lemma_first_fault_stays(s, j as nat, s.len());
    } else {
        assert(fault_at(s, j) is Some);
        lemma_first_fault_stays(s, (j + 1) as nat, s.len());
    }
}

/// A lookup depends on the record under its own byte alone: what the table
/// holds under any other byte does not change it.
pub proof fn lemma_lookup_ignores_other_bytes(t: Map<u8, OpCode>, other: u8, rec: OpCode, code: u8)
    requires
        other != code,
    ensures
        spec_lookup(t.insert(other, rec), code) == spec_lookup(t, code),
        spec_lookup(t.remove(other), code) == spec_lookup(t, code),
{
}

} // verus!
