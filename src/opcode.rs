use std::collections::HashMap;
use vstd::prelude::*;

use crate::addressing::{operand_length, spec_operand_length, Addressing};

verus! {

/// The decode record of one opcode: its byte, the length of the whole
/// instruction in bytes, and how its operand is addressed.
#[derive(Clone, Copy, Debug, PartialEq, Eq, Structural)]
pub struct OpCode {
    pub code: u8,
    pub len: u8,
    pub mode: Addressing,
}

impl OpCode {
    /// The length agrees with the mode: the opcode byte plus its operand bytes.
    pub open spec fn consistent(self) -> bool {
        self.len as nat == 1 + spec_operand_length(self.mode)
    }

    /// A record with the given byte, length and mode.
    pub fn new(code: u8, len: u8, mode: Addressing) -> (r: Self)
        ensures
            r.code == code,
            r.len == len,
            r.mode == mode,
    {
        OpCode { code, len, mode }
    }

    /// Whether the record's length agrees with its addressing mode.
    pub fn is_consistent(&self) -> (r: bool)
        ensures
            r == self.consistent(),
    {
        self.len == 1 + operand_length(self.mode)
    }
}

/// Why a list of records cannot form a table.
#[derive(Clone, Copy, Debug, PartialEq, Eq, Structural)]
pub enum TableError {
    /// A second record for an opcode byte that already has one.
    DuplicateOpcode(u8),
    /// A record whose length disagrees with its addressing mode.
    InconsistentLength(u8),
}

/// The fault of the record at index `i`, judged against the records before it.
pub open spec fn fault_at(s: Seq<OpCode>, i: int) -> Option<TableError> {
    if !s[i].consistent() {
        Some(TableError::InconsistentLength(s[i].code))
    } else if exists|j: int| 0 <= j < i && s[j].code == s[i].code {
        Some(TableError::DuplicateOpcode(s[i].code))
    } else {
        None
    }
}

/// The fault of the first faulty record among the first `n` records, if any.
pub open spec fn first_fault(s: Seq<OpCode>, n: nat) -> Option<TableError>
    decreases n,
{
    if n == 0 {
        None
    } else {
        match first_fault(s, (n - 1) as nat) {
            Some(e) => Some(e),
            None => fault_at(s, n - 1),
        }
    }
}

/// Once a fault is found among the first `m` records, it stays the first.
pub proof fn lemma_first_fault_stays(s: Seq<OpCode>, m: nat, n: nat)
    requires
        m <= n,
        first_fault(s, m) is Some,
    ensures
        first_fault(s, n) == first_fault(s, m),
    decreases n - m,
{
    if m < n {
        lemma_first_fault_stays(s, m, (n - 1) as nat);
    }
}

/// What a lookup of `code` in the table `t` gives.
pub open spec fn spec_lookup(t: Map<u8, OpCode>, code: u8) -> Option<OpCode> {
    if t.contains_key(code) {
        Some(t[code])
    } else {
        None
    }
}

/// The records of `s` hold exactly the keys of `t`, each under its own byte.
pub open spec fn table_of(s: Seq<OpCode>, t: Map<u8, OpCode>) -> bool {
    &&& forall|b: u8| #[trigger] t.contains_key(b) <==> exists|i: int| 0 <= i < s.len() && s[i].code == b
    &&& forall|i: int| 0 <= i < s.len() ==> t.contains_key(#[trigger] s[i].code) && t[s[i].code] == s[i]
}

/// An immutable map from opcode byte to decode record.
pub struct OpcodeTable {
    map: HashMap<u8, OpCode>,
}

impl View for OpcodeTable {
    type V = Map<u8, OpCode>;

    closed spec fn view(&self) -> Map<u8, OpCode> {
        self.map@
    }
}

impl OpcodeTable {
    /// Every record sits under its own byte and has a length that fits its mode.
    #[verifier::type_invariant]
    spec fn well_formed(self) -> bool {
        forall|b: u8| #[trigger] self.map@.contains_key(b) ==> self.map@[b].code == b && self.map@[b].consistent()
    }

    /// Builds a table from a list of records. The first record whose length
    /// disagrees with its mode, or whose byte an earlier record already has,
    /// makes the construction fail with that fault.
    pub fn from_entries(entries: &Vec<OpCode>) -> (r: Result<OpcodeTable, TableError>)
        ensures
            match first_fault(entries@, entries@.len()) {
                Some(e) => r == Err::<OpcodeTable, TableError>(e),
                None => r matches Ok(t) && table_of(entries@, t@),
            },
    {
        let mut map: HashMap<u8, OpCode> = HashMap::new();
        let mut i: usize = 0;
        while i < entries.len()
            invariant
                0 <= i <= entries@.len(),
                first_fault(entries@, i as nat) is None,
                forall|b: u8| #[trigger] map@.contains_key(b) <==> exists|k: int| 0 <= k < i && entries@[k].code == b,
                forall|k: int| 0 <= k < i ==> map@.contains_key(#[trigger] entries@[k].code) && map@[entries@[k].code] == entries@[k],
                forall|b: u8| #[trigger] map@.contains_key(b) ==> map@[b].code == b && map@[b].consistent(),
            decreases entries@.len() - i,
        {
            let e = entries[i];
            if !e.is_consistent() {
                proof {
                    lemma_first_fault_stays(entries@, i as nat + 1, entries@.len());
                }
                return Err(TableError::InconsistentLength(e.code));
            }
            if map.contains_key(&e.code) {
                proof {
                    lemma_first_fault_stays(entries@, i as nat + 1, entries@.len());
                }
                return Err(TableError::DuplicateOpcode(e.code));
            }
            map.insert(e.code, e);
            i = i + 1;
            assert forall|b: u8| #[trigger] map@.contains_key(b) implies exists|k: int| 0 <= k < i && entries@[k].code == b by {
                if b == e.code {
                    assert(entries@[i - 1].code == b);
                }
            }
        }
        Ok(OpcodeTable { map })
    }

    /// The record for `code`, or `None` where the table has none.
    pub fn lookup(&self, code: u8) -> (r: Option<OpCode>)
        ensures
            r == spec_lookup(self@, code),
            r matches Some(rec) ==> rec.code == code && rec.consistent(),
    {
        proof {
            use_type_invariant(self);
        }
        match self.map.get(&code) {
            Some(rec) => Some(*rec),
            None => None,
        }
    }
}

} // verus!
