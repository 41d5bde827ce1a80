use opcodes::instruction_set::standard_entry_list;
use opcodes::{operand_length, Addressing, OpCode, OpcodeTable, TableError};

fn standard_table() -> OpcodeTable {
    OpcodeTable::standard()
}

fn build_error(entries: Vec<OpCode>) -> TableError {
    match OpcodeTable::from_entries(&entries) {
        Ok(_) => panic!("table accepted"),
        Err(e) => e,
    }
}

#[test]
fn brk_is_implied_single_byte() {
    let rec = standard_table().lookup(0x00).unwrap();
    assert_eq!(rec.code, 0x00);
    assert_eq!(rec.len, 1);
    assert_eq!(rec.mode, Addressing::Implied);
}

#[test]
fn lda_immediate() {
    let rec = standard_table().lookup(0xA9).unwrap();
    assert_eq!(rec.len, 2);
    assert_eq!(rec.mode, Addressing::Immediate);
}

#[test]
fn lda_absolute() {
    let rec = standard_table().lookup(0xAD).unwrap();
    assert_eq!(rec.len, 3);
    assert_eq!(rec.mode, Addressing::Absolute);
}

#[test]
fn lda_indirect_indexed() {
    let rec = standard_table().lookup(0xB1).unwrap();
    assert_eq!(rec.len, 2);
    assert_eq!(rec.mode, Addressing::IndirectY);
}

#[test]
fn undefined_opcode_is_absent() {
    assert_eq!(standard_table().lookup(0xFF), None);
}

#[test]
fn duplicate_opcode_rejected() {
    let entries = vec![
        OpCode::new(0x85, 2, Addressing::ZeroPage),
        OpCode::new(0x85, 2, Addressing::ZeroPage),
    ];
    assert_eq!(build_error(entries), TableError::DuplicateOpcode(0x85));
}

#[test]
fn duplicate_after_other_entries_rejected() {
    let entries = vec![
        OpCode::new(0x85, 2, Addressing::ZeroPage),
        OpCode::new(0xEA, 1, Addressing::Implied),
        OpCode::new(0x85, 3, Addressing::Absolute),
    ];
    assert_eq!(build_error(entries), TableError::DuplicateOpcode(0x85));
}

#[test]
fn inconsistent_length_rejected() {
    let entries = vec![
        OpCode::new(0xEA, 1, Addressing::Implied),
        OpCode::new(0xAD, 2, Addressing::Absolute),
    ];
    assert_eq!(build_error(entries), TableError::InconsistentLength(0xAD));
}

#[test]
fn first_fault_wins() {
    let entries = vec![
        OpCode::new(0x29, 3, Addressing::Immediate),
        OpCode::new(0x29, 2, Addressing::Immediate),
        OpCode::new(0x29, 2, Addressing::Immediate),
    ];
    assert_eq!(build_error(entries), TableError::InconsistentLength(0x29));
}

#[test]
fn empty_list_gives_empty_table() {
    let t = OpcodeTable::from_entries(&Vec::new()).unwrap_or_else(|e| panic!("{:?}", e));
    for b in 0..=255u8 {
        assert_eq!(t.lookup(b), None);
    }
}

#[test]
fn operand_lengths() {
    assert_eq!(operand_length(Addressing::Implied), 0);
    assert_eq!(operand_length(Addressing::Immediate), 1);
    assert_eq!(operand_length(Addressing::ZeroPage), 1);
    assert_eq!(operand_length(Addressing::ZeroPageX), 1);
    assert_eq!(operand_length(Addressing::ZeroPageY), 1);
    assert_eq!(operand_length(Addressing::IndirectX), 1);
    assert_eq!(operand_length(Addressing::IndirectY), 1);
    assert_eq!(operand_length(Addressing::Absolute), 2);
    assert_eq!(operand_length(Addressing::AbsoluteX), 2);
    assert_eq!(operand_length(Addressing::AbsoluteY), 2);
}

#[test]
fn every_record_is_consistent_and_keyed_by_its_byte() {
    let t = standard_table();
    let mut present = 0;
    for b in 0..=255u8 {
        if let Some(rec) = t.lookup(b) {
            present += 1;
            assert_eq!(rec.code, b);
            assert_eq!(rec.len, 1 + operand_length(rec.mode));
            assert!(rec.is_consistent());
        }
    }
    assert_eq!(present, standard_entry_list().len());
}

#[test]
fn standard_entries_form_a_table() {
    let entries = standard_entry_list();
    assert_eq!(entries.len(), 77);
    assert!(OpcodeTable::from_entries(&entries).is_ok());
    for pair in entries.windows(2) {
        assert!(pair[0].code < pair[1].code);
    }
}

#[test]
fn lookup_is_repeatable() {
    let t = standard_table();
    let first = t.lookup(0xB1);
    let _ = t.lookup(0xA9);
    let _ = t.lookup(0xFF);
    assert_eq!(t.lookup(0xB1), first);
    assert_eq!(t.lookup(0xA9).unwrap().code, 0xA9);
}

#[test]
fn corrected_indirect_indexed_entries() {
    let t = standard_table();
    assert_eq!(t.lookup(0x51).unwrap().mode, Addressing::IndirectY);
    assert_eq!(t.lookup(0x11).unwrap().mode, Addressing::IndirectY);
    let tya = t.lookup(0x98).unwrap();
    assert_eq!(tya.code, 0x98);
    assert_eq!(tya.mode, Addressing::Implied);
}

#[test]
fn store_and_register_modes() {
    let t = standard_table();
    assert_eq!(t.lookup(0x85).unwrap().mode, Addressing::ZeroPage);
    assert_eq!(t.lookup(0xB6).unwrap().mode, Addressing::ZeroPageY);
    assert_eq!(t.lookup(0xBE).unwrap().len, 3);
    assert_eq!(t.lookup(0x4A).unwrap().len, 1);
    assert_eq!(t.lookup(0x00).unwrap().code, 0x00);
}

#[test]
fn new_keeps_fields() {
    let rec = OpCode::new(0x2D, 3, Addressing::Absolute);
    assert_eq!(rec.code, 0x2D);
    assert_eq!(rec.len, 3);
    assert_eq!(rec.mode, Addressing::Absolute);
    assert!(!OpCode::new(0x2D, 2, Addressing::Absolute).is_consistent());
}
