use contract_class::casm::{
    casm_contract_into_contract_class, convert_bytecode, CompiledClass, CompiledEntryPoints,
};
use contract_class::ContractClass;
use contract_class::entry_point::{selectors_in_range, EntryPointType, RawEntryPoint};
use contract_class::natural::BigNat;
use contract_class::program::{ApTracking, MemoryCell, ProgramError};

fn word(bytes: &[u8]) -> BigNat {
    BigNat::from_be_bytes(bytes.to_vec())
}

fn raw(selector: &[u8], offset: usize) -> RawEntryPoint {
    RawEntryPoint { selector: word(selector), offset, builtins: vec![] }
}

fn prime() -> Vec<u8> {
    let mut bytes = vec![0u8; 32];
    bytes[0] = 0x08;
    bytes[7] = 0x11;
    bytes[31] = 0x01;
    bytes
}

fn small(value: u8) -> [u8; 32] {
    let mut bytes = [0u8; 32];
    bytes[31] = value;
    bytes
}

fn sample() -> CompiledClass {
    CompiledClass {
        bytecode: vec![word(&[1]), word(&[2]), word(&[3])],
        entry_points_by_type: CompiledEntryPoints {
            external: vec![raw(&[0x0a], 0)],
            l1_handler: vec![],
            constructor: vec![],
        },
        pythonic_hints: Some(vec![(0, vec!["hint_a".to_string(), "hint_b".to_string()])]),
    }
}

fn cell_bytes(cell: &MemoryCell) -> [u8; 32] {
    match cell {
        MemoryCell::Int(element) => element.to_be_bytes(),
        MemoryCell::RelocatableValue(_) => panic!("compiled bytecode holds no reference"),
    }
}

fn convert(casm: CompiledClass) -> Result<ContractClass, ProgramError> {
    assert!(casm.meets_compiler_invariants());
    casm_contract_into_contract_class(casm)
}

#[test]
fn compiled_class_converts_to_three_cells() {
    let class = convert(sample()).unwrap();
    let data = &class.0.program.data;
    assert_eq!(data.len(), 3);
    assert_eq!(cell_bytes(&data[0]), small(1));
    assert_eq!(cell_bytes(&data[1]), small(2));
    assert_eq!(cell_bytes(&data[2]), small(3));
}

#[test]
fn compiled_class_files_entry_points_under_all_three_categories() {
    let class = convert(sample()).unwrap();
    let map = &class.0.entry_points_by_type;
    let external = map.get(EntryPointType::External).unwrap();
    assert_eq!(external.len(), 1);
    assert_eq!(external[0].selector.to_be_bytes(), small(0x0a));
    assert_eq!(external[0].offset, 0);
    assert_eq!(map.get(EntryPointType::L1Handler), Some(&vec![]));
    assert_eq!(map.get(EntryPointType::Constructor), Some(&vec![]));
}

#[test]
fn compiled_class_hints_keep_their_order() {
    let class = convert(sample()).unwrap();
    let hints = &class.0.program.hints;
    assert_eq!(hints.len(), 1);
    let at_zero = &hints[&0];
    assert_eq!(at_zero.len(), 2);
    assert_eq!(at_zero[0].code, "hint_a");
    assert_eq!(at_zero[1].code, "hint_b");
    for record in at_zero {
        assert!(record.accessible_scopes.is_empty());
        assert_eq!(record.flow_tracking_data.ap_tracking, ApTracking { group: 0, offset: 0 });
        assert!(record.flow_tracking_data.reference_ids.is_empty());
    }
}

#[test]
fn compiled_class_program_has_nothing_else() {
    let class = convert(sample()).unwrap();
    let program = &class.0.program;
    assert!(program.identifiers.is_empty());
    assert!(program.builtins.is_empty());
    assert_eq!(program.reference_manager, Some(vec![]));
    assert_eq!(program.main, None);
}

#[test]
fn compiled_class_without_hints_does_not_meet_the_invariants() {
    let mut casm = sample();
    casm.pythonic_hints = None;
    assert!(!casm.meets_compiler_invariants());
}

#[test]
fn compiled_class_with_empty_hints_meets_the_invariants() {
    let mut casm = sample();
    casm.pythonic_hints = Some(vec![]);
    assert!(casm.meets_compiler_invariants());
    let class = casm_contract_into_contract_class(casm).unwrap();
    assert!(class.0.program.hints.is_empty());
}

#[test]
fn compiled_class_with_a_selector_out_of_range_does_not_meet_the_invariants() {
    let mut too_large = vec![0u8; 32];
    too_large[0] = 0x10;
    let mut casm = sample();
    casm.entry_points_by_type.constructor = vec![raw(&[1], 4), raw(&too_large, 7)];
    assert!(!casm.meets_compiler_invariants());
    assert!(!selectors_in_range(&casm.entry_points_by_type.constructor));
    assert!(selectors_in_range(&casm.entry_points_by_type.external));
}

#[test]
fn entry_points_keep_length_and_order_in_every_category() {
    let mut casm = sample();
    casm.entry_points_by_type.external = vec![raw(&[3], 30), raw(&[1], 10), raw(&[2], 20)];
    casm.entry_points_by_type.l1_handler = vec![raw(&[9, 9], 5)];
    casm.entry_points_by_type.constructor = vec![raw(&[7], 1), raw(&[6], 2)];
    let class = convert(casm).unwrap();
    let map = &class.0.entry_points_by_type;
    let external = map.get(EntryPointType::External).unwrap();
    let offsets: Vec<usize> = external.iter().map(|point| point.offset).collect();
    assert_eq!(offsets, vec![30, 10, 20]);
    let selectors: Vec<u8> =
        external.iter().map(|point| point.selector.to_be_bytes()[31]).collect();
    assert_eq!(selectors, vec![3, 1, 2]);
    let l1_handler = map.get(EntryPointType::L1Handler).unwrap();
    assert_eq!(l1_handler.len(), 1);
    assert_eq!(l1_handler[0].selector.to_be_bytes()[30..], [9, 9]);
    assert_eq!(map.get(EntryPointType::Constructor).unwrap().len(), 2);
}

#[test]
fn entry_points_keep_their_builtins() {
    let mut casm = sample();
    casm.entry_points_by_type.external = vec![RawEntryPoint {
        selector: word(&[5]),
        offset: 12,
        builtins: vec!["range_check".to_string(), "pedersen".to_string()],
    }];
    let class = convert(casm).unwrap();
    let external = class.0.entry_points_by_type.get(EntryPointType::External).unwrap();
    assert_eq!(external[0].builtins, vec!["range_check".to_string(), "pedersen".to_string()]);
}

#[test]
fn hints_of_several_offsets_are_filed_separately() {
    let mut casm = sample();
    casm.bytecode = vec![word(&[1]); 8];
    casm.pythonic_hints = Some(vec![
        (5, vec!["e".to_string()]),
        (2, vec!["a".to_string(), "b".to_string(), "c".to_string()]),
        (7, vec![]),
    ]);
    let class = convert(casm).unwrap();
    let hints = &class.0.program.hints;
    assert_eq!(hints.len(), 3);
    let codes: Vec<&str> = hints[&2].iter().map(|record| record.code.as_str()).collect();
    assert_eq!(codes, vec!["a", "b", "c"]);
    assert_eq!(hints[&5].len(), 1);
    assert_eq!(hints[&7].len(), 0);
    assert!(!hints.contains_key(&0));
}

#[test]
fn later_hints_of_an_offset_replace_earlier_ones() {
    let mut casm = sample();
    casm.pythonic_hints =
        Some(vec![(0, vec!["old".to_string()]), (0, vec!["new".to_string(), "er".to_string()])]);
    let class = convert(casm).unwrap();
    let codes: Vec<&str> =
        class.0.program.hints[&0].iter().map(|record| record.code.as_str()).collect();
    assert_eq!(codes, vec!["new", "er"]);
}

#[test]
fn hint_offsets_are_not_checked_against_the_bytecode() {
    let mut casm = sample();
    casm.pythonic_hints = Some(vec![(1000, vec!["far".to_string()])]);
    let class = convert(casm).unwrap();
    assert_eq!(class.0.program.hints[&1000][0].code, "far");
}

#[test]
fn bytecode_conversion_keeps_length_and_order() {
    let words: Vec<BigNat> = (0u8..50).rev().map(|value| word(&[value])).collect();
    let cells = convert_bytecode(&words).unwrap();
    assert_eq!(cells.len(), 50);
    for (index, cell) in cells.iter().enumerate() {
        assert_eq!(cell_bytes(cell), small(49 - index as u8));
    }
}

#[test]
fn bytecode_words_may_have_leading_zeros_or_no_bytes() {
    let cells = convert_bytecode(&vec![word(&[]), word(&[0, 0, 7]), word(&[0; 40])]).unwrap();
    assert_eq!(cell_bytes(&cells[0]), small(0));
    assert_eq!(cell_bytes(&cells[1]), small(7));
    assert_eq!(cell_bytes(&cells[2]), small(0));
}

#[test]
fn bytecode_word_of_two_bytes_has_its_value() {
    let cells = convert_bytecode(&vec![word(&[0x01, 0x02])]).unwrap();
    let mut expected = [0u8; 32];
    expected[30] = 0x01;
    expected[31] = 0x02;
    assert_eq!(cell_bytes(&cells[0]), expected);
}

#[test]
fn largest_field_element_is_accepted() {
    let mut largest = prime();
    largest[31] = 0x00;
    let cells = convert_bytecode(&vec![word(&largest)]).unwrap();
    let expected: [u8; 32] = largest.clone().try_into().unwrap();
    assert_eq!(cell_bytes(&cells[0]), expected);
}

#[test]
fn word_equal_to_the_prime_is_out_of_range() {
    let words = vec![word(&[1]), word(&prime()), word(&prime())];
    assert_eq!(convert_bytecode(&words), Err(ProgramError::OutOfRange(1)));
}

#[test]
fn word_longer_than_the_field_is_out_of_range() {
    let words = vec![word(&[1; 33])];
    assert_eq!(convert_bytecode(&words), Err(ProgramError::OutOfRange(0)));
}

#[test]
fn conversion_fails_on_the_first_word_out_of_range() {
    let mut casm = sample();
    casm.bytecode = vec![word(&[1]), word(&[2]), word(&[0xff; 32]), word(&prime())];
    assert_eq!(convert(casm), Err(ProgramError::OutOfRange(2)));
}

#[test]
fn converting_twice_gives_equal_classes() {
    let first = convert(sample()).unwrap();
    let second = convert(sample()).unwrap();
    assert_eq!(first, second);
    assert!(!std::sync::Arc::ptr_eq(&first.0, &second.0));
}

#[test]
fn converting_twice_gives_the_same_error() {
    let mut casm = sample();
    casm.bytecode = vec![word(&prime())];
    assert_eq!(convert(casm.clone()), convert(casm));
}

#[test]
fn cloning_a_class_shares_the_program() {
    let class = convert(sample()).unwrap();
    let copy = class.clone();
    assert!(std::sync::Arc::ptr_eq(&class.0, &copy.0));
    assert_eq!(class, copy);
}

#[test]
fn classes_of_different_bytecode_differ() {
    let mut other = sample();
    other.bytecode = vec![word(&[1]), word(&[2]), word(&[4])];
    assert_ne!(convert(sample()).unwrap(), convert(other).unwrap());
}
