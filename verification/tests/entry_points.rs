use contract_class::entry_point::{
    classify_entry_points, convert_entry_points, EntryPoint, EntryPointError, EntryPointMap,
    EntryPointType, RawEntryPoint, Selector, SelectorOutOfRange,
};
use contract_class::natural::BigNat;

fn point(selector: &[u8], offset: usize) -> RawEntryPoint {
    RawEntryPoint { selector: BigNat::from_be_bytes(selector.to_vec()), offset, builtins: vec![] }
}

fn bound() -> Vec<u8> {
    let mut bytes = vec![0u8; 32];
    bytes[0] = 0x10;
    bytes
}

fn below_bound() -> Vec<u8> {
    let mut bytes = vec![0xffu8; 32];
    bytes[0] = 0x0f;
    bytes
}

#[test]
fn raw_entry_point_converts_to_thirty_two_bytes() {
    let converted = EntryPoint::from_raw(point(&[0x0a], 3)).unwrap();
    let mut expected = [0u8; 32];
    expected[31] = 0x0a;
    assert_eq!(converted.selector.to_be_bytes(), expected);
    assert_eq!(converted.offset, 3);
}

#[test]
fn raw_entry_point_with_zero_selector_converts() {
    let converted = EntryPoint::from_raw(point(&[], 0)).unwrap();
    assert_eq!(converted.selector.to_be_bytes(), [0u8; 32]);
    let converted = EntryPoint::from_raw(point(&[0, 0], 0)).unwrap();
    assert_eq!(converted.selector.to_be_bytes(), [0u8; 32]);
}

#[test]
fn largest_selector_converts() {
    let converted = EntryPoint::from_raw(point(&below_bound(), 1)).unwrap();
    let expected: [u8; 32] = below_bound().try_into().unwrap();
    assert_eq!(converted.selector.to_be_bytes(), expected);
    assert!(point(&below_bound(), 1).is_convertible());
}

#[test]
fn selector_between_the_prime_and_the_bound_converts() {
    let mut bytes = vec![0u8; 32];
    bytes[0] = 0x08;
    bytes[7] = 0x12;
    let converted = EntryPoint::from_raw(point(&bytes, 1)).unwrap();
    let expected: [u8; 32] = bytes.try_into().unwrap();
    assert_eq!(converted.selector.to_be_bytes(), expected);
}

#[test]
fn selector_at_the_bound_is_out_of_range() {
    assert_eq!(EntryPoint::from_raw(point(&bound(), 1)), Err(SelectorOutOfRange));
    assert!(!point(&bound(), 1).is_convertible());
}

#[test]
fn selector_of_more_than_thirty_two_bytes_is_out_of_range() {
    assert_eq!(EntryPoint::from_raw(point(&[1; 33], 1)), Err(SelectorOutOfRange));
    let mut padded = vec![0u8; 8];
    padded.extend_from_slice(&below_bound());
    assert!(EntryPoint::from_raw(point(&padded, 1)).is_ok());
}

#[test]
fn selector_from_bytes_checks_the_first_half_byte() {
    let below: [u8; 32] = below_bound().try_into().unwrap();
    let at: [u8; 32] = bound().try_into().unwrap();
    assert_eq!(Selector::from_be_bytes(below).map(|s| s.to_be_bytes()), Some(below));
    assert_eq!(Selector::from_be_bytes(at), None);
    assert_eq!(Selector::from_be_bytes([0xff; 32]), None);
    assert!(Selector::from_be_bytes([0; 32]).is_some());
}

#[test]
fn list_conversion_keeps_order() {
    let converted =
        convert_entry_points(vec![point(&[2], 20), point(&[1], 10), point(&[3], 30)]).unwrap();
    let offsets: Vec<usize> = converted.iter().map(|p| p.offset).collect();
    assert_eq!(offsets, vec![20, 10, 30]);
    assert_eq!(convert_entry_points(vec![]), Ok(vec![]));
}

#[test]
fn list_conversion_names_the_first_failure() {
    let raws = vec![point(&[2], 20), point(&bound(), 10), point(&[3], 30), point(&bound(), 1)];
    assert_eq!(convert_entry_points(raws), Err(1));
}

#[test]
fn classification_has_all_three_categories_even_when_empty() {
    let map = classify_entry_points(vec![], vec![], vec![]).unwrap();
    assert_eq!(map.get(EntryPointType::External), Some(&vec![]));
    assert_eq!(map.get(EntryPointType::L1Handler), Some(&vec![]));
    assert_eq!(map.get(EntryPointType::Constructor), Some(&vec![]));
}

#[test]
fn classification_files_each_list_under_its_category() {
    let map = classify_entry_points(
        vec![point(&[1], 1), point(&[2], 2)],
        vec![point(&[3], 3)],
        vec![point(&[4], 4), point(&[5], 5), point(&[6], 6)],
    )
    .unwrap();
    assert_eq!(map.get(EntryPointType::External).unwrap().len(), 2);
    assert_eq!(map.get(EntryPointType::L1Handler).unwrap()[0].offset, 3);
    assert_eq!(map.get(EntryPointType::Constructor).unwrap()[2].offset, 6);
}

#[test]
fn classification_names_the_first_failure_in_category_order() {
    let failed = classify_entry_points(
        vec![point(&[1], 1)],
        vec![point(&[1], 1), point(&[1], 2), point(&bound(), 3)],
        vec![point(&bound(), 4)],
    );
    assert_eq!(
        failed,
        Err(EntryPointError { category: EntryPointType::L1Handler, index: 2 })
    );
    let failed = classify_entry_points(vec![point(&bound(), 1)], vec![], vec![point(&bound(), 4)]);
    assert_eq!(failed, Err(EntryPointError { category: EntryPointType::External, index: 0 }));
    let failed = classify_entry_points(vec![], vec![], vec![point(&[1], 0), point(&bound(), 4)]);
    assert_eq!(
        failed,
        Err(EntryPointError { category: EntryPointType::Constructor, index: 1 })
    );
}

#[test]
fn empty_map_has_no_category() {
    let map = EntryPointMap::new();
    assert_eq!(map.get(EntryPointType::External), None);
    assert_eq!(map.get(EntryPointType::L1Handler), None);
    assert_eq!(map.get(EntryPointType::Constructor), None);
}

#[test]
fn insert_replaces_only_its_category() {
    let mut map = EntryPointMap::new();
    let first = convert_entry_points(vec![point(&[1], 1)]).unwrap();
    let second = convert_entry_points(vec![point(&[2], 2), point(&[3], 3)]).unwrap();
    map.insert(EntryPointType::External, first.clone());
    map.insert(EntryPointType::Constructor, first.clone());
    map.insert(EntryPointType::External, second.clone());
    assert_eq!(map.get(EntryPointType::External), Some(&second));
    assert_eq!(map.get(EntryPointType::Constructor), Some(&first));
    assert_eq!(map.get(EntryPointType::L1Handler), None);
}
