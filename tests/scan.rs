use run_splitter::signature::Signature;

#[test]
fn scan_finds_lowest_match() {
    let sig = Signature::new(vec![Some(0x8B), None, Some(0x05)]);
    let region = [0x00, 0x8B, 0x11, 0x06, 0x8B, 0x22, 0x05, 0x8B, 0x33, 0x05];
    assert_eq!(sig.scan(&region, 0x1000), Some(0x1004));
    assert!(sig.matches(&region, 7));
    assert!(!sig.matches(&region, 1));
}

#[test]
fn scan_without_match_is_none() {
    let sig = Signature::new(vec![Some(0xAA), Some(0xBB)]);
    assert_eq!(sig.scan(&[0xAA, 0xBC, 0xAA], 0), None);
    assert_eq!(sig.scan(&[], 0), None);
    assert_eq!(sig.scan(&[0xBB, 0xAA], 0), None);
}

#[test]
fn scan_edge_windows() {
    let sig = Signature::new(vec![None, Some(7)]);
    assert_eq!(sig.scan(&[1, 2, 7], 10), Some(11));
    let empty = Signature::new(vec![]);
    assert_eq!(empty.scan(&[], 5), Some(5));
    assert_eq!(empty.scan(&[1, 2], 5), Some(5));
}
