use oak::bitmask::Bitmask;
use oak::dataset::ValidationError;

#[test]
fn bitmask_from_bytes_accepts_zeros_and_ones() {
    let m = Bitmask::from_bytes(&vec![1, 0, 1]).unwrap();
    assert_eq!(m.len(), 3);
    assert!(m.get(0));
    assert!(!m.get(1));
    assert!(m.get(2));
}

#[test]
fn bitmask_from_bytes_rejects_other_values() {
    let r = Bitmask::from_bytes(&vec![1, 2, 0]);
    assert_eq!(r.unwrap_err(), ValidationError::MaskValueOutOfRange);
    let r = Bitmask::from_bytes(&vec![255]);
    assert_eq!(r.unwrap_err(), ValidationError::MaskValueOutOfRange);
}

#[test]
fn bitmask_all_ones_and_all_zeros() {
    let ones = Bitmask::all_ones(4);
    let zeros = Bitmask::all_zeros(4);
    assert_eq!(ones.len(), 4);
    assert_eq!(zeros.len(), 4);
    for i in 0..4 {
        assert!(ones.get(i));
        assert!(!zeros.get(i));
    }
    assert_eq!(ones.count_set(), 4);
    assert_eq!(zeros.count_set(), 0);
}

#[test]
fn bitmask_count_set_counts_admitted() {
    let m = Bitmask::from_bytes(&vec![1, 0, 1, 1, 0]).unwrap();
    assert_eq!(m.count_set(), 3);
}

#[test]
fn bitmask_marshals_to_engine_bytes() {
    let m = Bitmask::new(vec![true, false, true]);
    assert_eq!(m.to_engine_bytes(), vec![1u8, 0, 1]);
    let round = Bitmask::from_bytes(&m.to_engine_bytes()).unwrap();
    assert_eq!(round.len(), 3);
    for i in 0..3 {
        assert_eq!(round.get(i), m.get(i));
    }
}

#[test]
fn bitmask_empty() {
    let m = Bitmask::from_bytes(&Vec::new()).unwrap();
    assert_eq!(m.len(), 0);
    assert_eq!(m.count_set(), 0);
    assert_eq!(m.to_engine_bytes(), Vec::<u8>::new());
}
