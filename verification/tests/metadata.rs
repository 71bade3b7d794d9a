use oak::bitmask::Bitmask;
use oak::dataset::HybridSearchMetadata;
use oak::dataset::ValidationError;

#[test]
fn metadata_new_wraps_attrs() {
    let m = HybridSearchMetadata::new(vec![7, -3, 0]);
    assert_eq!(m.len(), 3);
    assert_eq!(m.attrs(), &vec![7, -3, 0]);
    assert_eq!(m.get(0), 7);
    assert_eq!(m.get(1), -3);
    assert_eq!(m.get(2), 0);
}

#[test]
fn metadata_mask_of_all_ones_is_identity() {
    let m = HybridSearchMetadata::new(vec![10, 20, 30, 40]);
    let derived = m.new_from_bitmask(Bitmask::all_ones(4)).unwrap();
    assert_eq!(derived.len(), m.len());
    assert_eq!(derived.attrs(), m.attrs());
}

#[test]
fn metadata_mask_of_all_zeros_is_empty() {
    let m = HybridSearchMetadata::new(vec![10, 20, 30, 40]);
    let derived = m.new_from_bitmask(Bitmask::all_zeros(4)).unwrap();
    assert_eq!(derived.len(), 0);
    assert_eq!(derived.attrs(), &Vec::<i32>::new());
}

#[test]
fn metadata_positional_filtering_preserves_order() {
    let m = HybridSearchMetadata::new(vec![10, 20, 30, 40, 50]);
    let mask = Bitmask::from_bytes(&vec![1, 0, 1, 0, 1]).unwrap();
    let derived = m.new_from_bitmask(mask).unwrap();
    assert_eq!(derived.len(), 3);
    assert_eq!(derived.attrs(), &vec![10, 30, 50]);
}

#[test]
fn metadata_length_mismatch_is_rejected() {
    let m = HybridSearchMetadata::new(vec![10, 20, 30]);
    for n in [0usize, 1, 2, 4, 5, 100] {
        let r = m.new_from_bitmask(Bitmask::all_ones(n));
        assert_eq!(r.unwrap_err(), ValidationError::MaskLengthMismatch);
    }
    // The receiver is untouched by a failed (or successful) derivation.
    assert_eq!(m.attrs(), &vec![10, 20, 30]);
}

#[test]
fn metadata_derivation_does_not_mutate_receiver() {
    let m = HybridSearchMetadata::new(vec![1, 2, 3]);
    let mask = Bitmask::from_bytes(&vec![0, 1, 0]).unwrap();
    let derived = m.new_from_bitmask(mask).unwrap();
    assert_eq!(derived.attrs(), &vec![2]);
    assert_eq!(m.attrs(), &vec![1, 2, 3]);
    assert_eq!(m.len(), 3);
}

#[test]
fn metadata_filter_of_filter_composes() {
    let m = HybridSearchMetadata::new(vec![10, 20, 30, 40, 50]);
    let first = m.new_from_bitmask(Bitmask::from_bytes(&vec![1, 0, 1, 0, 1]).unwrap()).unwrap();
    // The derived store has length 3, so a second mask must have length 3.
    let second = first.new_from_bitmask(Bitmask::from_bytes(&vec![0, 1, 1]).unwrap()).unwrap();
    assert_eq!(second.attrs(), &vec![30, 50]);
    let wrong = first.new_from_bitmask(Bitmask::all_ones(5));
    assert_eq!(wrong.unwrap_err(), ValidationError::MaskLengthMismatch);
}
