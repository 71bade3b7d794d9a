use oak::dataset::ConstructionError;
use oak::vectors::VectorBatch;

fn bits(values: &[f32]) -> Vec<u32> {
    values.iter().map(|v| v.to_bits()).collect()
}

#[test]
fn batch_new_zero_dimensionality_rejected() {
    let r = VectorBatch::new(bits(&[1.0, 2.0]), 0);
    assert_eq!(r.unwrap_err(), ConstructionError::InvalidDimensionality);
}

#[test]
fn batch_new_length_not_multiple_rejected() {
    let r = VectorBatch::new(bits(&[1.0, 2.0, 3.0, 4.0, 5.0]), 2);
    assert_eq!(r.unwrap_err(), ConstructionError::DimensionMismatch);
}

#[test]
fn batch_new_non_finite_rejected() {
    let r = VectorBatch::new(bits(&[1.0, f32::NAN]), 2);
    assert_eq!(r.unwrap_err(), ConstructionError::NonFiniteValue);
    let r = VectorBatch::new(bits(&[f32::INFINITY, 2.0]), 2);
    assert_eq!(r.unwrap_err(), ConstructionError::NonFiniteValue);
    let r = VectorBatch::new(bits(&[f32::NEG_INFINITY, 2.0]), 2);
    assert_eq!(r.unwrap_err(), ConstructionError::NonFiniteValue);
}

#[test]
fn batch_counts_and_dimensionality() {
    let b = VectorBatch::new(bits(&[1.0, 2.0, 3.0, 4.0, 5.0, 6.0]), 3).unwrap();
    assert_eq!(b.count(), 2);
    assert_eq!(b.dimensionality(), 3);
}

#[test]
fn batch_empty_is_allowed() {
    let b = VectorBatch::new(Vec::new(), 4).unwrap();
    assert_eq!(b.count(), 0);
    assert_eq!(b.dimensionality(), 4);
}

#[test]
fn batch_vector_at_reads_rows() {
    let b = VectorBatch::new(bits(&[1.0, 2.0, 3.0, 4.0, 5.0, 6.0]), 2).unwrap();
    assert_eq!(b.vector_at(0).data, bits(&[1.0, 2.0]));
    assert_eq!(b.vector_at(1).data, bits(&[3.0, 4.0]));
    assert_eq!(b.vector_at(2).data, bits(&[5.0, 6.0]));
}

#[test]
fn batch_to_fvecs_reads_all_rows() {
    let b = VectorBatch::new(bits(&[1.5, -2.5, 0.25, 8.0]), 2).unwrap();
    let rows = b.to_fvecs();
    assert_eq!(rows.len(), 2);
    assert_eq!(rows[0].data, bits(&[1.5, -2.5]));
    assert_eq!(rows[1].data, bits(&[0.25, 8.0]));
}

#[test]
fn batch_negative_components_are_finite() {
    // The sign bit plays no part in the finiteness check.
    let b = VectorBatch::new(bits(&[-1.0, -0.0, f32::MIN, f32::MAX]), 4).unwrap();
    assert_eq!(b.count(), 1);
}
