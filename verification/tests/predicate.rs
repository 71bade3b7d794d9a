use oak::bitmask::Bitmask;
use oak::dataset::HybridSearchMetadata;
use oak::dataset::SearchableError;
use oak::predicate::PredicateQuery;
use oak::predicate::evaluate_predicate;

fn mask_bits(m: &Bitmask) -> Vec<bool> {
    let mut out = Vec::new();
    let mut i = 0;
    while i < m.len() {
        out.push(m.get(i));
        i += 1;
    }
    out
}

#[test]
fn predicate_serialize_eq_encoding() {
    let b = PredicateQuery::Eq(1).serialize().unwrap();
    assert_eq!(b, vec![0u8, 1, 0, 0, 0]);
}

#[test]
fn predicate_serialize_lt_negative_encoding() {
    let b = PredicateQuery::Lt(-1).serialize().unwrap();
    assert_eq!(b, vec![1u8, 255, 255, 255, 255]);
}

#[test]
fn predicate_serialize_gt_encoding() {
    let b = PredicateQuery::Gt(0x01020304).serialize().unwrap();
    assert_eq!(b, vec![2u8, 4, 3, 2, 1]);
}

#[test]
fn predicate_serialize_between_encoding() {
    let b = PredicateQuery::Between(2, 300).serialize().unwrap();
    assert_eq!(b, vec![3u8, 2, 0, 0, 0, 44, 1, 0, 0]);
}

#[test]
fn predicate_serialize_malformed_between_fails() {
    let r = PredicateQuery::Between(5, 1).serialize();
    assert_eq!(r.unwrap_err(), SearchableError::PredicateSerializationError);
}

#[test]
fn predicate_evaluate_eq() {
    let m = HybridSearchMetadata::new(vec![5, 7, 5, -5]);
    let mask = evaluate_predicate(&PredicateQuery::Eq(5), &m).unwrap();
    assert_eq!(mask_bits(&mask), vec![true, false, true, false]);
}

#[test]
fn predicate_evaluate_lt_and_gt() {
    let m = HybridSearchMetadata::new(vec![-2, 0, 3]);
    let lt = evaluate_predicate(&PredicateQuery::Lt(0), &m).unwrap();
    assert_eq!(mask_bits(&lt), vec![true, false, false]);
    let gt = evaluate_predicate(&PredicateQuery::Gt(-1), &m).unwrap();
    assert_eq!(mask_bits(&gt), vec![false, true, true]);
}

#[test]
fn predicate_evaluate_between_inclusive() {
    let m = HybridSearchMetadata::new(vec![1, 2, 3, 4, 5]);
    let mask = evaluate_predicate(&PredicateQuery::Between(2, 4), &m).unwrap();
    assert_eq!(mask_bits(&mask), vec![false, true, true, true, false]);
}

#[test]
fn predicate_evaluate_unserializable_fails() {
    let m = HybridSearchMetadata::new(vec![1, 2, 3]);
    let r = evaluate_predicate(&PredicateQuery::Between(4, 2), &m);
    assert_eq!(r.unwrap_err(), SearchableError::PredicateSerializationError);
}

#[test]
fn predicate_evaluate_empty_store() {
    let m = HybridSearchMetadata::new(Vec::new());
    let mask = evaluate_predicate(&PredicateQuery::Eq(0), &m).unwrap();
    assert_eq!(mask.len(), 0);
}
