use eymate::config::SIMILARITY_SCALE;
use eymate::similarity::{cosine_similarity, DimensionMismatch, Embedding, MAX_DIM};

fn emb(values: &[i16]) -> Embedding {
    Embedding::new(values.to_vec()).unwrap()
}

#[test]
fn similarity_is_symmetric() {
    let a = emb(&[3, -7, 12, 5]);
    let b = emb(&[-2, 9, 4, 11]);
    let ab = cosine_similarity(&a, &b).unwrap();
    let ba = cosine_similarity(&b, &a).unwrap();
    assert_eq!(ab.dot(), ba.dot());
    assert_eq!(ab.norm_sq_a(), ba.norm_sq_b());
    assert_eq!(ab.norm_sq_b(), ba.norm_sq_a());
    for t in [0u32, 1, 100_000, 500_000, 999_999, SIMILARITY_SCALE] {
        assert_eq!(ab.exceeds(t), ba.exceeds(t));
    }
}

#[test]
fn exact_dot_product_and_norms() {
    let a = emb(&[3, -7, 12, 5]);
    let b = emb(&[-2, 9, 4, 11]);
    let s = cosine_similarity(&a, &b).unwrap();
    assert_eq!(s.dot(), -6 - 63 + 48 + 55);
    assert_eq!(s.norm_sq_a(), 9 + 49 + 144 + 25);
    assert_eq!(s.norm_sq_b(), 4 + 81 + 16 + 121);
    assert!(s.is_finite());
}

#[test]
fn self_similarity_is_one() {
    let a = emb(&[3, 4]);
    let s = cosine_similarity(&a, &a).unwrap();
    assert_eq!(s.dot(), 25);
    assert_eq!(s.norm_sq_a(), 25);
    assert_eq!(s.norm_sq_b(), 25);
    assert!(s.exceeds(0));
    assert!(s.exceeds(999_999));
    assert!(!s.exceeds(SIMILARITY_SCALE));
}

#[test]
fn self_similarity_of_a_large_embedding() {
    let values: Vec<i16> = (0..512).map(|i| ((i * 37) % 2001 - 1000) as i16).collect();
    let a = Embedding::new(values).unwrap();
    let s = cosine_similarity(&a, &a).unwrap();
    assert!(s.exceeds(999_999));
    assert!(!s.exceeds(SIMILARITY_SCALE));
}

#[test]
fn threshold_is_strict() {
    // 8000 / 10000 is exactly 0.8.
    let reference = emb(&[10000, 0]);
    let probe = emb(&[8000, 6000]);
    let s = cosine_similarity(&reference, &probe).unwrap();
    assert!(!s.exceeds(800_000));
    assert!(s.exceeds(799_999));
}

#[test]
fn cosine_of_known_vectors() {
    // 24 / 25 = 0.96
    let s = cosine_similarity(&emb(&[3, 4]), &emb(&[4, 3])).unwrap();
    assert!(s.exceeds(959_999));
    assert!(!s.exceeds(960_000));
    assert!(s.exceeds(900_000));
}

#[test]
fn opposite_vectors_never_match() {
    let s = cosine_similarity(&emb(&[1, 2, 3]), &emb(&[-1, -2, -3])).unwrap();
    assert_eq!(s.dot(), -14);
    assert!(!s.exceeds(0));
    assert!(!s.exceeds(1));
}

#[test]
fn zero_embedding_is_not_finite() {
    let s = cosine_similarity(&emb(&[0, 0, 0]), &emb(&[1, 2, 3])).unwrap();
    assert!(!s.is_finite());
    assert!(!s.exceeds(0));
    assert!(!s.exceeds(900_000));
}

#[test]
fn mismatched_dimensionality_fails_fast() {
    let r = cosine_similarity(&emb(&[1, 2]), &emb(&[1, 2, 3]));
    assert!(matches!(r, Err(DimensionMismatch { left: 2, right: 3 })));
    let r = cosine_similarity(&emb(&[1, 2, 3, 4]), &emb(&[1]));
    assert!(matches!(r, Err(DimensionMismatch { left: 4, right: 1 })));
}

#[test]
fn extreme_components_do_not_overflow() {
    let a = Embedding::new(vec![i16::MIN; MAX_DIM]).unwrap();
    let b = Embedding::new(vec![i16::MAX; MAX_DIM]).unwrap();
    let s = cosine_similarity(&a, &b).unwrap();
    assert_eq!(s.dot(), -32768i64 * 32767 * MAX_DIM as i64);
    assert_eq!(s.norm_sq_a(), 32768u64 * 32768 * MAX_DIM as u64);
    assert!(!s.exceeds(0));
    let aa = cosine_similarity(&a, &a).unwrap();
    assert!(aa.exceeds(999_999));
    assert!(!aa.exceeds(u32::MAX));
}

#[test]
fn embedding_length_is_bounded() {
    assert!(Embedding::new(vec![1; MAX_DIM]).is_some());
    assert!(Embedding::new(vec![1; MAX_DIM + 1]).is_none());
    let e = emb(&[5, -6]);
    assert_eq!(e.len(), 2);
    assert_eq!(e.values(), &vec![5, -6]);
    assert_eq!(e.duplicate().values(), &vec![5, -6]);
}
