use cxx_async::vectors::{sample_vectors, split_point, Xorshift, SEED, SPLIT_LIMIT, VECTOR_LENGTH};

#[test]
fn constants_have_their_fixed_values() {
    assert_eq!(SEED, 0x243f6a88);
    assert_eq!(VECTOR_LENGTH, 16384);
    assert_eq!(SPLIT_LIMIT, 32);
}

#[test]
fn generator_gives_the_known_sequence() {
    let mut rand = Xorshift::new();
    let expected: [u32; 8] = [
        3836725727, 2937111989, 1130492582, 3683945404, 377943917, 3305986136, 2932573243,
        400419005,
    ];
    for want in expected {
        assert_eq!(rand.next(), want);
    }
}

#[test]
fn two_generators_agree() {
    let mut first = Xorshift::new();
    let mut second = Xorshift::new();
    for _ in 0..1000 {
        assert_eq!(first.next(), second.next());
    }
}

#[test]
fn generator_never_gives_zero() {
    let mut rand = Xorshift::new();
    for _ in 0..100_000 {
        assert_ne!(rand.next(), 0);
    }
}

#[test]
fn sample_vectors_deal_the_numbers_out_in_turn() {
    let (a, b) = sample_vectors(4);
    assert_eq!(a, vec![3836725727, 1130492582, 377943917, 2932573243]);
    assert_eq!(b, vec![2937111989, 3683945404, 3305986136, 400419005]);
}

#[test]
fn sample_vectors_have_the_asked_length() {
    let (a, b) = sample_vectors(VECTOR_LENGTH);
    assert_eq!(a.len(), 16384);
    assert_eq!(b.len(), 16384);
    assert_eq!(a[0], 3836725727);
    assert_eq!(b[0], 2937111989);
    let (none_a, none_b) = sample_vectors(0);
    assert!(none_a.is_empty() && none_b.is_empty());
}

#[test]
fn slices_up_to_the_limit_are_not_split() {
    assert_eq!(split_point(0), None);
    assert_eq!(split_point(1), None);
    assert_eq!(split_point(32), None);
}

#[test]
fn longer_slices_are_halved() {
    assert_eq!(split_point(33), Some(16));
    assert_eq!(split_point(64), Some(32));
    assert_eq!(split_point(16384), Some(8192));
    assert_eq!(split_point(usize::MAX), Some(usize::MAX / 2));
}
