use floaters::generators::{WordSource, Xoroshiro256pp, Xorshift128p};

// Both construction paths that fold or pack caller bytes are exact,
// deterministic functions of the input; these values pin them down.

#[test]
fn xorshift_new_is_all_ones() {
    let e = Xorshift128p::new();
    assert_eq!(e.state, [u64::MAX, u64::MAX]);
}

#[test]
fn xoroshiro_new_is_all_ones() {
    let e = Xoroshiro256pp::new();
    assert_eq!(e.state, [u64::MAX; 4]);
}

#[test]
fn xorshift_from_seed_copies_words() {
    let e = Xorshift128p::new_from_seed(&[7, 9]);
    assert_eq!(e.state, [7, 9]);
}

#[test]
fn xoroshiro_from_seed_copies_words() {
    let e = Xoroshiro256pp::new_from_seed(&[1, 2, 3, 4]);
    assert_eq!(e.state, [1, 2, 3, 4]);
}

#[test]
fn xorshift_from_str_folds_bytes() {
    // Bytes XOR into an all-ones buffer, little-endian within each word.
    let e = Xorshift128p::new_from_str("abc");
    assert_eq!(e.state, [0xffff_ffff_ff9c_9d9e, u64::MAX]);
}

#[test]
fn xorshift_from_str_longer_input() {
    let e = Xorshift128p::new_from_str("this should work well as a seed");
    assert_eq!(e.state, [0xe3f6_acb3_e0f3_e0ab, 0x94e9_f5ed_acbb_f2aa]);
}

#[test]
fn xoroshiro_from_str_folds_bytes() {
    let e = Xoroshiro256pp::new_from_str("This might be a good seed.");
    assert_eq!(
        e.state,
        [
            0x9896_92df_8c96_97ab,
            0xdf9e_df9a_9ddf_8b97,
            0x9a9a_8cdf_9b90_9098,
            0xffff_ffff_ffff_d19b,
        ]
    );
}

#[test]
fn xorshift_from_bytes_repeats_cyclically() {
    // A four-byte slice repeats to sixteen bytes, packed little-endian.
    let e = Xorshift128p::new_from_bytes(&[0x12, 0x23, 0x34, 0x35]);
    assert_eq!(e.state, [0x3534_2312_3534_2312, 0x3534_2312_3534_2312]);
}

#[test]
fn xoroshiro_from_bytes_repeats_cyclically() {
    let e = Xoroshiro256pp::new_from_bytes(&[0x12, 0x23, 0x34, 0x35]);
    assert_eq!(e.state, [0x3534_2312_3534_2312; 4]);
}

// The non-zero-state invariant: a seed that would produce the all-zero
// state is reported, never silently accepted.

#[test]
fn xorshift_checked_from_seed_rejects_all_zero() {
    assert!(Xorshift128p::checked_from_seed(&[0, 0]).is_none());
    let e = Xorshift128p::checked_from_seed(&[0, 5]).unwrap();
    assert_eq!(e.state, [0, 5]);
}

#[test]
fn xoroshiro_checked_from_seed_rejects_all_zero() {
    assert!(Xoroshiro256pp::checked_from_seed(&[0, 0, 0, 0]).is_none());
    let e = Xoroshiro256pp::checked_from_seed(&[0, 0, 0, 8]).unwrap();
    assert_eq!(e.state, [0, 0, 0, 8]);
}

#[test]
fn xorshift_checked_from_bytes_rejects_empty_and_zero() {
    assert!(Xorshift128p::checked_from_bytes(&[]).is_none());
    assert!(Xorshift128p::checked_from_bytes(&[0, 0, 0]).is_none());
    let e = Xorshift128p::checked_from_bytes(&[0, 1]).unwrap();
    assert_ne!(e.state, [0, 0]);
}

#[test]
fn xoroshiro_checked_from_bytes_rejects_empty_and_zero() {
    assert!(Xoroshiro256pp::checked_from_bytes(&[]).is_none());
    assert!(Xoroshiro256pp::checked_from_bytes(&[0]).is_none());
    let e = Xoroshiro256pp::checked_from_bytes(&[9]).unwrap();
    assert_eq!(e.state, [0x0909_0909_0909_0909; 4]);
}

#[test]
fn xorshift_checked_from_str_accepts_ordinary_input() {
    let e = Xorshift128p::checked_from_str("any text at all").unwrap();
    assert_ne!(e.state, [0, 0]);
}

#[test]
fn xoroshiro_checked_from_str_accepts_ordinary_input() {
    let e = Xoroshiro256pp::checked_from_str("any text at all").unwrap();
    assert_ne!(e.state, [0, 0, 0, 0]);
}

// Determinism: identically constructed engines, warmed up identically,
// emit identical word sequences.

#[test]
fn xorshift_identical_construction_identical_stream() {
    let mut a = Xorshift128p::new_from_str("determinism check");
    let mut b = Xorshift128p::new_from_str("determinism check");
    a.init(17);
    b.init(17);
    for _ in 0..32 {
        assert_eq!(a.wild_bits(), b.wild_bits());
    }
}

#[test]
fn xoroshiro_identical_construction_identical_stream() {
    let mut a = Xoroshiro256pp::new_from_bytes(&[5, 6, 7]);
    let mut b = Xoroshiro256pp::new_from_bytes(&[5, 6, 7]);
    a.init(9);
    b.init(9);
    for _ in 0..32 {
        assert_eq!(a.wild_bits(), b.wild_bits());
    }
}

#[test]
fn xoroshiro_known_seed_known_words() {
    let mut e = Xoroshiro256pp::new_from_seed(&[1, 2, 3, 4]);
    assert_eq!(e.wild_bits(), 0x3800067);
    assert_eq!(e.wild_bits(), 0xcc00003800067);
    assert_eq!(e.wild_bits(), 0xcc201994400b2);
}

#[test]
fn init_advances_like_single_steps() {
    let mut a = Xorshift128p::new_from_seed(&[11, 13]);
    let mut b = Xorshift128p::new_from_seed(&[11, 13]);
    a.init(5);
    for _ in 0..5 {
        b.wild_bits();
    }
    // A draw combines after advancing, so five draws leave the same state
    // as a five-step warm-up; the next words must agree.
    assert_eq!(a.wild_bits(), b.wild_bits());
}

// The entropy path: construction succeeds against the host's source and
// never hands back an all-zero state. Were the trusted byte acquisition a
// no-op that left its zeroed buffer untouched, every word would come out
// zero and these constructors would report failure instead.

#[test]
fn xorshift_new_random_is_nonzero() {
    let e = Xorshift128p::new_random().unwrap();
    assert_ne!(e.state, [0, 0]);
}

#[test]
fn xoroshiro_new_random_is_nonzero() {
    let e = Xoroshiro256pp::new_random().unwrap();
    assert_ne!(e.state, [0, 0, 0, 0]);
}

#[test]
fn os_nonzero_words_len_and_nonzero() {
    let words = floaters::entropy::os_nonzero_words(5).unwrap();
    assert_eq!(words.len(), 5);
    for w in words {
        assert_ne!(w, 0);
    }
}

#[test]
fn word_source_matches_wild_stream() {
    let mut a = Xorshift128p::new_from_seed(&[2, 3]);
    let mut b = Xorshift128p::new_from_seed(&[2, 3]);
    for _ in 0..8 {
        assert_eq!(a.next_word(), b.wild_bits());
    }
    let mut a = Xoroshiro256pp::new_from_seed(&[2, 3, 5, 8]);
    let mut b = Xoroshiro256pp::new_from_seed(&[2, 3, 5, 8]);
    for _ in 0..8 {
        assert_eq!(a.next_word(), b.wild_bits());
    }
}

#[test]
fn random_engines_differ() {
    // Two independent random engines agreeing on 4 draws would be a
    // 2^-256 coincidence; treat it as failure.
    let mut a = Xorshift128p::new_random().unwrap();
    let mut b = Xorshift128p::new_random().unwrap();
    let same = (0..4).all(|_| a.wild_bits() == b.wild_bits());
    assert!(!same);
}
