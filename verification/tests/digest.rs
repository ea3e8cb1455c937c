use palimpsest_sim::digest::{fold_digest, fold_le_u64, Fnv, FNV_OFFSET, FNV_PRIME};

#[test]
fn fnv_matches_the_published_test_vectors() {
    assert_eq!(fold_digest(FNV_OFFSET, b""), 0xcbf2_9ce4_8422_2325);
    assert_eq!(fold_digest(FNV_OFFSET, b"a"), 0xaf63_dc4c_8601_ec8c);
    assert_eq!(fold_digest(FNV_OFFSET, b"foobar"), 0x8594_4171_f739_67e8);
    assert_eq!(FNV_PRIME, 1_099_511_628_211);
}

#[test]
fn folding_concatenated_runs_matches_folding_each_in_turn() {
    let whole = fold_digest(FNV_OFFSET, b"foobar");
    let split = fold_digest(fold_digest(FNV_OFFSET, b"foo"), b"bar");
    assert_eq!(whole, split);
}

#[test]
fn incremental_hash_folds_bytes_words_and_text() {
    let mut fnv = Fnv::new();
    fnv.byte(b'f');
    fnv.str("oo");
    fnv.u64(0x0102_0304_0506_0708);
    let mut expected = fold_digest(FNV_OFFSET, b"foo");
    expected = fold_digest(expected, &0x0102_0304_0506_0708_u64.to_le_bytes());
    assert_eq!(fnv.finish(), expected);
    assert_eq!(fold_le_u64(7, 9), fold_digest(7, &9_u64.to_le_bytes()));
}
