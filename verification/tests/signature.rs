use syqure::signature::{BundleSignature, FNV_OFFSET_BASIS};

#[test]
fn hash_of_nothing_is_the_offset_basis() {
    let s = BundleSignature::of(b"");
    assert_eq!(s.hash, FNV_OFFSET_BASIS);
    assert_eq!(s.hash, 0xcbf2_9ce4_8422_2325);
    assert_eq!(s.len, 0);
}

#[test]
fn hash_matches_the_published_vectors() {
    assert_eq!(BundleSignature::of(b"a").hash, 0xaf63_dc4c_8601_ec8c);
    assert_eq!(BundleSignature::of(b"foobar").hash, 0x8594_4171_f739_67e8);
    assert_eq!(BundleSignature::of(b"foobar").len, 6);
}

#[test]
fn identical_bytes_have_one_signature() {
    let a = vec![7u8; 4096];
    let b = a.clone();
    assert_eq!(BundleSignature::of(&a), BundleSignature::of(&b));
    assert_eq!(BundleSignature::of(&a).label(), BundleSignature::of(&b).label());
}

#[test]
fn one_changed_byte_changes_the_signature() {
    let a: Vec<u8> = (0..=255u8).cycle().take(3000).collect();
    for at in [0usize, 1, 1499, 2998, 2999] {
        let mut b = a.clone();
        b[at] ^= 0x01;
        assert_ne!(BundleSignature::of(&a).hash, BundleSignature::of(&b).hash);
        assert_ne!(BundleSignature::of(&a).label(), BundleSignature::of(&b).label());
    }
}

#[test]
fn a_longer_payload_has_another_signature() {
    let a = BundleSignature::of(b"bundle");
    let b = BundleSignature::of(b"bundle\0");
    assert_ne!(a, b);
    assert_ne!(a.len, b.len);
    assert_ne!(a.label(), b.label());
}

#[test]
fn label_spells_hash_and_length_in_hexadecimal() {
    let s = BundleSignature { hash: 0xaf63_dc4c_8601_ec8c, len: 1 };
    assert_eq!(s.label(), "af63dc4c8601ec8c-0000000000000001");
    let s = BundleSignature { hash: 0, len: u64::MAX };
    assert_eq!(s.label(), "0000000000000000-ffffffffffffffff");
    let s = BundleSignature { hash: 0x0123_4567_89ab_cdef, len: 0xfedc_ba98_7654_3210 };
    assert_eq!(s.label(), "0123456789abcdef-fedcba9876543210");
    assert_eq!(BundleSignature::of(b"foobar").label(), "85944171f73967e8-0000000000000006");
}

#[test]
fn payloads_that_differ_in_several_bytes_can_share_a_signature() {
    let a = [0xc1u8, 0xdb, 0x7e, 0x98, 0xcf, 0x0f, 0xd5, 0xc9];
    let b = [0x28u8, 0x7b, 0x80, 0xc0, 0xea, 0xf0, 0x49, 0x68];
    assert_ne!(a, b);
    assert_eq!(BundleSignature::of(&a).hash, 0x8153_c251_a382_9557);
    assert_eq!(BundleSignature::of(&a), BundleSignature::of(&b));
    assert_eq!(BundleSignature::of(&a).label(), BundleSignature::of(&b).label());
}
