use mpw::profile::{profile_for, AlgorithmVersion, ByteOrder, KdfParams, NAMESPACE};

const VERSIONS: [AlgorithmVersion; 5] = [
    AlgorithmVersion::V0,
    AlgorithmVersion::V1,
    AlgorithmVersion::V2,
    AlgorithmVersion::V3,
    AlgorithmVersion::Next,
];

#[test]
fn version_three_pins_scrypt_with_n_32768_r_8_p_2() {
    let profile = profile_for(AlgorithmVersion::V3);
    assert_eq!(profile.kdf, KdfParams::Scrypt { log_n: 15, r: 8, p: 2 });
    assert_eq!(profile.namespace, "com.lyndir.masterpassword");
    assert_eq!(profile.byte_order, ByteOrder::BigEndian);
    assert!(!profile.context_in_every_variant);
}

#[test]
fn the_older_versions_pin_scrypt_with_smaller_n() {
    assert_eq!(profile_for(AlgorithmVersion::V0).kdf, KdfParams::Scrypt { log_n: 12, r: 8, p: 2 });
    assert_eq!(profile_for(AlgorithmVersion::V1).kdf, KdfParams::Scrypt { log_n: 13, r: 8, p: 2 });
    assert_eq!(profile_for(AlgorithmVersion::V2).kdf, KdfParams::Scrypt { log_n: 14, r: 8, p: 2 });
}

#[test]
fn the_next_version_pins_argon2id() {
    assert_eq!(
        profile_for(AlgorithmVersion::Next).kdf,
        KdfParams::Argon2id { memory_kib: 19456, passes: 2, lanes: 1 }
    );
}

#[test]
fn every_version_shares_namespace_and_byte_order() {
    for version in VERSIONS {
        let profile = profile_for(version);
        assert_eq!(profile.namespace, NAMESPACE);
        assert_eq!(profile.byte_order, ByteOrder::BigEndian);
        assert!(!profile.context_in_every_variant);
    }
}

#[test]
fn no_two_versions_share_their_key_derivation() {
    for (i, a) in VERSIONS.iter().enumerate() {
        for (j, b) in VERSIONS.iter().enumerate() {
            if i != j {
                assert_ne!(profile_for(*a).kdf, profile_for(*b).kdf);
            }
        }
    }
}

#[test]
fn version_tokens_are_read() {
    assert_eq!(AlgorithmVersion::from("0"), Some(AlgorithmVersion::V0));
    assert_eq!(AlgorithmVersion::from("1"), Some(AlgorithmVersion::V1));
    assert_eq!(AlgorithmVersion::from("2"), Some(AlgorithmVersion::V2));
    assert_eq!(AlgorithmVersion::from("3"), Some(AlgorithmVersion::V3));
    assert_eq!(AlgorithmVersion::from("next"), Some(AlgorithmVersion::Next));
}

#[test]
fn other_version_tokens_are_refused() {
    for token in ["", "4", "03", "Next", "NEXT", " 3", "3 ", "v3", "-1"] {
        assert_eq!(AlgorithmVersion::from(token), None);
    }
}

#[test]
fn versions_are_ordered_oldest_first() {
    for pair in VERSIONS.windows(2) {
        assert!(pair[0] < pair[1]);
    }
    assert!(AlgorithmVersion::V0 < AlgorithmVersion::Next);
    assert_eq!(VERSIONS.iter().max(), Some(&AlgorithmVersion::Next));
}
