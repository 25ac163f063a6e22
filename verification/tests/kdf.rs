use mpw::error::DeriveError;
use mpw::kdf::{master_key, MasterKey, MASTER_KEY_LEN};
use mpw::profile::AlgorithmVersion;
use mpw::wipe::wipe;

fn key_of(
    secret: &[u8],
    identity: &str,
    version: AlgorithmVersion,
) -> Result<MasterKey, DeriveError> {
    let mut secret = secret.to_vec();
    master_key(&mut secret, identity, version)
}

fn salt_of(identity: &str) -> Vec<u8> {
    let mut salt = b"com.lyndir.masterpassword".to_vec();
    salt.extend_from_slice(&(identity.len() as u32).to_be_bytes());
    salt.extend_from_slice(identity.as_bytes());
    salt
}

fn scrypt_directly(secret: &[u8], salt: &[u8], log_n: u8) -> Vec<u8> {
    let params = scrypt::Params::new(log_n, 8, 2, 64).unwrap();
    let mut out = vec![0u8; 64];
    scrypt::scrypt(secret, salt, &params, &mut out).unwrap();
    out
}

#[test]
fn master_key_of_version_zero_is_scrypt_of_secret_and_salt() {
    let key = key_of(b"correct horse battery staple", "alice", AlgorithmVersion::V0).unwrap();
    let expected = scrypt_directly(b"correct horse battery staple", &salt_of("alice"), 12);
    assert_eq!(key.as_bytes(), &expected[..]);
}

#[test]
fn master_key_of_version_one_is_scrypt_with_n_8192() {
    let key = key_of(b"secret", "bob", AlgorithmVersion::V1).unwrap();
    assert_eq!(key.as_bytes(), &scrypt_directly(b"secret", &salt_of("bob"), 13)[..]);
}

#[test]
fn master_key_of_version_two_is_scrypt_with_n_16384() {
    let key = key_of(b"secret", "bob", AlgorithmVersion::V2).unwrap();
    assert_eq!(key.as_bytes(), &scrypt_directly(b"secret", &salt_of("bob"), 14)[..]);
}

#[test]
fn master_key_of_the_next_version_is_argon2id_of_secret_and_salt() {
    let key = key_of(b"correct horse battery staple", "alice", AlgorithmVersion::Next).unwrap();
    let params = argon2::Params::new(19456, 2, 1, Some(64)).unwrap();
    let hasher = argon2::Argon2::new(argon2::Algorithm::Argon2id, argon2::Version::V0x13, params);
    let mut expected = vec![0u8; 64];
    hasher
        .hash_password_into(b"correct horse battery staple", &salt_of("alice"), &mut expected)
        .unwrap();
    assert_eq!(key.as_bytes(), &expected[..]);
}

#[test]
fn master_key_is_64_bytes_whatever_the_input() {
    let inputs = [
        ("", "a"),
        ("x", "a much longer identity than the others"),
        ("a long secret, longer than the key itself, of more than sixty-four bytes in all", "b"),
    ];
    for (secret, identity) in inputs {
        let key = key_of(secret.as_bytes(), identity, AlgorithmVersion::V0).unwrap();
        assert_eq!(key.as_bytes().len(), MASTER_KEY_LEN);
        assert_eq!(key.as_bytes().len(), 64);
    }
}

#[test]
fn master_key_is_the_same_on_every_call() {
    let first = key_of(b"secret", "alice", AlgorithmVersion::V0).unwrap();
    let second = key_of(b"secret", "alice", AlgorithmVersion::V0).unwrap();
    assert_eq!(first.as_bytes(), second.as_bytes());
}

#[test]
fn master_key_changes_with_the_identity() {
    let alice = key_of(b"secret", "alice", AlgorithmVersion::V0).unwrap();
    let bob = key_of(b"secret", "bob", AlgorithmVersion::V0).unwrap();
    assert_ne!(alice.as_bytes(), bob.as_bytes());
}

#[test]
fn master_key_changes_with_the_secret() {
    let one = key_of(b"secret", "alice", AlgorithmVersion::V0).unwrap();
    let other = key_of(b"secreu", "alice", AlgorithmVersion::V0).unwrap();
    assert_ne!(one.as_bytes(), other.as_bytes());
}

#[test]
fn master_key_changes_with_the_version() {
    let v0 = key_of(b"secret", "alice", AlgorithmVersion::V0).unwrap();
    let v1 = key_of(b"secret", "alice", AlgorithmVersion::V1).unwrap();
    let next = key_of(b"secret", "alice", AlgorithmVersion::Next).unwrap();
    assert_ne!(v0.as_bytes(), v1.as_bytes());
    assert_ne!(v0.as_bytes(), next.as_bytes());
    assert_ne!(v1.as_bytes(), next.as_bytes());
}

#[test]
fn master_key_refuses_an_empty_identity() {
    for version in [AlgorithmVersion::V0, AlgorithmVersion::V3, AlgorithmVersion::Next] {
        assert!(matches!(key_of(b"secret", "", version), Err(DeriveError::EmptyIdentity)));
    }
}

#[test]
fn master_key_takes_an_empty_secret() {
    let key = key_of(b"", "alice", AlgorithmVersion::V0).unwrap();
    assert_eq!(key.as_bytes(), &scrypt_directly(b"", &salt_of("alice"), 12)[..]);
}

#[test]
fn master_key_wipes_the_secret() {
    let mut secret = b"correct horse battery staple".to_vec();
    let key = master_key(&mut secret, "alice", AlgorithmVersion::V0);
    assert!(key.is_ok());
    assert_eq!(secret, vec![0u8; 28]);
}

#[test]
fn master_key_wipes_the_secret_when_it_refuses() {
    let mut secret = b"correct horse battery staple".to_vec();
    let key = master_key(&mut secret, "", AlgorithmVersion::V0);
    assert!(key.is_err());
    assert_eq!(secret, vec![0u8; 28]);
}

#[test]
fn master_key_from_bytes_takes_64_bytes_only() {
    assert!(MasterKey::from_bytes(vec![7u8; 64]).is_some());
    assert!(MasterKey::from_bytes(vec![7u8; 63]).is_none());
    assert!(MasterKey::from_bytes(vec![7u8; 65]).is_none());
    assert!(MasterKey::from_bytes(Vec::new()).is_none());
}

#[test]
fn master_key_from_bytes_keeps_the_bytes() {
    let bytes: Vec<u8> = (0u8..64).collect();
    let key = MasterKey::from_bytes(bytes.clone()).unwrap();
    assert_eq!(key.as_bytes(), &bytes[..]);
}

#[test]
fn master_key_wipe_leaves_64_zeros() {
    let mut key = MasterKey::from_bytes(vec![0xa5u8; 64]).unwrap();
    key.wipe();
    assert_eq!(key.as_bytes(), &[0u8; 64][..]);
}

#[test]
fn wipe_zeroes_every_byte_and_keeps_the_length() {
    let mut buffer = b"correct horse battery staple".to_vec();
    wipe(&mut buffer);
    assert_eq!(buffer, vec![0u8; 28]);
    let mut empty: Vec<u8> = Vec::new();
    wipe(&mut empty);
    assert!(empty.is_empty());
}
