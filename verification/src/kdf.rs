//! The master key: the user's secret, stretched under the user's salt by
//! the slow key-derivation function that the version pins.

use vstd::prelude::*;
use vstd::arithmetic::power2::{lemma2_to64, pow2};
use crate::error::DeriveError;
use crate::profile::{
    AlgorithmVersion,
    KdfParams,
    lemma_namespace_len,
    lemma_versions_differ,
    profile_for,
    spec_profile_for,
};
use crate::seed::{
    lemma_identity_changes_salt,
    lemma_user_salt_len,
    spec_user_salt,
    spec_user_salt_checked,
    user_salt,
};
use crate::wipe::{wipe, zeroed};

verus! {

/// The length of a master key in bytes.
pub const MASTER_KEY_LEN: usize = 64;

/// The longest secret, and the longest salt, that Argon2 takes.
pub const ARGON2_MAX_INPUT: usize = 0xffff_ffff;

/// The shortest salt that Argon2 takes.
pub const ARGON2_MIN_SALT: usize = 8;

/// The key that scrypt derives: `len` bytes from a secret, a salt and the
/// cost parameters `N = 2^log_n`, `r` and `p`.
pub uninterp spec fn scrypt_output(
    secret: Seq<u8>,
    salt: Seq<u8>,
    log_n: u8,
    r: u32,
    p: u32,
    len: nat,
) -> Seq<u8>;

/// The key that Argon2id, version 0x13, derives without pepper or
/// associated data: `len` bytes from a secret, a salt, the memory in KiB,
/// the passes and the lanes.
pub uninterp spec fn argon2id_output(
    secret: Seq<u8>,
    salt: Seq<u8>,
    memory_kib: u32,
    passes: u32,
    lanes: u32,
    len: nat,
) -> Seq<u8>;

/// The two largest buffers of scrypt, of `128 * r * N` and `128 * r * p`
/// bytes, are no larger than a vector can be.
pub open spec fn scrypt_fits_memory(log_n: u8, r: u32, p: u32) -> bool {
    &&& 128 * r * pow2(log_n as nat) <= isize::MAX
    &&& 128 * r * p <= isize::MAX
}

/// The parameters that scrypt takes, where its buffers fit memory.
pub open spec fn scrypt_accepts(log_n: u8, r: u32, p: u32, len: nat) -> bool {
    &&& 0 < r
    &&& 0 < p
    &&& 10 <= len <= 64
    &&& log_n < 16 * r
    &&& r * p < 0x4000_0000
}

/// The blocks of Argon2, one KiB each, and the key are no larger than a
/// vector can be, and eight times the lanes is a number of 32 bits.
pub open spec fn argon2_fits_memory(memory_kib: u32, lanes: u32, len: nat) -> bool {
    &&& 1024 * memory_kib <= isize::MAX
    &&& 8 * lanes <= u32::MAX
    &&& len <= isize::MAX
}

/// The parameters that Argon2 takes.
pub open spec fn argon2_accepts(memory_kib: u32, passes: u32, lanes: u32, len: nat) -> bool {
    &&& 8 <= memory_kib
    &&& 8 * lanes <= memory_kib
    &&& 1 <= passes
    &&& 1 <= lanes <= 0xff_ffff
    &&& 4 <= len <= 0xffff_ffff
}

/// The lengths of secret and salt that Argon2 takes.
pub open spec fn argon2_accepts_input(secret_len: nat, salt_len: nat) -> bool {
    &&& secret_len <= ARGON2_MAX_INPUT
    &&& ARGON2_MIN_SALT <= salt_len <= ARGON2_MAX_INPUT
}

/// Calls `scrypt::Params::new` and `scrypt::scrypt`.
///
/// Taken on trust: the key that comes back is `len` bytes long and is the
/// one that scrypt defines for these arguments; and the call gives a key
/// whenever `r` and `p` are positive, `len` is between 10 and 64,
/// `log_n < 16 * r` and `r * p < 2^30`, which is all that the two
/// functions test once the buffers fit memory.
#[verifier::external_body]
fn scrypt_derive(secret: &[u8], salt: &[u8], log_n: u8, r: u32, p: u32, len: usize) -> (key:
    Option<Vec<u8>>)
    requires
        scrypt_fits_memory(log_n, r, p),
    ensures
        scrypt_accepts(log_n, r, p, len as nat) ==> key is Some,
        key matches Some(k) ==> k@.len() == len && k@ == scrypt_output(
            secret@,
            salt@,
            log_n,
            r,
            p,
            len as nat,
        ),
{
    let params = scrypt::Params::new(log_n, r, p, len).ok()?;
    let mut key = vec![0u8; len];
    scrypt::scrypt(secret, salt, &params, &mut key).ok()?;
    Some(key)
}

/// Calls `argon2::Params::new`, `argon2::Argon2::new` and
/// `argon2::Argon2::hash_password_into`, for Argon2id in version 0x13.
///
/// Taken on trust: the key that comes back is `len` bytes long and is the
/// one that Argon2id defines for these arguments; and the call gives a key
/// whenever the memory is at least 8 KiB and 8 KiB for each lane, there is
/// at least one pass and between one and `2^24 - 1` lanes, `len` is at
/// least 4, the salt at least 8 bytes, and none of `len`, secret and salt
/// is longer than `2^32 - 1`.
#[verifier::external_body]
fn argon2id_derive(
    secret: &[u8],
    salt: &[u8],
    memory_kib: u32,
    passes: u32,
    lanes: u32,
    len: usize,
) -> (key: Option<Vec<u8>>)
    requires
        argon2_fits_memory(memory_kib, lanes, len as nat),
    ensures
        argon2_accepts(memory_kib, passes, lanes, len as nat) && argon2_accepts_input(
            secret@.len(),
            salt@.len(),
        ) ==> key is Some,
        key matches Some(k) ==> k@.len() == len && k@ == argon2id_output(
            secret@,
            salt@,
            memory_kib,
            passes,
            lanes,
            len as nat,
        ),
{
    let params = argon2::Params::new(memory_kib, passes, lanes, Some(len)).ok()?;
    let hasher = argon2::Argon2::new(argon2::Algorithm::Argon2id, argon2::Version::V0x13, params);
    let mut key = vec![0u8; len];
    hasher.hash_password_into(secret, salt, &mut key).ok()?;
    Some(key)
}

/// A master key: 64 bytes of key material, whatever it was derived from.
/// It is neither printed nor copied, and `wipe` clears it.
pub struct MasterKey {
    bytes: Vec<u8>,
}

impl View for MasterKey {
    type V = Seq<u8>;

    closed spec fn view(&self) -> Seq<u8> {
        self.bytes@
    }
}

impl MasterKey {
    #[verifier::type_invariant]
    spec fn well_formed(&self) -> bool {
        self.bytes@.len() == MASTER_KEY_LEN
    }

    /// Takes 64 bytes as a master key; any other length is refused.
    pub fn from_bytes(bytes: Vec<u8>) -> (key: Option<MasterKey>)
        ensures
            key is Some <==> bytes@.len() == MASTER_KEY_LEN,
            key matches Some(k) ==> k@ == bytes@,
    {
        if bytes.len() == MASTER_KEY_LEN {
            Some(MasterKey { bytes })
        } else {
            None
        }
    }

    /// The 64 bytes of the key.
    pub fn as_bytes(&self) -> (bytes: &[u8])
        ensures
            bytes@ == self@,
            bytes@.len() == MASTER_KEY_LEN,
    {
        proof {
            use_type_invariant(self);
        }
        self.bytes.as_slice()
    }

    /// Overwrites the key with zeros.
    pub fn wipe(&mut self)
        ensures
            final(self)@ == zeroed(MASTER_KEY_LEN as nat),
    {
        proof {
            use_type_invariant(&*self);
        }
        wipe(&mut self.bytes);
    }
}

/// What the key-derivation function of `kdf` makes of a secret and a salt:
/// a key of 64 bytes.
pub open spec fn spec_stretch(secret: Seq<u8>, salt: Seq<u8>, kdf: KdfParams) -> Seq<u8> {
    match kdf {
        KdfParams::Scrypt { log_n, r, p } => scrypt_output(
            secret,
            salt,
            log_n,
            r,
            p,
            MASTER_KEY_LEN as nat,
        ),
        KdfParams::Argon2id { memory_kib, passes, lanes } => argon2id_output(
            secret,
            salt,
            memory_kib,
            passes,
            lanes,
            MASTER_KEY_LEN as nat,
        ),
    }
}

/// Whether the key-derivation function of `kdf` takes a secret and a salt
/// of these lengths: scrypt takes any, Argon2 up to `2^32 - 1` bytes of
/// each.
pub open spec fn spec_takes_input(kdf: KdfParams, secret_len: nat, salt_len: nat) -> bool {
    match kdf {
        KdfParams::Scrypt { .. } => true,
        KdfParams::Argon2id { .. } => secret_len <= ARGON2_MAX_INPUT && salt_len
            <= ARGON2_MAX_INPUT,
    }
}

/// Whether the parameters of `kdf` are within the limits of its function,
/// for a key of 64 bytes.
pub open spec fn spec_kdf_usable(kdf: KdfParams) -> bool {
    match kdf {
        KdfParams::Scrypt { log_n, r, p } => scrypt_fits_memory(log_n, r, p) && scrypt_accepts(
            log_n,
            r,
            p,
            MASTER_KEY_LEN as nat,
        ),
        KdfParams::Argon2id { memory_kib, passes, lanes } => argon2_fits_memory(
            memory_kib,
            lanes,
            MASTER_KEY_LEN as nat,
        ) && argon2_accepts(memory_kib, passes, lanes, MASTER_KEY_LEN as nat),
    }
}

/// The parameters that each version pins are within the limits of its
/// key-derivation function.
pub proof fn lemma_pinned_kdf_usable(version: AlgorithmVersion)
    ensures
        spec_kdf_usable(spec_profile_for(version).kdf),
{
    lemma2_to64();
}

/// The master key of a user, or the reason there is none.
pub open spec fn spec_master_key(
    secret: Seq<u8>,
    identity: Seq<char>,
    version: AlgorithmVersion,
) -> Result<Seq<u8>, DeriveError> {
    let profile = spec_profile_for(version);
    match spec_user_salt_checked(identity, profile) {
        Err(e) => Err(e),
        Ok(salt) => if spec_takes_input(profile.kdf, secret.len(), salt.len()) {
            Ok(spec_stretch(secret, salt, profile.kdf))
        } else {
            Err(DeriveError::KdfInputTooLong)
        },
    }
}

/// Identity sensitivity: the master keys of two different identities are
/// stretched from the same secret under two different salts.
pub proof fn lemma_identity_sensitivity(
    secret: Seq<u8>,
    a: Seq<char>,
    b: Seq<char>,
    version: AlgorithmVersion,
)
    requires
        a != b,
        spec_master_key(secret, a, version) is Ok,
        spec_master_key(secret, b, version) is Ok,
    ensures
        ({
            let profile = spec_profile_for(version);
            let salt_a = spec_user_salt(a, profile);
            let salt_b = spec_user_salt(b, profile);
            &&& salt_a != salt_b
            &&& spec_master_key(secret, a, version) == Ok::<Seq<u8>, DeriveError>(
                spec_stretch(secret, salt_a, profile.kdf),
            )
            &&& spec_master_key(secret, b, version) == Ok::<Seq<u8>, DeriveError>(
                spec_stretch(secret, salt_b, profile.kdf),
            )
        }),
{
    lemma_identity_changes_salt(a, b, spec_profile_for(version));
}

/// Version isolation: under two different versions, the master keys of
/// one secret and identity are stretched from the same secret and salt by
/// two different key-derivation functions, or by one at two different
/// costs.
pub proof fn lemma_version_isolation(
    secret: Seq<u8>,
    identity: Seq<char>,
    a: AlgorithmVersion,
    b: AlgorithmVersion,
)
    requires
        a != b,
        spec_master_key(secret, identity, a) is Ok,
        spec_master_key(secret, identity, b) is Ok,
    ensures
        ({
            let kdf_a = spec_profile_for(a).kdf;
            let kdf_b = spec_profile_for(b).kdf;
            let salt = spec_user_salt(identity, spec_profile_for(a));
            &&& kdf_a != kdf_b
            &&& spec_master_key(secret, identity, a) == Ok::<Seq<u8>, DeriveError>(
                spec_stretch(secret, salt, kdf_a),
            )
            &&& spec_master_key(secret, identity, b) == Ok::<Seq<u8>, DeriveError>(
                spec_stretch(secret, salt, kdf_b),
            )
        }),
{
    lemma_versions_differ(a, b);
}

/// Runs the key-derivation function of `kdf`.
fn stretch(secret: &[u8], salt: &[u8], kdf: KdfParams) -> (key: MasterKey)
    requires
        spec_kdf_usable(kdf),
        spec_takes_input(kdf, secret@.len(), salt@.len()),
        ARGON2_MIN_SALT <= salt@.len(),
    ensures
        key@ == spec_stretch(secret@, salt@, kdf),
{
    let derived = match kdf {
        KdfParams::Scrypt { log_n, r, p } => scrypt_derive(
            secret,
            salt,
            log_n,
            r,
            p,
            MASTER_KEY_LEN,
        ),
        KdfParams::Argon2id { memory_kib, passes, lanes } => argon2id_derive(
            secret,
            salt,
            memory_kib,
            passes,
            lanes,
            MASTER_KEY_LEN,
        ),
    };
    match derived {
        Some(bytes) => MasterKey { bytes },
        None => vstd::pervasive::unreached(),
    }
}

/// Derives the master key and leaves the secret as it was.
fn master_key_from(secret: &[u8], identity: &str, version: AlgorithmVersion) -> (key: Result<
    MasterKey,
    DeriveError,
>)
    ensures
        match key {
            Ok(k) => spec_master_key(secret@, identity@, version) == Ok::<Seq<u8>, DeriveError>(
                k@,
            ),
            Err(e) => spec_master_key(secret@, identity@, version) == Err::<Seq<u8>, DeriveError>(
                e,
            ),
        },
{
    let profile = profile_for(version);
    let salt = match user_salt(identity, &profile) {
        Ok(salt) => salt,
        Err(e) => {
            return Err(e);
        },
    };
    let takes_input = match profile.kdf {
        KdfParams::Scrypt { .. } => true,
        KdfParams::Argon2id { .. } => secret.len() <= ARGON2_MAX_INPUT && salt.len()
            <= ARGON2_MAX_INPUT,
    };
    if !takes_input {
        return Err(DeriveError::KdfInputTooLong);
    }
    proof {
        lemma_namespace_len();
        lemma_user_salt_len(identity@, profile);
        lemma_pinned_kdf_usable(version);
    }
    Ok(stretch(secret, salt.as_slice(), profile.kdf))
}

/// Derives the master key of a user from the secret and the identity, and
/// wipes the secret.
///
/// The salt is the user salt of `identity` under the profile of `version`,
/// and the key is what the profile's key-derivation function makes of the
/// secret under it. The call is slow on purpose. Whether it gives a key or
/// refuses, the secret holds only zeros when it returns.
pub fn master_key(secret: &mut Vec<u8>, identity: &str, version: AlgorithmVersion) -> (key:
    Result<MasterKey, DeriveError>)
    ensures
        final(secret)@ == zeroed(old(secret)@.len()),
        match key {
            Ok(k) => spec_master_key(old(secret)@, identity@, version) == Ok::<
                Seq<u8>,
                DeriveError,
            >(k@),
            Err(e) => spec_master_key(old(secret)@, identity@, version) == Err::<
                Seq<u8>,
                DeriveError,
            >(e),
        },
{
    let key = master_key_from(secret.as_slice(), identity, version);
    wipe(secret);
    key
}

} // verus!
