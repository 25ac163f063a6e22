//! Algorithm versions and the parameters each of them pins.

use vstd::prelude::*;
use vstd::utf8::*;
use crate::text::str_eq;

verus! {

/// The versions of the derivation algorithm, oldest first. What a version
/// does never changes once it is published; new behaviour gets a new
/// variant.
#[derive(Clone, Copy, PartialEq, Eq, PartialOrd, Ord, Structural, Debug)]
pub enum AlgorithmVersion {
    V0,
    V1,
    V2,
    V3,
    Next,
}

impl AlgorithmVersion {
    /// The version a command-line token stands for.
    pub open spec fn spec_from(token: Seq<char>) -> Option<AlgorithmVersion> {
        if token == "0"@ {
            Some(AlgorithmVersion::V0)
        } else if token == "1"@ {
            Some(AlgorithmVersion::V1)
        } else if token == "2"@ {
            Some(AlgorithmVersion::V2)
        } else if token == "3"@ {
            Some(AlgorithmVersion::V3)
        } else if token == "next"@ {
            Some(AlgorithmVersion::Next)
        } else {
            None
        }
    }

    /// Reads a version token: `0`, `1`, `2`, `3` or `next`.
    pub fn from(token: &str) -> (version: Option<AlgorithmVersion>)
        ensures
            version == Self::spec_from(token@),
    {
        if str_eq(token, "0") {
            Some(AlgorithmVersion::V0)
        } else if str_eq(token, "1") {
            Some(AlgorithmVersion::V1)
        } else if str_eq(token, "2") {
            Some(AlgorithmVersion::V2)
        } else if str_eq(token, "3") {
            Some(AlgorithmVersion::V3)
        } else if str_eq(token, "next") {
            Some(AlgorithmVersion::Next)
        } else {
            None
        }
    }
}

/// Key-derivation function and cost parameters.
#[derive(Clone, Copy, PartialEq, Eq, Structural, Debug)]
pub enum KdfParams {
    /// scrypt with `N = 2^log_n`, block size `r` and parallelism `p`.
    Scrypt { log_n: u8, r: u32, p: u32 },
    /// Argon2id (version 0x13) with memory in KiB, passes and lanes.
    Argon2id { memory_kib: u32, passes: u32, lanes: u32 },
}

/// The width in bytes of every integer in a salt or a seed: the lengths
/// and the counter. It is the same for every version.
pub const INT_WIDTH: usize = 4;

/// Byte order of the fixed-width integers in salts and seeds.
#[derive(Clone, Copy, PartialEq, Eq, Structural, Debug)]
pub enum ByteOrder {
    BigEndian,
    LittleEndian,
}

/// Everything a version pins: the key-derivation function with its cost,
/// the namespace that opens every salt and seed, the byte order of the
/// four-byte length and counter fields, and whether the context is part of
/// the site seed for variants other than `Answer`.
#[derive(Clone, Copy, Debug)]
pub struct AlgorithmProfile {
    pub kdf: KdfParams,
    pub namespace: &'static str,
    pub byte_order: ByteOrder,
    pub context_in_every_variant: bool,
}

/// The namespace shared by all published versions.
pub const NAMESPACE: &'static str = "com.lyndir.masterpassword";

/// The namespace is 25 ASCII characters and as many bytes.
pub proof fn lemma_namespace_len()
    ensures
        NAMESPACE@.len() == 25,
        is_ascii_chars(NAMESPACE@),
        encode_utf8(NAMESPACE@).len() == 25,
{
    reveal_strlit("com.lyndir.masterpassword");
    is_ascii_chars_encode_utf8(NAMESPACE@);
}

/// The table of profiles, one for each version.
pub open spec fn spec_profile_for(version: AlgorithmVersion) -> AlgorithmProfile {
    AlgorithmProfile {
        kdf: match version {
            AlgorithmVersion::V0 => KdfParams::Scrypt { log_n: 12, r: 8, p: 2 },
            AlgorithmVersion::V1 => KdfParams::Scrypt { log_n: 13, r: 8, p: 2 },
            AlgorithmVersion::V2 => KdfParams::Scrypt { log_n: 14, r: 8, p: 2 },
            AlgorithmVersion::V3 => KdfParams::Scrypt { log_n: 15, r: 8, p: 2 },
            AlgorithmVersion::Next => KdfParams::Argon2id {
                memory_kib: 19456,
                passes: 2,
                lanes: 1,
            },
        },
        namespace: NAMESPACE,
        byte_order: ByteOrder::BigEndian,
        context_in_every_variant: false,
    }
}

/// Version isolation: no two versions derive the master key with the same
/// function and cost, so the same secret and identity are stretched
/// differently under each.
pub proof fn lemma_versions_differ(a: AlgorithmVersion, b: AlgorithmVersion)
    requires
        a != b,
    ensures
        spec_profile_for(a).kdf != spec_profile_for(b).kdf,
{
}

/// The profile of a version.
pub fn profile_for(version: AlgorithmVersion) -> (profile: AlgorithmProfile)
    ensures
        profile == spec_profile_for(version),
{
    let kdf = match version {
        AlgorithmVersion::V0 => KdfParams::Scrypt { log_n: 12, r: 8, p: 2 },
        AlgorithmVersion::V1 => KdfParams::Scrypt { log_n: 13, r: 8, p: 2 },
        AlgorithmVersion::V2 => KdfParams::Scrypt { log_n: 14, r: 8, p: 2 },
        AlgorithmVersion::V3 => KdfParams::Scrypt { log_n: 15, r: 8, p: 2 },
        AlgorithmVersion::Next => KdfParams::Argon2id { memory_kib: 19456, passes: 2, lanes: 1 },
    };
    AlgorithmProfile {
        kdf,
        namespace: NAMESPACE,
        byte_order: ByteOrder::BigEndian,
        context_in_every_variant: false,
    }
}

} // verus!
