//! The site key: a keyed hash of the site seed under the master key.

use vstd::prelude::*;
use hmac::{Hmac, Mac};
use sha2::Sha256;
use crate::error::DeriveError;
use crate::kdf::{MASTER_KEY_LEN, MasterKey};
use crate::profile::{AlgorithmVersion, profile_for, spec_profile_for};
use crate::seed::{
    lemma_counter_changes_seed,
    site_seed,
    spec_site_seed,
    spec_site_seed_checked,
};
use crate::site::{SiteSpec, SiteSpecView};
use crate::wipe::{wipe, zeroed};

verus! {

/// The length of a site key in bytes.
pub const SITE_KEY_LEN: usize = 32;

/// The HMAC-SHA-256 tag of a message under a key.
pub uninterp spec fn hmac_sha256_tag(key: Seq<u8>, message: Seq<u8>) -> Seq<u8>;

/// Calls `Hmac::<Sha256>::new_from_slice`, `update` and `finalize`.
///
/// Taken on trust: the tag is the HMAC-SHA-256 of the message under the
/// key, and it is 32 bytes long. A key of any length is taken, so the
/// `expect` never fires.
#[verifier::external_body]
pub(crate) fn hmac_sha256(key: &[u8], message: &[u8]) -> (tag: Vec<u8>)
    ensures
        tag@ == hmac_sha256_tag(key@, message@),
        tag@.len() == 32,
{
    let mut mac = Hmac::<Sha256>::new_from_slice(key).expect("HMAC takes a key of any length");
    mac.update(message);
    mac.finalize().into_bytes().to_vec()
}

/// A site key: 32 bytes, read only by the renderer.
pub struct SiteKey {
    bytes: Vec<u8>,
}

impl View for SiteKey {
    type V = Seq<u8>;

    closed spec fn view(&self) -> Seq<u8> {
        self.bytes@
    }
}

impl SiteKey {
    #[verifier::type_invariant]
    spec fn well_formed(&self) -> bool {
        self.bytes@.len() == SITE_KEY_LEN
    }

    /// Takes 32 bytes as a site key; any other length is refused.
    pub fn from_bytes(bytes: Vec<u8>) -> (key: Option<SiteKey>)
        ensures
            key is Some <==> bytes@.len() == SITE_KEY_LEN,
            key matches Some(k) ==> k@ == bytes@,
    {
        if bytes.len() == SITE_KEY_LEN {
            Some(SiteKey { bytes })
        } else {
            None
        }
    }

    /// The 32 bytes of the key.
    pub fn as_bytes(&self) -> (bytes: &[u8])
        ensures
            bytes@ == self@,
            bytes@.len() == SITE_KEY_LEN,
    {
        proof {
            use_type_invariant(self);
        }
        self.bytes.as_slice()
    }

    /// Overwrites the key with zeros.
    pub fn wipe(&mut self)
        ensures
            final(self)@ == zeroed(SITE_KEY_LEN as nat),
    {
        proof {
            use_type_invariant(&*self);
        }
        wipe(&mut self.bytes);
    }
}

/// The key of a site under a master key, or the reason there is none.
pub open spec fn spec_site_key(
    master_key: Seq<u8>,
    site: SiteSpecView,
    version: AlgorithmVersion,
) -> Result<Seq<u8>, DeriveError> {
    match spec_site_seed_checked(site, spec_profile_for(version)) {
        Err(e) => Err(e),
        Ok(seed) => Ok(hmac_sha256_tag(master_key, seed)),
    }
}

/// Counter sensitivity: under one master key, the keys of two sites of the
/// same name whose counters differ are the tags of two different seeds.
pub proof fn lemma_counter_sensitivity(
    master_key: Seq<u8>,
    a: SiteSpecView,
    b: SiteSpecView,
    version: AlgorithmVersion,
)
    requires
        a.name == b.name,
        a.counter != b.counter,
        spec_site_key(master_key, a, version) is Ok,
        spec_site_key(master_key, b, version) is Ok,
    ensures
        ({
            let profile = spec_profile_for(version);
            let seed_a = spec_site_seed(a, profile);
            let seed_b = spec_site_seed(b, profile);
            &&& seed_a != seed_b
            &&& spec_site_key(master_key, a, version) == Ok::<Seq<u8>, DeriveError>(
                hmac_sha256_tag(master_key, seed_a),
            )
            &&& spec_site_key(master_key, b, version) == Ok::<Seq<u8>, DeriveError>(
                hmac_sha256_tag(master_key, seed_b),
            )
        }),
{
    lemma_counter_changes_seed(a, b, spec_profile_for(version));
}

/// Derives the key of a site and wipes the master key.
///
/// The site key is the HMAC-SHA-256 tag, under the master key, of the site
/// seed that the profile of `version` prescribes. Whether the call gives a
/// key or refuses the site, the master key holds only zeros when it
/// returns.
pub fn site_key(master_key: &mut MasterKey, site: &SiteSpec, version: AlgorithmVersion) -> (key:
    Result<SiteKey, DeriveError>)
    ensures
        final(master_key)@ == zeroed(MASTER_KEY_LEN as nat),
        match key {
            Ok(k) => spec_site_key(old(master_key)@, site@, version) == Ok::<
                Seq<u8>,
                DeriveError,
            >(k@),
            Err(e) => spec_site_key(old(master_key)@, site@, version) == Err::<
                Seq<u8>,
                DeriveError,
            >(e),
        },
{
    let profile = profile_for(version);
    let key = match site_seed(site, &profile) {
        Ok(seed) => Ok(SiteKey { bytes: hmac_sha256(master_key.as_bytes(), seed.as_slice()) }),
        Err(e) => Err(e),
    };
    master_key.wipe();
    key
}

} // verus!
