//! The pipeline: from secret, identity and site to the credential.

use vstd::prelude::*;
use crate::error::DeriveError;
use crate::kdf::{
    MASTER_KEY_LEN,
    MasterKey,
    master_key,
    spec_master_key,
    spec_stretch,
    spec_takes_input,
};
use crate::profile::{AlgorithmVersion, profile_for, spec_profile_for};
use crate::alphabet::spec_is_digit_char;
use crate::render::{
    lemma_catalog_renderable,
    lemma_fixed_length,
    lemma_pin_is_digits,
    render,
    spec_render,
};
use crate::seed::{
    site_seed,
    spec_site_seed,
    spec_site_seed_checked,
    spec_user_salt,
    spec_user_salt_checked,
    user_salt,
};
use crate::site::{SiteSpec, SiteSpecView, SiteType};
use crate::site_key::{hmac_sha256_tag, site_key, spec_site_key};
use crate::template::{spec_fixed_len, spec_templates_for, templates_for};
use crate::wipe::{wipe, zeroed};

verus! {

/// The credential of a site under a master key, or the reason there is
/// none: the site key, rendered through the templates of the site's type.
pub open spec fn spec_password_for_site(
    master_key: Seq<u8>,
    site: SiteSpecView,
    version: AlgorithmVersion,
) -> Result<Seq<char>, DeriveError> {
    match spec_site_key(master_key, site, version) {
        Err(e) => Err(e),
        Ok(key) => if site.variant.spec_allows(site.template) {
            Ok(spec_render(key, spec_templates_for(site.template)))
        } else {
            Err(DeriveError::UndefinedTemplate)
        },
    }
}

/// The credential that `derive` returns, or the reason there is none.
///
/// The identity is checked first, then the site, then whether the variant
/// has templates of the type, then what the key-derivation function takes.
pub open spec fn spec_derive(
    secret: Seq<u8>,
    identity: Seq<char>,
    site: SiteSpecView,
    version: AlgorithmVersion,
) -> Result<Seq<char>, DeriveError> {
    let profile = spec_profile_for(version);
    match spec_user_salt_checked(identity, profile) {
        Err(e) => Err(e),
        Ok(salt) => match spec_site_seed_checked(site, profile) {
            Err(e) => Err(e),
            Ok(seed) => if !site.variant.spec_allows(site.template) {
                Err(DeriveError::UndefinedTemplate)
            } else if !spec_takes_input(profile.kdf, secret.len(), salt.len()) {
                Err(DeriveError::KdfInputTooLong)
            } else {
                Ok(
                    spec_render(
                        hmac_sha256_tag(spec_stretch(secret, salt, profile.kdf), seed),
                        spec_templates_for(site.template),
                    ),
                )
            },
        },
    }
}

/// Derives the credential of a site from a master key, and wipes the
/// master key.
///
/// The site key is cut from the master key and rendered through the
/// template it selects among those of the site's type. Whether the call
/// gives a credential or refuses the site, the master key holds only zeros
/// when it returns.
pub fn password_for_site(
    master_key: &mut MasterKey,
    site: &SiteSpec,
    version: AlgorithmVersion,
) -> (credential: Result<String, DeriveError>)
    ensures
        final(master_key)@ == zeroed(MASTER_KEY_LEN as nat),
        match credential {
            Ok(text) => spec_password_for_site(old(master_key)@, site@, version) == Ok::<
                Seq<char>,
                DeriveError,
            >(text@),
            Err(e) => spec_password_for_site(old(master_key)@, site@, version) == Err::<
                Seq<char>,
                DeriveError,
            >(e),
        },
{
    let mut key = match site_key(master_key, site, version) {
        Ok(key) => key,
        Err(e) => {
            return Err(e);
        },
    };
    if !site.variant.allows(site.template) {
        key.wipe();
        return Err(DeriveError::UndefinedTemplate);
    }
    let templates = templates_for(site.variant, site.template);
    proof {
        lemma_catalog_renderable(site.template, key@);
    }
    let text = render(&key, &templates);
    key.wipe();
    Ok(text)
}

/// Checks what `derive` checks before any key is derived.
fn validate(identity: &str, site: &SiteSpec, version: AlgorithmVersion) -> (outcome: Result<
    (),
    DeriveError,
>)
    ensures
        match outcome {
            Ok(_) => spec_user_salt_checked(identity@, spec_profile_for(version)) is Ok
                && spec_site_seed_checked(site@, spec_profile_for(version)) is Ok
                && site@.variant.spec_allows(site@.template),
            Err(e) => forall|secret: Seq<u8>| #[trigger]
                spec_derive(secret, identity@, site@, version) == Err::<Seq<char>, DeriveError>(e),
        },
{
    let profile = profile_for(version);
    match user_salt(identity, &profile) {
        Ok(_) => {},
        Err(e) => {
            return Err(e);
        },
    }
    match site_seed(site, &profile) {
        Ok(_) => {},
        Err(e) => {
            return Err(e);
        },
    }
    if !site.variant.allows(site.template) {
        return Err(DeriveError::UndefinedTemplate);
    }
    Ok(())
}

/// Derives the credential of `site` for the user `identity` from the
/// user's secret, under the algorithm `version`.
///
/// Nothing is derived unless every input is valid. Whatever the outcome,
/// the secret holds only zeros when the call returns; the master key is
/// wiped by the stage that reads it, and the site key once it is
/// rendered.
pub fn derive(
    secret: &mut Vec<u8>,
    identity: &str,
    site: &SiteSpec,
    version: AlgorithmVersion,
) -> (credential: Result<String, DeriveError>)
    ensures
        final(secret)@ == zeroed(old(secret)@.len()),
        match credential {
            Ok(text) => spec_derive(old(secret)@, identity@, site@, version) == Ok::<
                Seq<char>,
                DeriveError,
            >(text@),
            Err(e) => spec_derive(old(secret)@, identity@, site@, version) == Err::<
                Seq<char>,
                DeriveError,
            >(e),
        },
{
    match validate(identity, site, version) {
        Ok(_) => {},
        Err(e) => {
            wipe(secret);
            return Err(e);
        },
    }
    let mut key = match master_key(secret, identity, version) {
        Ok(key) => key,
        Err(e) => {
            return Err(e);
        },
    };
    password_for_site(&mut key, site, version)
}

/// A derived credential of any type but `Phrase` has the one length of
/// its type, whatever the secret, the identity, the site and the version.
pub proof fn lemma_derive_length(
    secret: Seq<u8>,
    identity: Seq<char>,
    site: SiteSpecView,
    version: AlgorithmVersion,
)
    requires
        spec_derive(secret, identity, site, version) is Ok,
        spec_fixed_len(site.template) is Some,
    ensures
        spec_derive(secret, identity, site, version)->Ok_0.len() == spec_fixed_len(
            site.template,
        )->0,
{
    let profile = spec_profile_for(version);
    let salt = spec_user_salt(identity, profile);
    let seed = spec_site_seed(site, profile);
    lemma_fixed_length(
        site.template,
        hmac_sha256_tag(spec_stretch(secret, salt, profile.kdf), seed),
    );
}

/// A derived PIN is four digits, whatever the secret, the identity, the
/// site and the version.
pub proof fn lemma_derive_pin(
    secret: Seq<u8>,
    identity: Seq<char>,
    site: SiteSpecView,
    version: AlgorithmVersion,
)
    requires
        spec_derive(secret, identity, site, version) is Ok,
        site.template == SiteType::Pin,
    ensures
        spec_derive(secret, identity, site, version)->Ok_0.len() == 4,
        forall|i: int|
            0 <= i < 4 ==> spec_is_digit_char(
                #[trigger] spec_derive(secret, identity, site, version)->Ok_0[i],
            ),
{
    let profile = spec_profile_for(version);
    let salt = spec_user_salt(identity, profile);
    let seed = spec_site_seed(site, profile);
    lemma_pin_is_digits(hmac_sha256_tag(spec_stretch(secret, salt, profile.kdf), seed));
}

/// `derive` is the composition of its stages: the master key, the
/// credential of the site under it.
pub proof fn lemma_derive_composes(
    secret: Seq<u8>,
    identity: Seq<char>,
    site: SiteSpecView,
    version: AlgorithmVersion,
)
    requires
        spec_user_salt_checked(identity, spec_profile_for(version)) is Ok,
        spec_site_seed_checked(site, spec_profile_for(version)) is Ok,
        site.variant.spec_allows(site.template),
    ensures
        spec_derive(secret, identity, site, version) == match spec_master_key(
            secret,
            identity,
            version,
        ) {
            Err(e) => Err(e),
            Ok(key) => spec_password_for_site(key, site, version),
        },
{
}

} // verus!
