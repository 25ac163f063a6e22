//! The canonical byte strings that are hashed: the salt of a user and the
//! seed of a site. Each is the namespace followed by length-prefixed
//! fields; lengths count UTF-8 bytes, and every integer takes four bytes in
//! the byte order of the profile.

use vstd::prelude::*;
use vstd::utf8::*;
use vstd::string::*;
use crate::error::DeriveError;
use crate::profile::{AlgorithmProfile, ByteOrder, INT_WIDTH};
use crate::site::{SiteSpec, SiteSpecView, SiteVariant};
use crate::text::lemma_utf8_injective;

verus! {

/// The four bytes of `value`, most significant first.
pub open spec fn spec_be_bytes(value: u32) -> Seq<u8> {
    seq![
        (value / 0x100_0000) as u8,
        (value / 0x1_0000 % 0x100) as u8,
        (value / 0x100 % 0x100) as u8,
        (value % 0x100) as u8,
    ]
}

/// The four bytes of `value` in the given order.
pub open spec fn spec_encode_u32(value: u32, order: ByteOrder) -> Seq<u8> {
    match order {
        ByteOrder::BigEndian => spec_be_bytes(value),
        ByteOrder::LittleEndian => spec_be_bytes(value).reverse(),
    }
}

/// Whether a field's length fits the four bytes in front of it.
pub open spec fn fits_prefix(field: Seq<u8>) -> bool {
    field.len() <= u32::MAX
}

/// A field behind its own length.
pub open spec fn spec_length_prefixed(field: Seq<u8>, order: ByteOrder) -> Seq<u8>
    recommends
        fits_prefix(field),
{
    spec_encode_u32(field.len() as u32, order) + field
}

/// The salt of a user: namespace, then the identity behind its length.
pub open spec fn spec_user_salt(identity: Seq<char>, profile: AlgorithmProfile) -> Seq<u8> {
    encode_utf8(profile.namespace@) + spec_length_prefixed(
        encode_utf8(identity),
        profile.byte_order,
    )
}

/// What `user_salt` returns: the salt, or the reason there is none.
pub open spec fn spec_user_salt_checked(identity: Seq<char>, profile: AlgorithmProfile) -> Result<
    Seq<u8>,
    DeriveError,
> {
    if identity.len() == 0 {
        Err(DeriveError::EmptyIdentity)
    } else if !fits_prefix(encode_utf8(identity)) {
        Err(DeriveError::FieldTooLong)
    } else {
        Ok(spec_user_salt(identity, profile))
    }
}

/// Whether the context of `site` is part of its seed: only when there is
/// one, and the credential is an answer or the profile asks for it always.
pub open spec fn spec_includes_context(site: SiteSpecView, profile: AlgorithmProfile) -> bool {
    site.context.len() > 0 && (site.variant == SiteVariant::Answer
        || profile.context_in_every_variant)
}

/// The context field of a seed: empty where the context is left out.
pub open spec fn spec_context_field(site: SiteSpecView, profile: AlgorithmProfile) -> Seq<u8> {
    if spec_includes_context(site, profile) {
        spec_length_prefixed(encode_utf8(site.context), profile.byte_order)
    } else {
        Seq::<u8>::empty()
    }
}

/// The seed of a site: namespace, the site name behind its length, the
/// counter, and the context field.
pub open spec fn spec_site_seed(site: SiteSpecView, profile: AlgorithmProfile) -> Seq<u8> {
    encode_utf8(profile.namespace@) + spec_length_prefixed(
        encode_utf8(site.name),
        profile.byte_order,
    ) + spec_encode_u32(site.counter, profile.byte_order) + spec_context_field(site, profile)
}

/// What `site_seed` returns: the seed, or the reason there is none.
pub open spec fn spec_site_seed_checked(site: SiteSpecView, profile: AlgorithmProfile) -> Result<
    Seq<u8>,
    DeriveError,
> {
    if site.name.len() == 0 {
        Err(DeriveError::EmptySiteName)
    } else if site.counter == 0 {
        Err(DeriveError::ReservedCounter)
    } else if !fits_prefix(encode_utf8(site.name)) || (spec_includes_context(site, profile)
        && !fits_prefix(encode_utf8(site.context))) {
        Err(DeriveError::FieldTooLong)
    } else {
        Ok(spec_site_seed(site, profile))
    }
}

/// Appends the four bytes of `value` to `out`.
pub fn push_u32(out: &mut Vec<u8>, value: u32, order: ByteOrder)
    ensures
        final(out)@ == old(out)@ + spec_encode_u32(value, order),
{
    let b0: u8 = (value >> 24) as u8;
    let b1: u8 = ((value >> 16) & 0xff) as u8;
    let b2: u8 = ((value >> 8) & 0xff) as u8;
    let b3: u8 = (value & 0xff) as u8;
    assert(b0 == (value / 0x100_0000) as u8 && b1 == (value / 0x1_0000 % 0x100) as u8 && b2 == (
    value / 0x100 % 0x100) as u8 && b3 == (value % 0x100) as u8) by (bit_vector)
        requires
            b0 == (value >> 24) as u8,
            b1 == ((value >> 16) & 0xff) as u8,
            b2 == ((value >> 8) & 0xff) as u8,
            b3 == (value & 0xff) as u8,
    ;
    match order {
        ByteOrder::BigEndian => {
            out.push(b0);
            out.push(b1);
            out.push(b2);
            out.push(b3);
        },
        ByteOrder::LittleEndian => {
            out.push(b3);
            out.push(b2);
            out.push(b1);
            out.push(b0);
        },
    }
    assert(final(out)@ =~= old(out)@ + spec_encode_u32(value, order));
}

/// The four bytes of `value` in the given order.
pub fn encode_u32(value: u32, order: ByteOrder) -> (bytes: Vec<u8>)
    ensures
        bytes@ == spec_encode_u32(value, order),
{
    let mut bytes: Vec<u8> = Vec::new();
    push_u32(&mut bytes, value, order);
    assert(bytes@ =~= spec_encode_u32(value, order));
    bytes
}

/// Appends `field` behind its length. The caller has checked the length.
fn push_field(out: &mut Vec<u8>, field: &[u8], order: ByteOrder)
    requires
        fits_prefix(field@),
    ensures
        final(out)@ == old(out)@ + spec_length_prefixed(field@, order),
{
    push_u32(out, field.len() as u32, order);
    out.extend_from_slice(field);
    assert(final(out)@ =~= old(out)@ + spec_length_prefixed(field@, order));
}

/// Builds the salt under which the master key of `identity` is derived.
///
/// An empty identity is refused, and so is one whose UTF-8 encoding is
/// longer than a four-byte length can say.
pub fn user_salt(identity: &str, profile: &AlgorithmProfile) -> (salt: Result<
    Vec<u8>,
    DeriveError,
>)
    ensures
        match salt {
            Ok(bytes) => spec_user_salt_checked(identity@, *profile) == Ok::<
                Seq<u8>,
                DeriveError,
            >(bytes@),
            Err(e) => spec_user_salt_checked(identity@, *profile) == Err::<Seq<u8>, DeriveError>(e),
        },
{
    let id_bytes = identity.as_bytes();
    if id_bytes.len() == 0 {
        proof {
            lemma_empty_iff_no_bytes(identity@);
        }
        return Err(DeriveError::EmptyIdentity);
    }
    proof {
        lemma_empty_iff_no_bytes(identity@);
    }
    if id_bytes.len() > 0xffff_ffff {
        return Err(DeriveError::FieldTooLong);
    }
    let mut salt: Vec<u8> = Vec::new();
    salt.extend_from_slice(profile.namespace.as_bytes());
    push_field(&mut salt, id_bytes, profile.byte_order);
    assert(salt@ =~= spec_user_salt(identity@, *profile));
    Ok(salt)
}

/// Builds the seed from which the key of `site` is cut.
///
/// An empty site name and the counter 0 are refused, and so is a name or
/// an included context whose UTF-8 encoding is longer than a four-byte
/// length can say.
pub fn site_seed(site: &SiteSpec, profile: &AlgorithmProfile) -> (seed: Result<
    Vec<u8>,
    DeriveError,
>)
    ensures
        match seed {
            Ok(bytes) => spec_site_seed_checked(site@, *profile) == Ok::<Seq<u8>, DeriveError>(
                bytes@,
            ),
            Err(e) => spec_site_seed_checked(site@, *profile) == Err::<Seq<u8>, DeriveError>(e),
        },
{
    let name_bytes = site.name.as_str().as_bytes();
    let context_bytes = site.context.as_str().as_bytes();
    proof {
        lemma_empty_iff_no_bytes(site.name@);
        lemma_empty_iff_no_bytes(site.context@);
    }
    if name_bytes.len() == 0 {
        return Err(DeriveError::EmptySiteName);
    }
    if site.counter == 0 {
        return Err(DeriveError::ReservedCounter);
    }
    let is_answer = match site.variant {
        SiteVariant::Answer => true,
        _ => false,
    };
    let with_context = context_bytes.len() > 0 && (is_answer || profile.context_in_every_variant);
    if name_bytes.len() > 0xffff_ffff || (with_context && context_bytes.len() > 0xffff_ffff) {
        return Err(DeriveError::FieldTooLong);
    }
    let mut seed: Vec<u8> = Vec::new();
    seed.extend_from_slice(profile.namespace.as_bytes());
    push_field(&mut seed, name_bytes, profile.byte_order);
    push_u32(&mut seed, site.counter, profile.byte_order);
    if with_context {
        push_field(&mut seed, context_bytes, profile.byte_order);
    }
    assert(seed@ =~= spec_site_seed(site@, *profile));
    Ok(seed)
}

/// The four bytes say which number they encode: two numbers with the same
/// bytes in the same order are the same number.
pub proof fn lemma_encode_u32_injective(a: u32, b: u32, order: ByteOrder)
    requires
        spec_encode_u32(a, order) == spec_encode_u32(b, order),
    ensures
        a == b,
{
    let x = spec_be_bytes(a);
    let y = spec_be_bytes(b);
    match order {
        ByteOrder::BigEndian => {},
        ByteOrder::LittleEndian => {
            assert(x.reverse()[0] == y.reverse()[0]);
            assert(x.reverse()[1] == y.reverse()[1]);
            assert(x.reverse()[2] == y.reverse()[2]);
            assert(x.reverse()[3] == y.reverse()[3]);
        },
    }
    assert(x[0] == y[0] && x[1] == y[1] && x[2] == y[2] && x[3] == y[3]);
}

/// Counter sensitivity: two sites of the same name whose counters differ
/// have different seeds, so the keyed hash is never asked the same
/// question for both.
pub proof fn lemma_counter_changes_seed(
    a: SiteSpecView,
    b: SiteSpecView,
    profile: AlgorithmProfile,
)
    requires
        a.name == b.name,
        a.counter != b.counter,
    ensures
        spec_site_seed(a, profile) != spec_site_seed(b, profile),
{
    let head = encode_utf8(profile.namespace@) + spec_length_prefixed(
        encode_utf8(a.name),
        profile.byte_order,
    );
    let at = head.len() as int;
    let seed_a = spec_site_seed(a, profile);
    let seed_b = spec_site_seed(b, profile);
    assert(seed_a.subrange(at, at + 4) =~= spec_encode_u32(a.counter, profile.byte_order));
    assert(seed_b.subrange(at, at + 4) =~= spec_encode_u32(b.counter, profile.byte_order));
    if seed_a == seed_b {
        lemma_encode_u32_injective(a.counter, b.counter, profile.byte_order);
    }
}

/// Two concatenations that are equal, and whose first parts are equally
/// long, are equal part by part.
pub proof fn lemma_concat_parts(a: Seq<u8>, x: Seq<u8>, b: Seq<u8>, y: Seq<u8>)
    requires
        a + x == b + y,
        a.len() == b.len(),
    ensures
        a == b,
        x == y,
{
    let n = a.len() as int;
    assert(a =~= (a + x).subrange(0, n));
    assert(b =~= (b + y).subrange(0, n));
    assert(x =~= (a + x).skip(n));
    assert(y =~= (b + y).skip(n));
}

/// A context field says whether there is a context, and which.
proof fn lemma_context_field_is_canonical(
    a: SiteSpecView,
    b: SiteSpecView,
    profile: AlgorithmProfile,
)
    requires
        spec_includes_context(a, profile) ==> fits_prefix(encode_utf8(a.context)),
        spec_includes_context(b, profile) ==> fits_prefix(encode_utf8(b.context)),
        spec_context_field(a, profile) == spec_context_field(b, profile),
    ensures
        spec_includes_context(a, profile) == spec_includes_context(b, profile),
        spec_includes_context(a, profile) ==> a.context == b.context,
{
    let order = profile.byte_order;
    let text_a = encode_utf8(a.context);
    let text_b = encode_utf8(b.context);
    if spec_includes_context(a, profile) && spec_includes_context(b, profile) {
        lemma_concat_parts(
            spec_encode_u32(text_a.len() as u32, order),
            text_a,
            spec_encode_u32(text_b.len() as u32, order),
            text_b,
        );
        lemma_utf8_injective(a.context, b.context);
    } else if spec_includes_context(a, profile) {
        assert(spec_context_field(a, profile).len() >= 4);
        assert(spec_context_field(b, profile).len() == 0);
    } else if spec_includes_context(b, profile) {
        assert(spec_context_field(b, profile).len() >= 4);
        assert(spec_context_field(a, profile).len() == 0);
    }
}

/// The layout of a seed is unambiguous: two byte strings made of the same
/// namespace, a length of four bytes that decides how long the name is, a
/// name, a counter of four bytes and a context field are equal only if
/// they are equal part by part.
proof fn lemma_layout_is_canonical(
    namespace: Seq<u8>,
    len_a: Seq<u8>,
    name_a: Seq<u8>,
    counter_a: Seq<u8>,
    field_a: Seq<u8>,
    len_b: Seq<u8>,
    name_b: Seq<u8>,
    counter_b: Seq<u8>,
    field_b: Seq<u8>,
)
    requires
        len_a.len() == 4,
        len_b.len() == 4,
        counter_a.len() == 4,
        counter_b.len() == 4,
        len_a == len_b ==> name_a.len() == name_b.len(),
        namespace + (len_a + (name_a + (counter_a + field_a))) == namespace + (len_b + (name_b + (
        counter_b + field_b))),
    ensures
        name_a == name_b,
        counter_a == counter_b,
        field_a == field_b,
{
    lemma_concat_parts(
        namespace,
        len_a + (name_a + (counter_a + field_a)),
        namespace,
        len_b + (name_b + (counter_b + field_b)),
    );
    lemma_concat_parts(
        len_a,
        name_a + (counter_a + field_a),
        len_b,
        name_b + (counter_b + field_b),
    );
    lemma_concat_parts(name_a, counter_a + field_a, name_b, counter_b + field_b);
    lemma_concat_parts(counter_a, field_a, counter_b, field_b);
}

/// A seed, read from the left: namespace, length of the name, name,
/// counter, context field.
proof fn lemma_seed_layout(site: SiteSpecView, profile: AlgorithmProfile)
    ensures
        spec_site_seed(site, profile) == encode_utf8(profile.namespace@) + (spec_encode_u32(
            encode_utf8(site.name).len() as u32,
            profile.byte_order,
        ) + (encode_utf8(site.name) + (spec_encode_u32(site.counter, profile.byte_order)
            + spec_context_field(site, profile)))),
{
    let order = profile.byte_order;
    let namespace = encode_utf8(profile.namespace@);
    let name = encode_utf8(site.name);
    let len = spec_encode_u32(name.len() as u32, order);
    let counter = spec_encode_u32(site.counter, order);
    let field = spec_context_field(site, profile);
    assert(((namespace + (len + name)) + counter) + field =~= namespace + (len + (name + (counter
        + field))));
}

/// An integer takes `INT_WIDTH` bytes in either order.
pub proof fn lemma_encode_u32_len(value: u32, order: ByteOrder)
    ensures
        spec_encode_u32(value, order).len() == INT_WIDTH,
{
}

/// The seed is canonical: under one profile, two sites whose fields fit
/// their length fields have the same seed only if they have the same
/// name and the same counter, and either both leave the context out or
/// both include the same context.
pub proof fn lemma_seed_is_canonical(a: SiteSpecView, b: SiteSpecView, profile: AlgorithmProfile)
    requires
        fits_prefix(encode_utf8(a.name)),
        fits_prefix(encode_utf8(b.name)),
        spec_includes_context(a, profile) ==> fits_prefix(encode_utf8(a.context)),
        spec_includes_context(b, profile) ==> fits_prefix(encode_utf8(b.context)),
        spec_site_seed(a, profile) == spec_site_seed(b, profile),
    ensures
        a.name == b.name,
        a.counter == b.counter,
        spec_includes_context(a, profile) == spec_includes_context(b, profile),
        spec_includes_context(a, profile) ==> a.context == b.context,
{
    let order = profile.byte_order;
    let name_a = encode_utf8(a.name);
    let name_b = encode_utf8(b.name);
    let len_a = spec_encode_u32(name_a.len() as u32, order);
    let len_b = spec_encode_u32(name_b.len() as u32, order);
    let counter_a = spec_encode_u32(a.counter, order);
    let counter_b = spec_encode_u32(b.counter, order);
    lemma_seed_layout(a, profile);
    lemma_seed_layout(b, profile);
    lemma_encode_u32_len(name_a.len() as u32, order);
    lemma_encode_u32_len(name_b.len() as u32, order);
    lemma_encode_u32_len(a.counter, order);
    lemma_encode_u32_len(b.counter, order);
    if len_a == len_b {
        lemma_encode_u32_injective(name_a.len() as u32, name_b.len() as u32, order);
    }
    lemma_layout_is_canonical(
        encode_utf8(profile.namespace@),
        len_a,
        name_a,
        counter_a,
        spec_context_field(a, profile),
        len_b,
        name_b,
        counter_b,
        spec_context_field(b, profile),
    );
    lemma_utf8_injective(a.name, b.name);
    lemma_encode_u32_injective(a.counter, b.counter, order);
    lemma_context_field_is_canonical(a, b, profile);
}

/// Identity sensitivity: two different identities have different salts
/// under any profile, so their master keys are derived from different
/// input.
pub proof fn lemma_identity_changes_salt(a: Seq<char>, b: Seq<char>, profile: AlgorithmProfile)
    requires
        a != b,
    ensures
        spec_user_salt(a, profile) != spec_user_salt(b, profile),
{
    let at = encode_utf8(profile.namespace@).len() + 4;
    let salt_a = spec_user_salt(a, profile);
    let salt_b = spec_user_salt(b, profile);
    assert(salt_a.skip(at as int) =~= encode_utf8(a));
    assert(salt_b.skip(at as int) =~= encode_utf8(b));
    if salt_a == salt_b {
        lemma_utf8_injective(a, b);
    }
}

/// A user salt holds the namespace, the length of the identity and the
/// identity.
pub proof fn lemma_user_salt_len(identity: Seq<char>, profile: AlgorithmProfile)
    ensures
        spec_user_salt(identity, profile).len() == encode_utf8(profile.namespace@).len()
            + INT_WIDTH + encode_utf8(identity).len(),
{
}

/// A text is empty exactly when its encoding is.
pub proof fn lemma_empty_iff_no_bytes(text: Seq<char>)
    ensures
        text.len() == 0 <==> encode_utf8(text).len() == 0,
{
    if text.len() > 0 {
        assert(encode_scalar(text[0] as u32).len() > 0);
    }
}

} // verus!
