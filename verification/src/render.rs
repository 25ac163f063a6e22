//! The renderer: a site key picks a template, then a character for each of
//! its positions.

use vstd::prelude::*;
use vstd::string::*;
use crate::alphabet::{
    CharClass,
    lemma_alphabet_kind,
    lemma_alphabet_len,
    spec_is_digit_char,
    spec_is_letter,
};
use crate::site::SiteType;
use crate::site_key::{SITE_KEY_LEN, SiteKey};
use crate::template::{
    Template,
    lemma_catalog,
    spec_code_len,
    spec_fixed_len,
    spec_is_codes,
    spec_template_codes,
    spec_templates_for,
    spec_views,
};

verus! {

/// The template that a key selects: its first byte counts the templates
/// off, wrapping round.
pub open spec fn spec_select(key: Seq<u8>, templates: Seq<Seq<CharClass>>) -> Seq<CharClass> {
    templates[(key[0] as int) % (templates.len() as int)]
}

/// The character that a key byte picks from the alphabet of a class: the
/// byte counts the alphabet off, wrapping round.
pub open spec fn spec_pick(class: CharClass, byte: u8) -> char {
    class.spec_alphabet()[(byte as int) % (class.spec_alphabet().len() as int)]
}

/// A template rendered under a key: position `i` is picked by key byte
/// `i + 1`.
pub open spec fn spec_render_template(key: Seq<u8>, template: Seq<CharClass>) -> Seq<char> {
    Seq::new(template.len(), |i: int| spec_pick(template[i], key[i + 1]))
}

/// The text that a key renders from a list of templates.
pub open spec fn spec_render(key: Seq<u8>, templates: Seq<Seq<CharClass>>) -> Seq<char> {
    spec_render_template(key, spec_select(key, templates))
}

/// Renders a site key through the template it selects among `templates`.
///
/// There must be a template, and the selected one must leave the key a
/// byte for each of its positions after the first.
pub fn render(site_key: &SiteKey, templates: &Vec<Template>) -> (text: String)
    requires
        templates@.len() > 0,
        spec_select(site_key@, spec_views(templates@)).len() < SITE_KEY_LEN,
    ensures
        text@ == spec_render(site_key@, spec_views(templates@)),
        text@.len() == spec_select(site_key@, spec_views(templates@)).len(),
        forall|i: int|
            0 <= i < text@.len() ==> spec_select(site_key@, spec_views(templates@))[i]
                .spec_alphabet().contains(#[trigger] text@[i]),
{
    let key = site_key.as_bytes();
    let index: usize = (key[0] as usize) % templates.len();
    let template = &templates[index];
    assert(template@ == spec_select(site_key@, spec_views(templates@)));
    let mut text = String::new();
    let mut i: usize = 0;
    while i < template.len()
        invariant
            key@ == site_key@,
            key@.len() == SITE_KEY_LEN,
            template@.len() < SITE_KEY_LEN,
            i <= template@.len(),
            text@.len() == i,
            forall|k: int|
                0 <= k < i ==> #[trigger] text@[k] == spec_pick(template@[k], key@[k + 1]),
        decreases template@.len() - i,
    {
        let class = template.classes[i];
        let alphabet = class.alphabet();
        proof {
            lemma_alphabet_len(class);
        }
        let n: usize = alphabet.unicode_len();
        let j: usize = (key[i + 1] as usize) % n;
        let ghost before = text@;
        text.append(alphabet.substring_char(j, j + 1));
        assert(text@ =~= before.push(spec_pick(class, key@[i + 1])));
        i += 1;
    }
    assert(text@ =~= spec_render(site_key@, spec_views(templates@)));
    proof {
        assert forall|k: int| 0 <= k < text@.len() implies template@[k].spec_alphabet().contains(
            #[trigger] text@[k],
        ) by {
            lemma_pick_in_alphabet(template@[k], key@[k + 1]);
        }
    }
    text
}

/// The character picked for a class belongs to the alphabet of the class.
pub proof fn lemma_pick_in_alphabet(class: CharClass, byte: u8)
    ensures
        class.spec_alphabet().contains(spec_pick(class, byte)),
{
    lemma_alphabet_len(class);
    let n = class.spec_alphabet().len() as int;
    assert(0 <= (byte as int) % n < n);
}

/// A rendered text is as long as the template that the key selects.
pub proof fn lemma_render_length(key: Seq<u8>, templates: Seq<Seq<CharClass>>)
    ensures
        spec_render(key, templates).len() == spec_select(key, templates).len(),
{
}

/// Every character of a rendered text belongs to the alphabet of the class
/// at its position in the selected template.
pub proof fn lemma_render_in_alphabet(key: Seq<u8>, templates: Seq<Seq<CharClass>>, i: int)
    requires
        0 <= i < spec_select(key, templates).len(),
    ensures
        spec_select(key, templates)[i].spec_alphabet().contains(spec_render(key, templates)[i]),
{
    lemma_pick_in_alphabet(spec_select(key, templates)[i], key[i + 1]);
}

/// Every type has a template, and every template of the catalog leaves a
/// site key a byte for each position after the first: a key renders
/// through the templates of any type.
pub proof fn lemma_catalog_renderable(site_type: SiteType, key: Seq<u8>)
    ensures
        spec_templates_for(site_type).len() > 0,
        spec_select(key, spec_templates_for(site_type)).len() < SITE_KEY_LEN,
{
    lemma_catalog(site_type);
    let index = (key[0] as int) % (spec_templates_for(site_type).len() as int);
    assert(spec_is_codes(spec_template_codes(site_type)[index], spec_code_len(site_type, index)));
}

/// The length contract by type: a credential of any type but `Phrase` has
/// the one length of the type, whatever the key: 20 for `Maximum`, 14 for
/// `Long`, 8 for `Medium` and `Basic`, 4 for `Short` and `Pin`, 9 for
/// `Name`.
pub proof fn lemma_fixed_length(site_type: SiteType, key: Seq<u8>)
    requires
        spec_fixed_len(site_type) is Some,
    ensures
        spec_render(key, spec_templates_for(site_type)).len() == spec_fixed_len(site_type)->0,
{
    lemma_catalog(site_type);
    let index = (key[0] as int) % (spec_templates_for(site_type).len() as int);
    assert(spec_is_codes(spec_template_codes(site_type)[index], spec_code_len(site_type, index)));
}

/// A phrase is 18 or 20 characters long.
pub proof fn lemma_phrase_length(key: Seq<u8>)
    ensures
        spec_render(key, spec_templates_for(SiteType::Phrase)).len() == 18 || spec_render(
            key,
            spec_templates_for(SiteType::Phrase),
        ).len() == 20,
{
    lemma_catalog(SiteType::Phrase);
    let index = (key[0] as int) % (spec_templates_for(SiteType::Phrase).len() as int);
    assert(spec_is_codes(
        spec_template_codes(SiteType::Phrase)[index],
        spec_code_len(SiteType::Phrase, index),
    ));
}

/// A PIN is four digits, whatever the key.
pub proof fn lemma_pin_is_digits(key: Seq<u8>)
    ensures
        spec_render(key, spec_templates_for(SiteType::Pin)).len() == 4,
        forall|i: int|
            0 <= i < 4 ==> spec_is_digit_char(
                #[trigger] spec_render(key, spec_templates_for(SiteType::Pin))[i],
            ),
{
    reveal_strlit("nnnn");
    let template = spec_select(key, spec_templates_for(SiteType::Pin));
    assert(template.len() == 4);
    assert forall|i: int| 0 <= i < 4 implies spec_is_digit_char(
        #[trigger] spec_render(key, spec_templates_for(SiteType::Pin))[i],
    ) by {
        assert(template[i] == CharClass::Digit);
        lemma_alphabet_kind(CharClass::Digit);
        lemma_alphabet_len(CharClass::Digit);
        let n = CharClass::Digit.spec_alphabet().len() as int;
        assert(0 <= (key[i + 1] as int) % n < n);
    }
}

/// A short password is four characters, each a letter or a digit: no
/// symbol, whatever the key.
pub proof fn lemma_short_has_no_symbol(key: Seq<u8>)
    ensures
        spec_render(key, spec_templates_for(SiteType::Short)).len() == 4,
        forall|i: int|
            0 <= i < 4 ==> {
                let c = #[trigger] spec_render(key, spec_templates_for(SiteType::Short))[i];
                spec_is_letter(c) || spec_is_digit_char(c)
            },
{
    reveal_strlit("Cvcn");
    let template = spec_select(key, spec_templates_for(SiteType::Short));
    assert(template.len() == 4);
    assert forall|i: int| 0 <= i < 4 implies {
        let c = #[trigger] spec_render(key, spec_templates_for(SiteType::Short))[i];
        spec_is_letter(c) || spec_is_digit_char(c)
    } by {
        let class = template[i];
        assert(class == CharClass::Digit || class.spec_is_letters());
        lemma_alphabet_kind(class);
        lemma_alphabet_len(class);
        let n = class.spec_alphabet().len() as int;
        assert(0 <= (key[i + 1] as int) % n < n);
    }
}

} // verus!
