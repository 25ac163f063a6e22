use mpw::site::{SiteType, SiteVariant};
use mpw::alphabet::CharClass;
use mpw::template::{template_codes, templates_for, Template, MAX_TEMPLATE_LEN};

const TYPES: [SiteType; 8] = [
    SiteType::Maximum,
    SiteType::Long,
    SiteType::Medium,
    SiteType::Basic,
    SiteType::Short,
    SiteType::Pin,
    SiteType::Name,
    SiteType::Phrase,
];

const CLASSES: [CharClass; 10] = [
    CharClass::UpperVowel,
    CharClass::UpperConsonant,
    CharClass::LowerVowel,
    CharClass::LowerConsonant,
    CharClass::UpperLetter,
    CharClass::Letter,
    CharClass::Digit,
    CharClass::Symbol,
    CharClass::Any,
    CharClass::Space,
];

#[test]
fn alphabets_are_the_fixed_tables() {
    assert_eq!(CharClass::UpperVowel.alphabet(), "AEIOU");
    assert_eq!(CharClass::UpperConsonant.alphabet(), "BCDFGHJKLMNPQRSTVWXYZ");
    assert_eq!(CharClass::LowerVowel.alphabet(), "aeiou");
    assert_eq!(CharClass::LowerConsonant.alphabet(), "bcdfghjklmnpqrstvwxyz");
    assert_eq!(CharClass::UpperLetter.alphabet(), "AEIOUBCDFGHJKLMNPQRSTVWXYZ");
    assert_eq!(
        CharClass::Letter.alphabet(),
        "AEIOUaeiouBCDFGHJKLMNPQRSTVWXYZbcdfghjklmnpqrstvwxyz"
    );
    assert_eq!(CharClass::Digit.alphabet(), "0123456789");
    assert_eq!(CharClass::Symbol.alphabet(), "@&%?,=[]_:-+*$#!'^~;()/.");
    assert_eq!(
        CharClass::Any.alphabet(),
        "AEIOUaeiouBCDFGHJKLMNPQRSTVWXYZbcdfghjklmnpqrstvwxyz0123456789!@#$%^&*()"
    );
    assert_eq!(CharClass::Space.alphabet(), " ");
}

#[test]
fn alphabets_have_their_stated_lengths() {
    let lengths = [5, 21, 5, 21, 26, 52, 10, 24, 72, 1];
    for (class, length) in CLASSES.iter().zip(lengths) {
        assert_eq!(class.alphabet().chars().count(), length);
    }
}

#[test]
fn no_alphabet_is_empty_or_repeats_a_character() {
    for class in CLASSES {
        let alphabet: Vec<char> = class.alphabet().chars().collect();
        assert!(!alphabet.is_empty());
        for (i, c) in alphabet.iter().enumerate() {
            assert!(!alphabet[..i].contains(c));
        }
    }
}

#[test]
fn codes_stand_for_their_classes() {
    let codes = ['V', 'C', 'v', 'c', 'A', 'a', 'n', 'o', 'x', ' '];
    for (code, class) in codes.iter().zip(CLASSES) {
        assert_eq!(CharClass::from_code(*code), Some(class));
    }
}

#[test]
fn other_characters_are_no_codes() {
    for code in ['X', 'N', 'O', 'b', '0', '-', '\n', '\u{e9}'] {
        assert_eq!(CharClass::from_code(code), None);
    }
}

#[test]
fn template_from_codes_reads_each_position() {
    let template = Template::from_codes("Cvcn").unwrap();
    assert_eq!(
        template.classes,
        vec![
            CharClass::UpperConsonant,
            CharClass::LowerVowel,
            CharClass::LowerConsonant,
            CharClass::Digit
        ]
    );
    assert_eq!(template.len(), 4);
}

#[test]
fn template_from_codes_refuses_a_character_that_is_no_code() {
    assert!(Template::from_codes("Cvcz").is_none());
    assert!(Template::from_codes("C-cn").is_none());
}

#[test]
fn template_from_codes_of_nothing_is_the_empty_template() {
    let template = Template::from_codes("").unwrap();
    assert!(template.classes.is_empty());
    assert_eq!(template.len(), 0);
}

#[test]
fn each_type_has_its_number_of_templates() {
    let counts = [2, 21, 2, 3, 1, 1, 1, 3];
    for (site_type, count) in TYPES.iter().zip(counts) {
        assert_eq!(templates_for(SiteVariant::Password, *site_type).len(), count);
        assert_eq!(template_codes(*site_type).len(), count);
    }
}

#[test]
fn templates_of_every_type_but_phrase_have_one_length() {
    let lengths = [20, 14, 8, 8, 4, 4, 9];
    for (site_type, length) in TYPES.iter().zip(lengths) {
        for template in templates_for(SiteVariant::Password, *site_type) {
            assert_eq!(template.len(), length);
        }
    }
}

#[test]
fn phrase_templates_are_20_18_and_20_long() {
    let lengths: Vec<usize> =
        templates_for(SiteVariant::Answer, SiteType::Phrase).iter().map(|t| t.len()).collect();
    assert_eq!(lengths, vec![20, 18, 20]);
}

#[test]
fn no_template_is_longer_than_the_stated_maximum() {
    assert_eq!(MAX_TEMPLATE_LEN, 20);
    for site_type in TYPES {
        for template in templates_for(SiteVariant::Password, site_type) {
            assert!(template.len() <= MAX_TEMPLATE_LEN);
            assert!(template.len() + 1 <= 32);
        }
    }
}

#[test]
fn templates_are_what_their_codes_spell() {
    for site_type in TYPES {
        let codes = template_codes(site_type);
        let templates = templates_for(SiteVariant::Password, site_type);
        assert_eq!(codes.len(), templates.len());
        for (code, template) in codes.iter().zip(templates.iter()) {
            assert_eq!(Template::from_codes(code).unwrap().classes, template.classes);
        }
    }
}

#[test]
fn long_templates_come_in_catalog_order() {
    let codes = template_codes(SiteType::Long);
    assert_eq!(codes[0], "CvcvnoCvcvCvcv");
    assert_eq!(codes[3], "CvccnoCvcvCvcv");
    assert_eq!(codes[20], "CvccCvcvCvccno");
}

#[test]
fn the_catalog_is_the_fixed_table() {
    assert_eq!(
        template_codes(SiteType::Maximum),
        vec!["anoxxxxxxxxxxxxxxxxx", "axxxxxxxxxxxxxxxxxno"]
    );
    assert_eq!(template_codes(SiteType::Medium), vec!["CvcnoCvc", "CvcCvcno"]);
    assert_eq!(template_codes(SiteType::Basic), vec!["aaanaaan", "aannaaan", "aaannaaa"]);
    assert_eq!(template_codes(SiteType::Short), vec!["Cvcn"]);
    assert_eq!(template_codes(SiteType::Pin), vec!["nnnn"]);
    assert_eq!(template_codes(SiteType::Name), vec!["cvccvcvcv"]);
    assert_eq!(
        template_codes(SiteType::Phrase),
        vec!["cvcc cvc cvccvcv cvc", "cvc cvccvcvcv cvcv", "cv cvccv cvc cvcvccv"]
    );
}

#[test]
fn a_login_has_the_templates_of_a_name() {
    let login = templates_for(SiteVariant::Login, SiteType::Name);
    assert_eq!(login.len(), 1);
    assert_eq!(login[0].classes, Template::from_codes("cvccvcvcv").unwrap().classes);
}

#[test]
fn the_pin_template_is_four_digits() {
    let pin = templates_for(SiteVariant::Password, SiteType::Pin);
    assert_eq!(pin[0].classes, vec![CharClass::Digit; 4]);
}

#[test]
fn only_a_password_allows_every_type() {
    for site_type in TYPES {
        assert!(SiteVariant::Password.allows(site_type));
        assert_eq!(SiteVariant::Login.allows(site_type), site_type == SiteType::Name);
        assert_eq!(SiteVariant::Answer.allows(site_type), site_type == SiteType::Phrase);
    }
}
