use mpw::arg_parse::{first_of, get_opts, MpwOptions, OptionsError, RawOptions};
use mpw::profile::AlgorithmVersion;
use mpw::site::{SiteType, SiteVariant};

fn text(value: &str) -> Option<String> {
    Some(value.to_string())
}

/// Site and user given, everything else left to the defaults.
fn bare() -> RawOptions {
    RawOptions {
        site: text("example.com"),
        user: text("alice"),
        user_env: None,
        variant: None,
        site_type: None,
        site_type_env: None,
        counter: None,
        counter_env: None,
        algo: None,
        algo_env: None,
        context: None,
        clip: false,
    }
}

fn resolved(raw: &RawOptions) -> MpwOptions {
    get_opts(raw).unwrap()
}

fn refused(raw: &RawOptions) -> OptionsError {
    match get_opts(raw) {
        Ok(_) => panic!("the options resolved"),
        Err(e) => e,
    }
}

#[test]
fn get_opts_fills_in_the_defaults() {
    let options = resolved(&bare());
    assert_eq!(options.site, "example.com");
    assert_eq!(options.user, "alice");
    assert_eq!(options.variant, SiteVariant::Password);
    assert_eq!(options.template, SiteType::Long);
    assert_eq!(options.counter, 1);
    assert_eq!(options.algo, AlgorithmVersion::V3);
    assert_eq!(options.context, "");
    assert!(!options.clip);
}

#[test]
fn get_opts_takes_what_the_command_line_gives() {
    let mut raw = bare();
    raw.variant = text("a");
    raw.site_type = text("phrase");
    raw.counter = text("7");
    raw.algo = text("next");
    raw.context = text("mother");
    raw.clip = true;
    let options = resolved(&raw);
    assert_eq!(options.variant, SiteVariant::Answer);
    assert_eq!(options.template, SiteType::Phrase);
    assert_eq!(options.counter, 7);
    assert_eq!(options.algo, AlgorithmVersion::Next);
    assert_eq!(options.context, "mother");
    assert!(options.clip);
}

#[test]
fn get_opts_falls_back_on_the_environment() {
    let mut raw = bare();
    raw.user = None;
    raw.user_env = text("bob");
    raw.site_type_env = text("pin");
    raw.counter_env = text("3");
    raw.algo_env = text("0");
    let options = resolved(&raw);
    assert_eq!(options.user, "bob");
    assert_eq!(options.template, SiteType::Pin);
    assert_eq!(options.counter, 3);
    assert_eq!(options.algo, AlgorithmVersion::V0);
}

#[test]
fn get_opts_puts_the_command_line_before_the_environment() {
    let mut raw = bare();
    raw.user_env = text("bob");
    raw.site_type = text("max");
    raw.site_type_env = text("pin");
    raw.counter = text("5");
    raw.counter_env = text("3");
    raw.algo = text("2");
    raw.algo_env = text("0");
    let options = resolved(&raw);
    assert_eq!(options.user, "alice");
    assert_eq!(options.template, SiteType::Maximum);
    assert_eq!(options.counter, 5);
    assert_eq!(options.algo, AlgorithmVersion::V2);
}

#[test]
fn get_opts_does_not_read_the_environment_once_the_command_line_is_wrong() {
    let mut raw = bare();
    raw.counter = text("five");
    raw.counter_env = text("3");
    assert_eq!(refused(&raw), OptionsError::InvalidCounter);
}

#[test]
fn get_opts_gives_a_login_the_type_name() {
    let mut raw = bare();
    raw.variant = text("login");
    let options = resolved(&raw);
    assert_eq!(options.variant, SiteVariant::Login);
    assert_eq!(options.template, SiteType::Name);
}

#[test]
fn get_opts_asks_for_a_missing_site() {
    let mut raw = bare();
    raw.site = None;
    assert_eq!(refused(&raw), OptionsError::MissingSite);
    raw.site = text("example.org");
    assert_eq!(resolved(&raw).site, "example.org");
}

#[test]
fn get_opts_asks_for_a_missing_user() {
    let mut raw = bare();
    raw.user = None;
    assert_eq!(refused(&raw), OptionsError::MissingUser);
    raw.user = text("carol");
    assert_eq!(resolved(&raw).user, "carol");
}

#[test]
fn get_opts_asks_for_the_site_before_the_user() {
    let mut raw = bare();
    raw.site = None;
    raw.user = None;
    assert_eq!(refused(&raw), OptionsError::MissingSite);
}

#[test]
fn get_opts_refuses_an_empty_site() {
    let mut raw = bare();
    raw.site = text("");
    assert_eq!(refused(&raw), OptionsError::EmptySite);
}

#[test]
fn get_opts_refuses_an_empty_user() {
    let mut raw = bare();
    raw.user = text("");
    assert_eq!(refused(&raw), OptionsError::EmptyUser);
    raw.user = None;
    raw.user_env = text("");
    assert_eq!(refused(&raw), OptionsError::EmptyUser);
}

#[test]
fn get_opts_refuses_an_unknown_variant() {
    let mut raw = bare();
    raw.variant = text("secret");
    assert_eq!(refused(&raw), OptionsError::UnknownVariant);
}

#[test]
fn get_opts_refuses_an_unknown_type() {
    let mut raw = bare();
    raw.site_type_env = text("huge");
    assert_eq!(refused(&raw), OptionsError::UnknownType);
}

#[test]
fn get_opts_refuses_an_answer_without_a_type() {
    let mut raw = bare();
    raw.variant = text("answer");
    assert_eq!(refused(&raw), OptionsError::MissingType);
}

#[test]
fn get_opts_refuses_a_type_that_the_variant_does_not_have() {
    let mut raw = bare();
    raw.variant = text("l");
    raw.site_type = text("long");
    assert_eq!(refused(&raw), OptionsError::UndefinedTemplate);
    raw.variant = text("a");
    raw.site_type = text("name");
    assert_eq!(refused(&raw), OptionsError::UndefinedTemplate);
    raw.variant = text("l");
    raw.site_type = None;
    raw.site_type_env = text("pin");
    assert_eq!(refused(&raw), OptionsError::UndefinedTemplate);
}

#[test]
fn get_opts_refuses_a_counter_that_is_no_number() {
    for counter in ["", "one", "-1", "1.5", "4294967296"] {
        let mut raw = bare();
        raw.counter = text(counter);
        assert_eq!(refused(&raw), OptionsError::InvalidCounter);
    }
}

#[test]
fn get_opts_takes_the_counter_zero_as_written() {
    for counter in ["0", "000", "+0"] {
        let mut raw = bare();
        raw.counter = text(counter);
        assert_eq!(resolved(&raw).counter, 0);
    }
    let mut raw = bare();
    raw.counter_env = text("0");
    assert_eq!(resolved(&raw).counter, 0);
}

#[test]
fn get_opts_takes_every_counter_of_32_bits() {
    for counter in [0u32, 1, 2, 9, 10, 255, 65_536, 2_147_483_647, 2_147_483_648, u32::MAX] {
        let mut raw = bare();
        raw.counter = text(&counter.to_string());
        assert_eq!(resolved(&raw).counter, counter);
    }
}

#[test]
fn the_counter_zero_is_refused_by_the_derivation() {
    let mut raw = bare();
    raw.counter = text("0");
    let options = resolved(&raw);
    let mut secret = b"secret".to_vec();
    let credential =
        mpw::pipeline::derive(&mut secret, &options.user, &options.site_spec(), options.algo);
    assert_eq!(credential, Err(mpw::error::DeriveError::ReservedCounter));
    assert_eq!(secret, vec![0u8; 6]);
}

#[test]
fn get_opts_takes_the_largest_counter() {
    let mut raw = bare();
    raw.counter = text("4294967295");
    assert_eq!(resolved(&raw).counter, u32::MAX);
}

#[test]
fn get_opts_refuses_an_unknown_algorithm() {
    let mut raw = bare();
    raw.algo_env = text("4");
    assert_eq!(refused(&raw), OptionsError::UnknownAlgorithm);
}

#[test]
fn get_opts_names_the_first_thing_that_is_wrong() {
    let mut raw = bare();
    raw.variant = text("?");
    raw.site_type = text("?");
    raw.counter = text("?");
    raw.algo = text("?");
    assert_eq!(refused(&raw), OptionsError::UnknownVariant);
    raw.variant = None;
    assert_eq!(refused(&raw), OptionsError::UnknownType);
    raw.site_type = None;
    assert_eq!(refused(&raw), OptionsError::InvalidCounter);
    raw.counter = None;
    assert_eq!(refused(&raw), OptionsError::UnknownAlgorithm);
    raw.algo = None;
    assert!(get_opts(&raw).is_ok());
}

#[test]
fn get_opts_keeps_a_context_for_every_variant() {
    let mut raw = bare();
    raw.context = text("mother");
    assert_eq!(resolved(&raw).context, "mother");
}

#[test]
fn first_of_prefers_the_command_line() {
    assert_eq!(first_of(&text("a"), &text("b")), Some("a"));
    assert_eq!(first_of(&text("a"), &None), Some("a"));
    assert_eq!(first_of(&None, &text("b")), Some("b"));
    assert_eq!(first_of(&None, &None), None);
    assert_eq!(first_of(&text(""), &text("b")), Some(""));
}

#[test]
fn site_spec_carries_the_options_over() {
    let mut raw = bare();
    raw.variant = text("a");
    raw.site_type = text("p");
    raw.counter = text("9");
    raw.context = text("mother");
    let site = resolved(&raw).site_spec();
    assert_eq!(site.name, "example.com");
    assert_eq!(site.counter, 9);
    assert_eq!(site.variant, SiteVariant::Answer);
    assert_eq!(site.template, SiteType::Phrase);
    assert_eq!(site.context, "mother");
}

#[test]
fn every_options_error_has_its_own_message() {
    let errors = [
        OptionsError::MissingSite,
        OptionsError::EmptySite,
        OptionsError::MissingUser,
        OptionsError::EmptyUser,
        OptionsError::UnknownVariant,
        OptionsError::UnknownType,
        OptionsError::MissingType,
        OptionsError::UndefinedTemplate,
        OptionsError::InvalidCounter,
        OptionsError::UnknownAlgorithm,
    ];
    for (i, a) in errors.iter().enumerate() {
        assert!(!a.message().is_empty());
        for b in errors.iter().skip(i + 1) {
            assert_ne!(a.message(), b.message());
        }
    }
    assert_eq!(OptionsError::MissingType.message(), "an answer needs a type");
}
