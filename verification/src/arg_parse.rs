//! Resolving the options of a run: what the command line gave, what the
//! environment gave, and the defaults.

use vstd::prelude::*;
use vstd::string::*;
use vstd::utf8::*;
use crate::counter::{parse_counter, spec_parse_counter};
use crate::profile::AlgorithmVersion;
use crate::site::{SiteSpec, SiteSpecView, SiteType, SiteVariant};

verus! {

/// The options as they were given: each is the text from the command line
/// or from the environment, or absent. Nothing has been checked yet.
#[derive(Debug)]
pub struct RawOptions {
    /// The positional site name, or the answer to the prompt for it.
    pub site: Option<String>,
    /// `--user`, or the answer to the prompt for it.
    pub user: Option<String>,
    /// `MP_FULLNAME`.
    pub user_env: Option<String>,
    /// `--variant`.
    pub variant: Option<String>,
    /// `--type`.
    pub site_type: Option<String>,
    /// `MP_SITETYPE`.
    pub site_type_env: Option<String>,
    /// `--counter`.
    pub counter: Option<String>,
    /// `MP_SITECOUNTER`.
    pub counter_env: Option<String>,
    /// `--algo`.
    pub algo: Option<String>,
    /// `MP_ALGORITHM`.
    pub algo_env: Option<String>,
    /// `--context`.
    pub context: Option<String>,
    /// `--clip`.
    pub clip: bool,
}

/// The options of a run, resolved and checked.
#[derive(Debug)]
pub struct MpwOptions {
    pub site: String,
    pub user: String,
    pub variant: SiteVariant,
    pub template: SiteType,
    pub counter: u32,
    pub algo: AlgorithmVersion,
    pub context: String,
    pub clip: bool,
}

/// Why the options do not resolve.
#[derive(Clone, Copy, PartialEq, Eq, Structural, Debug)]
pub enum OptionsError {
    /// No site name was given: ask for one.
    MissingSite,
    /// The site name is empty.
    EmptySite,
    /// No user name was given, nor found in the environment: ask for one.
    MissingUser,
    /// The user name is empty.
    EmptyUser,
    /// The variant is none of the known tokens.
    UnknownVariant,
    /// The type is none of the known tokens.
    UnknownType,
    /// An answer was asked for without a type.
    MissingType,
    /// The variant has no templates of the type.
    UndefinedTemplate,
    /// The counter is not a number of 32 bits.
    InvalidCounter,
    /// The algorithm is none of the known tokens.
    UnknownAlgorithm,
}

/// `RawOptions` as the contracts see it.
pub struct RawOptionsView {
    pub site: Option<Seq<char>>,
    pub user: Option<Seq<char>>,
    pub user_env: Option<Seq<char>>,
    pub variant: Option<Seq<char>>,
    pub site_type: Option<Seq<char>>,
    pub site_type_env: Option<Seq<char>>,
    pub counter: Option<Seq<char>>,
    pub counter_env: Option<Seq<char>>,
    pub algo: Option<Seq<char>>,
    pub algo_env: Option<Seq<char>>,
    pub context: Option<Seq<char>>,
    pub clip: bool,
}

/// `MpwOptions` as the contracts see it.
pub struct MpwOptionsView {
    pub site: Seq<char>,
    pub user: Seq<char>,
    pub variant: SiteVariant,
    pub template: SiteType,
    pub counter: u32,
    pub algo: AlgorithmVersion,
    pub context: Seq<char>,
    pub clip: bool,
}

/// The text of an option, if it is there.
pub open spec fn spec_text(option: Option<String>) -> Option<Seq<char>> {
    match option {
        Some(text) => Some(text@),
        None => None,
    }
}

impl View for RawOptions {
    type V = RawOptionsView;

    open spec fn view(&self) -> RawOptionsView {
        RawOptionsView {
            site: spec_text(self.site),
            user: spec_text(self.user),
            user_env: spec_text(self.user_env),
            variant: spec_text(self.variant),
            site_type: spec_text(self.site_type),
            site_type_env: spec_text(self.site_type_env),
            counter: spec_text(self.counter),
            counter_env: spec_text(self.counter_env),
            algo: spec_text(self.algo),
            algo_env: spec_text(self.algo_env),
            context: spec_text(self.context),
            clip: self.clip,
        }
    }
}

impl View for MpwOptions {
    type V = MpwOptionsView;

    open spec fn view(&self) -> MpwOptionsView {
        MpwOptionsView {
            site: self.site@,
            user: self.user@,
            variant: self.variant,
            template: self.template,
            counter: self.counter,
            algo: self.algo,
            context: self.context@,
            clip: self.clip,
        }
    }
}

/// The command line goes before the environment.
pub open spec fn spec_first_of(given: Option<Seq<char>>, env: Option<Seq<char>>) -> Option<
    Seq<char>,
> {
    if given is Some {
        given
    } else {
        env
    }
}

/// The site name: it must be given and not be empty.
pub open spec fn spec_site(raw: RawOptionsView) -> Result<Seq<char>, OptionsError> {
    match raw.site {
        None => Err(OptionsError::MissingSite),
        Some(site) => if site.len() == 0 {
            Err(OptionsError::EmptySite)
        } else {
            Ok(site)
        },
    }
}

/// The user name: from the command line or else the environment; it must
/// be given and not be empty.
pub open spec fn spec_user(raw: RawOptionsView) -> Result<Seq<char>, OptionsError> {
    match spec_first_of(raw.user, raw.user_env) {
        None => Err(OptionsError::MissingUser),
        Some(user) => if user.len() == 0 {
            Err(OptionsError::EmptyUser)
        } else {
            Ok(user)
        },
    }
}

/// The variant: `Password` unless a token says otherwise.
pub open spec fn spec_variant(raw: RawOptionsView) -> Result<SiteVariant, OptionsError> {
    match raw.variant {
        None => Ok(SiteVariant::Password),
        Some(token) => match SiteVariant::spec_from(token) {
            Some(variant) => Ok(variant),
            None => Err(OptionsError::UnknownVariant),
        },
    }
}

/// The type: the token from the command line or else the environment, or
/// else the default of the variant; the variant must have templates of it.
pub open spec fn spec_site_type(raw: RawOptionsView, variant: SiteVariant) -> Result<
    SiteType,
    OptionsError,
> {
    let asked = match spec_first_of(raw.site_type, raw.site_type_env) {
        Some(token) => match SiteType::spec_from(token) {
            Some(site_type) => Ok(site_type),
            None => Err(OptionsError::UnknownType),
        },
        None => match variant.spec_default_type() {
            Some(site_type) => Ok(site_type),
            None => Err(OptionsError::MissingType),
        },
    };
    match asked {
        Err(e) => Err(e),
        Ok(site_type) => if variant.spec_allows(site_type) {
            Ok(site_type)
        } else {
            Err(OptionsError::UndefinedTemplate)
        },
    }
}

/// The counter: the number from the command line or else the environment,
/// or else 1. Every number of 32 bits is taken as it is written, 0
/// included: which counters a seed takes is for the seed to say.
pub open spec fn spec_counter(raw: RawOptionsView) -> Result<u32, OptionsError> {
    match spec_first_of(raw.counter, raw.counter_env) {
        None => Ok(1u32),
        Some(text) => match spec_parse_counter(encode_utf8(text)) {
            None => Err(OptionsError::InvalidCounter),
            Some(counter) => Ok(counter),
        },
    }
}

/// The algorithm: the token from the command line or else the
/// environment, or else version 3.
pub open spec fn spec_algo(raw: RawOptionsView) -> Result<AlgorithmVersion, OptionsError> {
    match spec_first_of(raw.algo, raw.algo_env) {
        None => Ok(AlgorithmVersion::V3),
        Some(token) => match AlgorithmVersion::spec_from(token) {
            Some(version) => Ok(version),
            None => Err(OptionsError::UnknownAlgorithm),
        },
    }
}

/// The context: empty unless given.
pub open spec fn spec_context(raw: RawOptionsView) -> Seq<char> {
    match raw.context {
        Some(context) => context,
        None => Seq::<char>::empty(),
    }
}

/// The resolved options, or the first thing that is wrong, going through
/// site, user, variant, type, counter and algorithm in this order.
pub open spec fn spec_get_opts(raw: RawOptionsView) -> Result<MpwOptionsView, OptionsError> {
    match spec_site(raw) {
        Err(e) => Err(e),
        Ok(site) => match spec_user(raw) {
            Err(e) => Err(e),
            Ok(user) => match spec_variant(raw) {
                Err(e) => Err(e),
                Ok(variant) => match spec_site_type(raw, variant) {
                    Err(e) => Err(e),
                    Ok(template) => match spec_counter(raw) {
                        Err(e) => Err(e),
                        Ok(counter) => match spec_algo(raw) {
                            Err(e) => Err(e),
                            Ok(algo) => Ok(
                                MpwOptionsView {
                                    site,
                                    user,
                                    variant,
                                    template,
                                    counter,
                                    algo,
                                    context: spec_context(raw),
                                    clip: raw.clip,
                                },
                            ),
                        },
                    },
                },
            },
        },
    }
}

/// The text of a borrowed option, if it is there.
pub open spec fn spec_text_ref(option: Option<&str>) -> Option<Seq<char>> {
    match option {
        Some(text) => Some(text@),
        None => None,
    }
}

/// The option from the command line, or else the one from the environment.
pub fn first_of<'a>(given: &'a Option<String>, env: &'a Option<String>) -> (first: Option<&'a str>)
    ensures
        spec_text_ref(first) == spec_first_of(spec_text(*given), spec_text(*env)),
{
    match given {
        Some(text) => Some(text.as_str()),
        None => match env {
            Some(text) => Some(text.as_str()),
            None => None,
        },
    }
}

fn resolve_site(raw: &RawOptions) -> (site: Result<String, OptionsError>)
    ensures
        match site {
            Ok(s) => spec_site(raw@) == Ok::<Seq<char>, OptionsError>(s@),
            Err(e) => spec_site(raw@) == Err::<Seq<char>, OptionsError>(e),
        },
{
    match &raw.site {
        None => Err(OptionsError::MissingSite),
        Some(site) => if site.as_str().is_empty() {
            Err(OptionsError::EmptySite)
        } else {
            Ok(site.clone())
        },
    }
}

fn resolve_user(raw: &RawOptions) -> (user: Result<String, OptionsError>)
    ensures
        match user {
            Ok(u) => spec_user(raw@) == Ok::<Seq<char>, OptionsError>(u@),
            Err(e) => spec_user(raw@) == Err::<Seq<char>, OptionsError>(e),
        },
{
    match first_of(&raw.user, &raw.user_env) {
        None => Err(OptionsError::MissingUser),
        Some(user) => if user.is_empty() {
            Err(OptionsError::EmptyUser)
        } else {
            Ok(String::from_str(user))
        },
    }
}

fn resolve_variant(raw: &RawOptions) -> (variant: Result<SiteVariant, OptionsError>)
    ensures
        variant == spec_variant(raw@),
{
    match &raw.variant {
        None => Ok(SiteVariant::Password),
        Some(token) => match SiteVariant::from(token.as_str()) {
            Some(variant) => Ok(variant),
            None => Err(OptionsError::UnknownVariant),
        },
    }
}

fn resolve_site_type(raw: &RawOptions, variant: SiteVariant) -> (site_type: Result<
    SiteType,
    OptionsError,
>)
    ensures
        site_type == spec_site_type(raw@, variant),
{
    let asked = match first_of(&raw.site_type, &raw.site_type_env) {
        Some(token) => match SiteType::from(token) {
            Some(site_type) => site_type,
            None => {
                return Err(OptionsError::UnknownType);
            },
        },
        None => match variant.default_type() {
            Some(site_type) => site_type,
            None => {
                return Err(OptionsError::MissingType);
            },
        },
    };
    if variant.allows(asked) {
        Ok(asked)
    } else {
        Err(OptionsError::UndefinedTemplate)
    }
}

fn resolve_counter(raw: &RawOptions) -> (counter: Result<u32, OptionsError>)
    ensures
        counter == spec_counter(raw@),
{
    match first_of(&raw.counter, &raw.counter_env) {
        None => Ok(1),
        Some(text) => match parse_counter(text) {
            None => Err(OptionsError::InvalidCounter),
            Some(counter) => Ok(counter),
        },
    }
}

fn resolve_algo(raw: &RawOptions) -> (algo: Result<AlgorithmVersion, OptionsError>)
    ensures
        algo == spec_algo(raw@),
{
    match first_of(&raw.algo, &raw.algo_env) {
        None => Ok(AlgorithmVersion::V3),
        Some(token) => match AlgorithmVersion::from(token) {
            Some(version) => Ok(version),
            None => Err(OptionsError::UnknownAlgorithm),
        },
    }
}

/// Resolves the options of a run from what was given.
///
/// Each option is taken from the command line, or else from the
/// environment where it has a variable there, or else from its default:
/// `password` for the variant, `long` for the type of a password and
/// `name` for that of a login, 1 for the counter, 3 for the algorithm, and
/// no context. The site and the user have no default: where one is
/// missing the call says so, for the caller to ask and call again.
pub fn get_opts(raw: &RawOptions) -> (options: Result<MpwOptions, OptionsError>)
    ensures
        match options {
            Ok(o) => spec_get_opts(raw@) == Ok::<MpwOptionsView, OptionsError>(o@),
            Err(e) => spec_get_opts(raw@) == Err::<MpwOptionsView, OptionsError>(e),
        },
{
    let site = match resolve_site(raw) {
        Ok(site) => site,
        Err(e) => {
            return Err(e);
        },
    };
    let user = match resolve_user(raw) {
        Ok(user) => user,
        Err(e) => {
            return Err(e);
        },
    };
    let variant = match resolve_variant(raw) {
        Ok(variant) => variant,
        Err(e) => {
            return Err(e);
        },
    };
    let template = match resolve_site_type(raw, variant) {
        Ok(template) => template,
        Err(e) => {
            return Err(e);
        },
    };
    let counter: u32 = match resolve_counter(raw) {
        Ok(counter) => counter,
        Err(e) => {
            return Err(e);
        },
    };
    let algo = match resolve_algo(raw) {
        Ok(algo) => algo,
        Err(e) => {
            return Err(e);
        },
    };
    let context = match &raw.context {
        Some(context) => context.clone(),
        None => String::new(),
    };
    Ok(MpwOptions { site, user, variant, template, counter, algo, context, clip: raw.clip })
}

impl MpwOptions {
    /// The site that the options describe.
    pub fn site_spec(&self) -> (site: SiteSpec)
        ensures
            site@ == (SiteSpecView {
                name: self@.site,
                counter: self@.counter,
                variant: self@.variant,
                template: self@.template,
                context: self@.context,
            }),
    {
        SiteSpec {
            name: self.site.clone(),
            counter: self.counter,
            variant: self.variant,
            template: self.template,
            context: self.context.clone(),
        }
    }
}

impl OptionsError {
    /// A sentence for the user that names the option at fault.
    pub fn message(&self) -> (text: &'static str)
        ensures
            text@ == self.spec_message(),
    {
        match self {
            OptionsError::MissingSite => "no site name was given",
            OptionsError::EmptySite => "the site name is empty",
            OptionsError::MissingUser => "no user name was given",
            OptionsError::EmptyUser => "the user name is empty",
            OptionsError::UnknownVariant => {
                "the variant is not one of p, password, l, login, a, answer"
            },
            OptionsError::UnknownType => "the type is not one of the known templates",
            OptionsError::MissingType => "an answer needs a type",
            OptionsError::UndefinedTemplate => "this variant has no template of that type",
            OptionsError::InvalidCounter => "the counter is not a number",
            OptionsError::UnknownAlgorithm => "the algorithm is not one of 0, 1, 2, 3, next",
        }
    }

    pub open spec fn spec_message(&self) -> Seq<char> {
        match self {
            OptionsError::MissingSite => "no site name was given"@,
            OptionsError::EmptySite => "the site name is empty"@,
            OptionsError::MissingUser => "no user name was given"@,
            OptionsError::EmptyUser => "the user name is empty"@,
            OptionsError::UnknownVariant => {
                "the variant is not one of p, password, l, login, a, answer"@
            },
            OptionsError::UnknownType => "the type is not one of the known templates"@,
            OptionsError::MissingType => "an answer needs a type"@,
            OptionsError::UndefinedTemplate => "this variant has no template of that type"@,
            OptionsError::InvalidCounter => "the counter is not a number"@,
            OptionsError::UnknownAlgorithm => "the algorithm is not one of 0, 1, 2, 3, next"@,
        }
    }
}

} // verus!
