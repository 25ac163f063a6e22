//! What a credential is derived for: the site, its counter, the purpose of
//! the credential and the shape that was asked for.

use vstd::prelude::*;
use crate::text::str_eq;

verus! {

/// The purpose of a derived credential.
#[derive(Clone, Copy, PartialEq, Eq, Structural, Debug)]
pub enum SiteVariant {
    /// The password to log in with.
    Password,
    /// The name to log in as.
    Login,
    /// The answer to a security question.
    Answer,
}

/// The shape that is asked of a credential.
#[derive(Clone, Copy, PartialEq, Eq, Structural, Debug)]
pub enum SiteType {
    /// 20 characters, with symbols.
    Maximum,
    /// 14 characters, with symbols.
    Long,
    /// 8 characters, with symbols.
    Medium,
    /// 8 characters, no symbols.
    Basic,
    /// 4 characters, no symbols.
    Short,
    /// 4 digits.
    Pin,
    /// A name of 9 letters.
    Name,
    /// A sentence of up to 20 characters.
    Phrase,
}

impl SiteVariant {
    /// The variant a command-line token stands for.
    pub open spec fn spec_from(token: Seq<char>) -> Option<SiteVariant> {
        if token == "p"@ || token == "password"@ {
            Some(SiteVariant::Password)
        } else if token == "l"@ || token == "login"@ {
            Some(SiteVariant::Login)
        } else if token == "a"@ || token == "answer"@ {
            Some(SiteVariant::Answer)
        } else {
            None
        }
    }

    /// Reads a variant token: `p`/`password`, `l`/`login`, `a`/`answer`.
    pub fn from(token: &str) -> (variant: Option<SiteVariant>)
        ensures
            variant == Self::spec_from(token@),
    {
        if str_eq(token, "p") || str_eq(token, "password") {
            Some(SiteVariant::Password)
        } else if str_eq(token, "l") || str_eq(token, "login") {
            Some(SiteVariant::Login)
        } else if str_eq(token, "a") || str_eq(token, "answer") {
            Some(SiteVariant::Answer)
        } else {
            None
        }
    }

    /// The type used when none is asked for. `Answer` has none: its type
    /// must be given.
    pub open spec fn spec_default_type(self) -> Option<SiteType> {
        match self {
            SiteVariant::Password => Some(SiteType::Long),
            SiteVariant::Login => Some(SiteType::Name),
            SiteVariant::Answer => None,
        }
    }

    pub fn default_type(self) -> (site_type: Option<SiteType>)
        ensures
            site_type == self.spec_default_type(),
    {
        match self {
            SiteVariant::Password => Some(SiteType::Long),
            SiteVariant::Login => Some(SiteType::Name),
            SiteVariant::Answer => None,
        }
    }

    /// The types that have templates for this variant: every type for a
    /// password, `Name` for a login, `Phrase` for an answer.
    pub open spec fn spec_allows(self, site_type: SiteType) -> bool {
        match self {
            SiteVariant::Password => true,
            SiteVariant::Login => site_type == SiteType::Name,
            SiteVariant::Answer => site_type == SiteType::Phrase,
        }
    }

    pub fn allows(self, site_type: SiteType) -> (defined: bool)
        ensures
            defined == self.spec_allows(site_type),
    {
        match self {
            SiteVariant::Password => true,
            SiteVariant::Login => match site_type {
                SiteType::Name => true,
                _ => false,
            },
            SiteVariant::Answer => match site_type {
                SiteType::Phrase => true,
                _ => false,
            },
        }
    }
}

impl SiteType {
    /// The type a command-line token stands for.
    pub open spec fn spec_from(token: Seq<char>) -> Option<SiteType> {
        if token == "x"@ || token == "max"@ || token == "maximum"@ {
            Some(SiteType::Maximum)
        } else if token == "l"@ || token == "long"@ {
            Some(SiteType::Long)
        } else if token == "m"@ || token == "med"@ || token == "medium"@ {
            Some(SiteType::Medium)
        } else if token == "b"@ || token == "basic"@ {
            Some(SiteType::Basic)
        } else if token == "s"@ || token == "short"@ {
            Some(SiteType::Short)
        } else if token == "i"@ || token == "pin"@ {
            Some(SiteType::Pin)
        } else if token == "n"@ || token == "name"@ {
            Some(SiteType::Name)
        } else if token == "p"@ || token == "phrase"@ {
            Some(SiteType::Phrase)
        } else {
            None
        }
    }

    /// Reads a type token: `x`/`max`/`maximum`, `l`/`long`,
    /// `m`/`med`/`medium`, `b`/`basic`, `s`/`short`, `i`/`pin`, `n`/`name`,
    /// `p`/`phrase`.
    pub fn from(token: &str) -> (site_type: Option<SiteType>)
        ensures
            site_type == Self::spec_from(token@),
    {
        if str_eq(token, "x") || str_eq(token, "max") || str_eq(token, "maximum") {
            Some(SiteType::Maximum)
        } else if str_eq(token, "l") || str_eq(token, "long") {
            Some(SiteType::Long)
        } else if str_eq(token, "m") || str_eq(token, "med") || str_eq(token, "medium") {
            Some(SiteType::Medium)
        } else if str_eq(token, "b") || str_eq(token, "basic") {
            Some(SiteType::Basic)
        } else if str_eq(token, "s") || str_eq(token, "short") {
            Some(SiteType::Short)
        } else if str_eq(token, "i") || str_eq(token, "pin") {
            Some(SiteType::Pin)
        } else if str_eq(token, "n") || str_eq(token, "name") {
            Some(SiteType::Name)
        } else if str_eq(token, "p") || str_eq(token, "phrase") {
            Some(SiteType::Phrase)
        } else {
            None
        }
    }
}

/// A site and what is asked for it.
#[derive(Debug)]
pub struct SiteSpec {
    /// The name of the site; not empty.
    pub name: String,
    /// Tells apart several credentials for one site; 0 is reserved.
    pub counter: u32,
    pub variant: SiteVariant,
    pub template: SiteType,
    /// Which question an answer is for; empty for none. Only an `Answer`
    /// reads it.
    pub context: String,
}

/// A `SiteSpec` as the contracts see it.
pub struct SiteSpecView {
    pub name: Seq<char>,
    pub counter: u32,
    pub variant: SiteVariant,
    pub template: SiteType,
    pub context: Seq<char>,
}

impl View for SiteSpec {
    type V = SiteSpecView;

    open spec fn view(&self) -> SiteSpecView {
        SiteSpecView {
            name: self.name@,
            counter: self.counter,
            variant: self.variant,
            template: self.template,
            context: self.context@,
        }
    }
}

} // verus!
