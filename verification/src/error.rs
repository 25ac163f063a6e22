//! Why a derivation was refused.

use vstd::prelude::*;

verus! {

/// The reasons for which no credential is derived. Each one is final for
/// the call that met it: nothing is retried and nothing is substituted.
#[derive(Clone, Copy, PartialEq, Eq, Structural, Debug)]
pub enum DeriveError {
    /// The identity is empty.
    EmptyIdentity,
    /// The site name is empty.
    EmptySiteName,
    /// The counter is 0, which is reserved.
    ReservedCounter,
    /// The variant has no templates for the type that was asked for.
    UndefinedTemplate,
    /// A text is longer than a four-byte length field can say.
    FieldTooLong,
    /// The key-derivation function does not take a secret or a salt of
    /// this length.
    KdfInputTooLong,
}

impl DeriveError {
    /// A sentence for the user that names the input at fault.
    pub fn message(&self) -> (text: &'static str)
        ensures
            text@ == self.spec_message(),
    {
        match self {
            DeriveError::EmptyIdentity => "the user name is empty",
            DeriveError::EmptySiteName => "the site name is empty",
            DeriveError::ReservedCounter => "the counter 0 is reserved",
            DeriveError::UndefinedTemplate => "this variant has no template of that type",
            DeriveError::FieldTooLong => "a name or context is too long to encode",
            DeriveError::KdfInputTooLong => {
                "the master password or the user name is too long for this algorithm"
            },
        }
    }

    pub open spec fn spec_message(&self) -> Seq<char> {
        match self {
            DeriveError::EmptyIdentity => "the user name is empty"@,
            DeriveError::EmptySiteName => "the site name is empty"@,
            DeriveError::ReservedCounter => "the counter 0 is reserved"@,
            DeriveError::UndefinedTemplate => "this variant has no template of that type"@,
            DeriveError::FieldTooLong => "a name or context is too long to encode"@,
            DeriveError::KdfInputTooLong => {
                "the master password or the user name is too long for this algorithm"@
            },
        }
    }
}

} // verus!
