//! Character classes and their alphabets: the fixed tables from which the
//! characters of a credential are picked.

use vstd::prelude::*;

verus! {

/// A class of characters; each position of a template names one.
#[derive(Clone, Copy, PartialEq, Eq, Structural, Debug)]
pub enum CharClass {
    /// `V`: an upper-case vowel.
    UpperVowel,
    /// `C`: an upper-case consonant.
    UpperConsonant,
    /// `v`: a lower-case vowel.
    LowerVowel,
    /// `c`: a lower-case consonant.
    LowerConsonant,
    /// `A`: an upper-case letter.
    UpperLetter,
    /// `a`: a letter of either case.
    Letter,
    /// `n`: a digit.
    Digit,
    /// `o`: a symbol.
    Symbol,
    /// `x`: a letter, a digit or one of ten symbols.
    Any,
    /// ` `: the space between the words of a phrase.
    Space,
}

impl CharClass {
    /// The characters of the class, in the order in which a key byte
    /// counts them off.
    pub open spec fn spec_alphabet(self) -> Seq<char> {
        match self {
            CharClass::UpperVowel => "AEIOU"@,
            CharClass::UpperConsonant => "BCDFGHJKLMNPQRSTVWXYZ"@,
            CharClass::LowerVowel => "aeiou"@,
            CharClass::LowerConsonant => "bcdfghjklmnpqrstvwxyz"@,
            CharClass::UpperLetter => "AEIOUBCDFGHJKLMNPQRSTVWXYZ"@,
            CharClass::Letter => "AEIOUaeiouBCDFGHJKLMNPQRSTVWXYZbcdfghjklmnpqrstvwxyz"@,
            CharClass::Digit => "0123456789"@,
            CharClass::Symbol => "@&%?,=[]_:-+*$#!'^~;()/."@,
            CharClass::Any => {
                "AEIOUaeiouBCDFGHJKLMNPQRSTVWXYZbcdfghjklmnpqrstvwxyz0123456789!@#$%^&*()"@
            },
            CharClass::Space => " "@,
        }
    }

    /// The alphabet of the class.
    pub fn alphabet(self) -> (alphabet: &'static str)
        ensures
            alphabet@ == self.spec_alphabet(),
    {
        match self {
            CharClass::UpperVowel => "AEIOU",
            CharClass::UpperConsonant => "BCDFGHJKLMNPQRSTVWXYZ",
            CharClass::LowerVowel => "aeiou",
            CharClass::LowerConsonant => "bcdfghjklmnpqrstvwxyz",
            CharClass::UpperLetter => "AEIOUBCDFGHJKLMNPQRSTVWXYZ",
            CharClass::Letter => "AEIOUaeiouBCDFGHJKLMNPQRSTVWXYZbcdfghjklmnpqrstvwxyz",
            CharClass::Digit => "0123456789",
            CharClass::Symbol => "@&%?,=[]_:-+*$#!'^~;()/.",
            CharClass::Any => {
                "AEIOUaeiouBCDFGHJKLMNPQRSTVWXYZbcdfghjklmnpqrstvwxyz0123456789!@#$%^&*()"
            },
            CharClass::Space => " ",
        }
    }

    /// The number of characters in the alphabet of the class.
    pub open spec fn spec_alphabet_len(self) -> nat {
        match self {
            CharClass::UpperVowel => 5,
            CharClass::UpperConsonant => 21,
            CharClass::LowerVowel => 5,
            CharClass::LowerConsonant => 21,
            CharClass::UpperLetter => 26,
            CharClass::Letter => 52,
            CharClass::Digit => 10,
            CharClass::Symbol => 24,
            CharClass::Any => 72,
            CharClass::Space => 1,
        }
    }

    /// The classes whose alphabets hold letters only.
    pub open spec fn spec_is_letters(self) -> bool {
        self == CharClass::UpperVowel || self == CharClass::UpperConsonant || self
            == CharClass::LowerVowel || self == CharClass::LowerConsonant || self
            == CharClass::UpperLetter || self == CharClass::Letter
    }

    /// The class that a template code stands for.
    pub open spec fn spec_from_code(code: char) -> Option<CharClass> {
        if code == 'V' {
            Some(CharClass::UpperVowel)
        } else if code == 'C' {
            Some(CharClass::UpperConsonant)
        } else if code == 'v' {
            Some(CharClass::LowerVowel)
        } else if code == 'c' {
            Some(CharClass::LowerConsonant)
        } else if code == 'A' {
            Some(CharClass::UpperLetter)
        } else if code == 'a' {
            Some(CharClass::Letter)
        } else if code == 'n' {
            Some(CharClass::Digit)
        } else if code == 'o' {
            Some(CharClass::Symbol)
        } else if code == 'x' {
            Some(CharClass::Any)
        } else if code == ' ' {
            Some(CharClass::Space)
        } else {
            None
        }
    }

    /// Reads a template code.
    pub fn from_code(code: char) -> (class: Option<CharClass>)
        ensures
            class == Self::spec_from_code(code),
    {
        if code == 'V' {
            Some(CharClass::UpperVowel)
        } else if code == 'C' {
            Some(CharClass::UpperConsonant)
        } else if code == 'v' {
            Some(CharClass::LowerVowel)
        } else if code == 'c' {
            Some(CharClass::LowerConsonant)
        } else if code == 'A' {
            Some(CharClass::UpperLetter)
        } else if code == 'a' {
            Some(CharClass::Letter)
        } else if code == 'n' {
            Some(CharClass::Digit)
        } else if code == 'o' {
            Some(CharClass::Symbol)
        } else if code == 'x' {
            Some(CharClass::Any)
        } else if code == ' ' {
            Some(CharClass::Space)
        } else {
            None
        }
    }
}

/// Whether a character is an ASCII digit.
pub open spec fn spec_is_digit_char(c: char) -> bool {
    '0' <= c <= '9'
}

/// Whether a character is an ASCII letter.
pub open spec fn spec_is_letter(c: char) -> bool {
    ('A' <= c <= 'Z') || ('a' <= c <= 'z')
}

/// Every alphabet has the length that `spec_alphabet_len` gives, so none
/// is empty.
pub proof fn lemma_alphabet_len(class: CharClass)
    ensures
        class.spec_alphabet().len() == class.spec_alphabet_len(),
        class.spec_alphabet().len() > 0,
{
    reveal_strlit("AEIOU");
    reveal_strlit("BCDFGHJKLMNPQRSTVWXYZ");
    reveal_strlit("aeiou");
    reveal_strlit("bcdfghjklmnpqrstvwxyz");
    reveal_strlit("AEIOUBCDFGHJKLMNPQRSTVWXYZ");
    reveal_strlit("AEIOUaeiouBCDFGHJKLMNPQRSTVWXYZbcdfghjklmnpqrstvwxyz");
    reveal_strlit("0123456789");
    reveal_strlit("@&%?,=[]_:-+*$#!'^~;()/.");
    reveal_strlit("AEIOUaeiouBCDFGHJKLMNPQRSTVWXYZbcdfghjklmnpqrstvwxyz0123456789!@#$%^&*()");
    reveal_strlit(" ");
}

/// The alphabet of `Digit` holds digits only, and the alphabets of the six
/// letter classes hold letters only.
pub proof fn lemma_alphabet_kind(class: CharClass)
    ensures
        class == CharClass::Digit ==> forall|i: int|
            0 <= i < class.spec_alphabet().len() ==> spec_is_digit_char(
                #[trigger] class.spec_alphabet()[i],
            ),
        class.spec_is_letters() ==> forall|i: int|
            0 <= i < class.spec_alphabet().len() ==> spec_is_letter(
                #[trigger] class.spec_alphabet()[i],
            ),
{
    let alphabet = class.spec_alphabet();
    lemma_alphabet_len(class);
    if class == CharClass::Digit {
        assert(digits_upto(alphabet, 10)) by {
            reveal_strlit("0123456789");
            reveal_with_fuel(digits_upto, 11);
        }
        lemma_digits_upto(alphabet, 10);
    } else if class.spec_is_letters() {
        assert(letters_upto(alphabet, alphabet.len())) by {
            reveal_strlit("AEIOU");
            reveal_strlit("BCDFGHJKLMNPQRSTVWXYZ");
            reveal_strlit("aeiou");
            reveal_strlit("bcdfghjklmnpqrstvwxyz");
            reveal_strlit("AEIOUBCDFGHJKLMNPQRSTVWXYZ");
            reveal_strlit("AEIOUaeiouBCDFGHJKLMNPQRSTVWXYZbcdfghjklmnpqrstvwxyz");
            reveal_with_fuel(letters_upto, 53);
        }
        lemma_letters_upto(alphabet, alphabet.len());
    }
}

/// Whether the first `n` characters are digits.
spec fn digits_upto(text: Seq<char>, n: nat) -> bool
    decreases n,
{
    n == 0 || (spec_is_digit_char(text[n - 1]) && digits_upto(text, (n - 1) as nat))
}

/// Whether the first `n` characters are letters.
spec fn letters_upto(text: Seq<char>, n: nat) -> bool
    decreases n,
{
    n == 0 || (spec_is_letter(text[n - 1]) && letters_upto(text, (n - 1) as nat))
}

proof fn lemma_digits_upto(text: Seq<char>, n: nat)
    requires
        digits_upto(text, n),
    ensures
        forall|i: int| 0 <= i < n ==> spec_is_digit_char(#[trigger] text[i]),
    decreases n,
{
    if n > 0 {
        lemma_digits_upto(text, (n - 1) as nat);
    }
}

proof fn lemma_letters_upto(text: Seq<char>, n: nat)
    requires
        letters_upto(text, n),
    ensures
        forall|i: int| 0 <= i < n ==> spec_is_letter(#[trigger] text[i]),
    decreases n,
{
    if n > 0 {
        lemma_letters_upto(text, (n - 1) as nat);
    }
}

} // verus!
