//! The template catalog: for each type of credential, the templates it
//! may follow. A template names a character class for each position.

use vstd::prelude::*;
use vstd::string::*;
use crate::alphabet::CharClass;
use crate::site::{SiteType, SiteVariant};

verus! {

/// The longest template of the catalog.
pub const MAX_TEMPLATE_LEN: usize = 20;

/// Whether every character of `codes` is a template code.
pub open spec fn spec_codes_valid(codes: Seq<char>) -> bool {
    forall|i: int| 0 <= i < codes.len() ==> (#[trigger] CharClass::spec_from_code(codes[i])) is Some
}

/// The template that a string of codes spells.
pub open spec fn spec_template(codes: Seq<char>) -> Seq<CharClass> {
    Seq::new(codes.len(), |i: int| CharClass::spec_from_code(codes[i]).unwrap())
}

/// A template: the classes of a credential's characters, in order.
#[derive(Debug)]
pub struct Template {
    pub classes: Vec<CharClass>,
}

impl View for Template {
    type V = Seq<CharClass>;

    open spec fn view(&self) -> Seq<CharClass> {
        self.classes@
    }
}

impl Template {
    /// Reads a template from its codes, one character for each position;
    /// `None` if a character is no code.
    pub fn from_codes(codes: &str) -> (template: Option<Template>)
        ensures
            template is Some <==> spec_codes_valid(codes@),
            template matches Some(t) ==> t@ == spec_template(codes@),
    {
        let n: usize = codes.unicode_len();
        let mut classes: Vec<CharClass> = Vec::new();
        let mut i: usize = 0;
        while i < n
            invariant
                n == codes@.len(),
                i <= n,
                classes@.len() == i,
                forall|k: int|
                    0 <= k < i ==> (#[trigger] CharClass::spec_from_code(codes@[k])) == Some(
                        classes@[k],
                    ),
            decreases n - i,
        {
            match CharClass::from_code(codes.get_char(i)) {
                Some(class) => {
                    classes.push(class);
                },
                None => {
                    return None;
                },
            }
            i += 1;
        }
        assert(classes@ =~= spec_template(codes@));
        Some(Template { classes })
    }

    /// The number of positions.
    pub fn len(&self) -> (len: usize)
        ensures
            len == self@.len(),
    {
        self.classes.len()
    }
}

/// The templates of each type, as strings of codes.
pub open spec fn spec_template_codes(site_type: SiteType) -> Seq<Seq<char>> {
    match site_type {
        SiteType::Maximum => seq!["anoxxxxxxxxxxxxxxxxx"@, "axxxxxxxxxxxxxxxxxno"@],
        SiteType::Long => seq![
            "CvcvnoCvcvCvcv"@,
            "CvcvCvcvnoCvcv"@,
            "CvcvCvcvCvcvno"@,
            "CvccnoCvcvCvcv"@,
            "CvccCvcvnoCvcv"@,
            "CvccCvcvCvcvno"@,
            "CvcvnoCvccCvcv"@,
            "CvcvCvccnoCvcv"@,
            "CvcvCvccCvcvno"@,
            "CvcvnoCvcvCvcc"@,
            "CvcvCvcvnoCvcc"@,
            "CvcvCvcvCvccno"@,
            "CvccnoCvccCvcv"@,
            "CvccCvccnoCvcv"@,
            "CvccCvccCvcvno"@,
            "CvcvnoCvccCvcc"@,
            "CvcvCvccnoCvcc"@,
            "CvcvCvccCvccno"@,
            "CvccnoCvcvCvcc"@,
            "CvccCvcvnoCvcc"@,
            "CvccCvcvCvccno"@,
        ],
        SiteType::Medium => seq!["CvcnoCvc"@, "CvcCvcno"@],
        SiteType::Basic => seq!["aaanaaan"@, "aannaaan"@, "aaannaaa"@],
        SiteType::Short => seq!["Cvcn"@],
        SiteType::Pin => seq!["nnnn"@],
        SiteType::Name => seq!["cvccvcvcv"@],
        SiteType::Phrase => seq![
            "cvcc cvc cvccvcv cvc"@,
            "cvc cvccvcvcv cvcv"@,
            "cv cvccv cvc cvcvccv"@,
        ],
    }
}

/// The templates of a type.
pub open spec fn spec_templates_for(site_type: SiteType) -> Seq<Seq<CharClass>> {
    spec_template_codes(site_type).map_values(|codes: Seq<char>| spec_template(codes))
}

/// The views of a list of templates.
pub open spec fn spec_views(templates: Seq<Template>) -> Seq<Seq<CharClass>> {
    templates.map_values(|t: Template| t@)
}

/// The length that every template of a type has; `Phrase` has none, its
/// templates being 18 and 20 long.
pub open spec fn spec_fixed_len(site_type: SiteType) -> Option<nat> {
    match site_type {
        SiteType::Maximum => Some(20),
        SiteType::Long => Some(14),
        SiteType::Medium => Some(8),
        SiteType::Basic => Some(8),
        SiteType::Short => Some(4),
        SiteType::Pin => Some(4),
        SiteType::Name => Some(9),
        SiteType::Phrase => None,
    }
}

/// The number of templates of a type.
pub open spec fn spec_template_count(site_type: SiteType) -> nat {
    match site_type {
        SiteType::Maximum => 2,
        SiteType::Long => 21,
        SiteType::Medium => 2,
        SiteType::Basic => 3,
        SiteType::Short => 1,
        SiteType::Pin => 1,
        SiteType::Name => 1,
        SiteType::Phrase => 3,
    }
}
/// The length of the template at `index` among those of a type.
pub open spec fn spec_code_len(site_type: SiteType, index: int) -> nat {
    match spec_fixed_len(site_type) {
        Some(len) => len,
        None => if index == 1 {
            18
        } else {
            20
        },
    }
}

/// A string of `len` characters, each of them a template code.
pub open spec fn spec_is_codes(codes: Seq<char>, len: nat) -> bool {
    codes.len() == len && spec_codes_valid(codes)
}

/// The templates of a type, as strings of codes.
pub fn template_codes(site_type: SiteType) -> (codes: Vec<&'static str>)
    ensures
        codes@.len() == spec_template_codes(site_type).len(),
        forall|i: int|
            0 <= i < codes@.len() ==> (#[trigger] codes@[i])@ == spec_template_codes(site_type)[i],
{
    match site_type {
        SiteType::Maximum => vec![
            "anoxxxxxxxxxxxxxxxxx",
            "axxxxxxxxxxxxxxxxxno",
        ],
        SiteType::Long => vec![
            "CvcvnoCvcvCvcv",
            "CvcvCvcvnoCvcv",
            "CvcvCvcvCvcvno",
            "CvccnoCvcvCvcv",
            "CvccCvcvnoCvcv",
            "CvccCvcvCvcvno",
            "CvcvnoCvccCvcv",
            "CvcvCvccnoCvcv",
            "CvcvCvccCvcvno",
            "CvcvnoCvcvCvcc",
            "CvcvCvcvnoCvcc",
            "CvcvCvcvCvccno",
            "CvccnoCvccCvcv",
            "CvccCvccnoCvcv",
            "CvccCvccCvcvno",
            "CvcvnoCvccCvcc",
            "CvcvCvccnoCvcc",
            "CvcvCvccCvccno",
            "CvccnoCvcvCvcc",
            "CvccCvcvnoCvcc",
            "CvccCvcvCvccno",
        ],
        SiteType::Medium => vec![
            "CvcnoCvc",
            "CvcCvcno",
        ],
        SiteType::Basic => vec![
            "aaanaaan",
            "aannaaan",
            "aaannaaa",
        ],
        SiteType::Short => vec![
            "Cvcn",
        ],
        SiteType::Pin => vec![
            "nnnn",
        ],
        SiteType::Name => vec![
            "cvccvcvcv",
        ],
        SiteType::Phrase => vec![
            "cvcc cvc cvccvcv cvc",
            "cvc cvccvcvcv cvcv",
            "cv cvccv cvc cvcvccv",
        ],
    }
}

/// The templates that a credential of this variant and type may follow,
/// in catalog order. The variant must allow the type.
pub fn templates_for(variant: SiteVariant, site_type: SiteType) -> (templates: Vec<Template>)
    requires
        variant.spec_allows(site_type),
    ensures
        spec_views(templates@) == spec_templates_for(site_type),
{
    let codes = template_codes(site_type);
    let mut templates: Vec<Template> = Vec::new();
    let mut i: usize = 0;
    proof {
        lemma_catalog(site_type);
    }
    while i < codes.len()
        invariant
            i <= codes@.len(),
            codes@.len() == spec_template_codes(site_type).len(),
            forall|k: int|
                0 <= k < codes@.len() ==> (#[trigger] codes@[k])@ == spec_template_codes(
                    site_type,
                )[k],
            forall|k: int|
                0 <= k < codes@.len() ==> spec_codes_valid(
                    #[trigger] spec_template_codes(site_type)[k],
                ),
            templates@.len() == i,
            forall|k: int|
                0 <= k < i ==> (#[trigger] templates@[k])@ == spec_template(
                    spec_template_codes(site_type)[k],
                ),
        decreases codes@.len() - i,
    {
        match Template::from_codes(codes[i]) {
            Some(template) => {
                templates.push(template);
            },
            None => {
                assert(spec_codes_valid(spec_template_codes(site_type)[i as int]));
                vstd::pervasive::unreached::<()>();
            },
        }
        i += 1;
    }
    assert(spec_views(templates@) =~= spec_templates_for(site_type));
    templates
}

/// The catalog is sound: each type has the number of templates that
/// `spec_template_count` gives, and the template at each index spells
/// classes only and has the length that `spec_code_len` gives, which is
/// never more than `MAX_TEMPLATE_LEN`.
pub proof fn lemma_catalog(site_type: SiteType)
    ensures
        spec_template_codes(site_type).len() == spec_template_count(site_type),
        forall|i: int|
            0 <= i < spec_template_count(site_type) ==> spec_is_codes(
                #[trigger] spec_template_codes(site_type)[i],
                spec_code_len(site_type, i),
            ),
        forall|i: int| 0 < #[trigger] spec_code_len(site_type, i) <= MAX_TEMPLATE_LEN,
{
    match site_type {
        SiteType::Maximum => lemma_codes_maximum(),
        SiteType::Long => lemma_codes_long(),
        SiteType::Medium => lemma_codes_medium(),
        SiteType::Basic => lemma_codes_basic(),
        SiteType::Short => lemma_codes_short(),
        SiteType::Pin => lemma_codes_pin(),
        SiteType::Name => lemma_codes_name(),
        SiteType::Phrase => lemma_codes_phrase(),
    }
}

/// Whether the first `n` characters of `codes` are template codes.
spec fn valid_upto(codes: Seq<char>, n: nat) -> bool
    decreases n,
{
    n == 0 || (CharClass::spec_from_code(codes[n - 1]) is Some && valid_upto(
        codes,
        (n - 1) as nat,
    ))
}

proof fn lemma_valid_upto(codes: Seq<char>, n: nat)
    requires
        valid_upto(codes, n),
    ensures
        forall|i: int| 0 <= i < n ==> (#[trigger] CharClass::spec_from_code(codes[i])) is Some,
    decreases n,
{
    if n > 0 {
        lemma_valid_upto(codes, (n - 1) as nat);
    }
}

proof fn lemma_is_codes(codes: Seq<char>, len: nat)
    requires
        codes.len() == len,
        valid_upto(codes, len),
    ensures
        spec_is_codes(codes, len),
{
    lemma_valid_upto(codes, len);
}

proof fn lemma_codes_maximum()
    ensures
        spec_template_codes(SiteType::Maximum).len() == 2,
        forall|i: int|
            0 <= i < 2 ==> spec_is_codes(
                #[trigger] spec_template_codes(SiteType::Maximum)[i],
                spec_code_len(SiteType::Maximum, i),
            ),
{
    assert(spec_is_codes("anoxxxxxxxxxxxxxxxxx"@, 20)) by {
        reveal_strlit("anoxxxxxxxxxxxxxxxxx");
        reveal_with_fuel(valid_upto, 21);
        lemma_is_codes("anoxxxxxxxxxxxxxxxxx"@, 20);
    }
    assert(spec_is_codes("axxxxxxxxxxxxxxxxxno"@, 20)) by {
        reveal_strlit("axxxxxxxxxxxxxxxxxno");
        reveal_with_fuel(valid_upto, 21);
        lemma_is_codes("axxxxxxxxxxxxxxxxxno"@, 20);
    }
}

/// The first seven templates of `Long`.
proof fn lemma_codes_long_first()
    ensures
        spec_is_codes("CvcvnoCvcvCvcv"@, 14),
        spec_is_codes("CvcvCvcvnoCvcv"@, 14),
        spec_is_codes("CvcvCvcvCvcvno"@, 14),
        spec_is_codes("CvccnoCvcvCvcv"@, 14),
        spec_is_codes("CvccCvcvnoCvcv"@, 14),
        spec_is_codes("CvccCvcvCvcvno"@, 14),
        spec_is_codes("CvcvnoCvccCvcv"@, 14),
{
    assert(spec_is_codes("CvcvnoCvcvCvcv"@, 14)) by {
        reveal_strlit("CvcvnoCvcvCvcv");
        reveal_with_fuel(valid_upto, 21);
        lemma_is_codes("CvcvnoCvcvCvcv"@, 14);
    }
    assert(spec_is_codes("CvcvCvcvnoCvcv"@, 14)) by {
        reveal_strlit("CvcvCvcvnoCvcv");
        reveal_with_fuel(valid_upto, 21);
        lemma_is_codes("CvcvCvcvnoCvcv"@, 14);
    }
    assert(spec_is_codes("CvcvCvcvCvcvno"@, 14)) by {
        reveal_strlit("CvcvCvcvCvcvno");
        reveal_with_fuel(valid_upto, 21);
        lemma_is_codes("CvcvCvcvCvcvno"@, 14);
    }
    assert(spec_is_codes("CvccnoCvcvCvcv"@, 14)) by {
        reveal_strlit("CvccnoCvcvCvcv");
        reveal_with_fuel(valid_upto, 21);
        lemma_is_codes("CvccnoCvcvCvcv"@, 14);
    }
    assert(spec_is_codes("CvccCvcvnoCvcv"@, 14)) by {
        reveal_strlit("CvccCvcvnoCvcv");
        reveal_with_fuel(valid_upto, 21);
        lemma_is_codes("CvccCvcvnoCvcv"@, 14);
    }
    assert(spec_is_codes("CvccCvcvCvcvno"@, 14)) by {
        reveal_strlit("CvccCvcvCvcvno");
        reveal_with_fuel(valid_upto, 21);
        lemma_is_codes("CvccCvcvCvcvno"@, 14);
    }
    assert(spec_is_codes("CvcvnoCvccCvcv"@, 14)) by {
        reveal_strlit("CvcvnoCvccCvcv");
        reveal_with_fuel(valid_upto, 21);
        lemma_is_codes("CvcvnoCvccCvcv"@, 14);
    }
}

/// The second seven templates of `Long`.
proof fn lemma_codes_long_second()
    ensures
        spec_is_codes("CvcvCvccnoCvcv"@, 14),
        spec_is_codes("CvcvCvccCvcvno"@, 14),
        spec_is_codes("CvcvnoCvcvCvcc"@, 14),
        spec_is_codes("CvcvCvcvnoCvcc"@, 14),
        spec_is_codes("CvcvCvcvCvccno"@, 14),
        spec_is_codes("CvccnoCvccCvcv"@, 14),
        spec_is_codes("CvccCvccnoCvcv"@, 14),
{
    assert(spec_is_codes("CvcvCvccnoCvcv"@, 14)) by {
        reveal_strlit("CvcvCvccnoCvcv");
        reveal_with_fuel(valid_upto, 21);
        lemma_is_codes("CvcvCvccnoCvcv"@, 14);
    }
    assert(spec_is_codes("CvcvCvccCvcvno"@, 14)) by {
        reveal_strlit("CvcvCvccCvcvno");
        reveal_with_fuel(valid_upto, 21);
        lemma_is_codes("CvcvCvccCvcvno"@, 14);
    }
    assert(spec_is_codes("CvcvnoCvcvCvcc"@, 14)) by {
        reveal_strlit("CvcvnoCvcvCvcc");
        reveal_with_fuel(valid_upto, 21);
        lemma_is_codes("CvcvnoCvcvCvcc"@, 14);
    }
    assert(spec_is_codes("CvcvCvcvnoCvcc"@, 14)) by {
        reveal_strlit("CvcvCvcvnoCvcc");
        reveal_with_fuel(valid_upto, 21);
        lemma_is_codes("CvcvCvcvnoCvcc"@, 14);
    }
    assert(spec_is_codes("CvcvCvcvCvccno"@, 14)) by {
        reveal_strlit("CvcvCvcvCvccno");
        reveal_with_fuel(valid_upto, 21);
        lemma_is_codes("CvcvCvcvCvccno"@, 14);
    }
    assert(spec_is_codes("CvccnoCvccCvcv"@, 14)) by {
        reveal_strlit("CvccnoCvccCvcv");
        reveal_with_fuel(valid_upto, 21);
        lemma_is_codes("CvccnoCvccCvcv"@, 14);
    }
    assert(spec_is_codes("CvccCvccnoCvcv"@, 14)) by {
        reveal_strlit("CvccCvccnoCvcv");
        reveal_with_fuel(valid_upto, 21);
        lemma_is_codes("CvccCvccnoCvcv"@, 14);
    }
}

/// The third seven templates of `Long`.
proof fn lemma_codes_long_third()
    ensures
        spec_is_codes("CvccCvccCvcvno"@, 14),
        spec_is_codes("CvcvnoCvccCvcc"@, 14),
        spec_is_codes("CvcvCvccnoCvcc"@, 14),
        spec_is_codes("CvcvCvccCvccno"@, 14),
        spec_is_codes("CvccnoCvcvCvcc"@, 14),
        spec_is_codes("CvccCvcvnoCvcc"@, 14),
        spec_is_codes("CvccCvcvCvccno"@, 14),
{
    assert(spec_is_codes("CvccCvccCvcvno"@, 14)) by {
        reveal_strlit("CvccCvccCvcvno");
        reveal_with_fuel(valid_upto, 21);
        lemma_is_codes("CvccCvccCvcvno"@, 14);
    }
    assert(spec_is_codes("CvcvnoCvccCvcc"@, 14)) by {
        reveal_strlit("CvcvnoCvccCvcc");
        reveal_with_fuel(valid_upto, 21);
        lemma_is_codes("CvcvnoCvccCvcc"@, 14);
    }
    assert(spec_is_codes("CvcvCvccnoCvcc"@, 14)) by {
        reveal_strlit("CvcvCvccnoCvcc");
        reveal_with_fuel(valid_upto, 21);
        lemma_is_codes("CvcvCvccnoCvcc"@, 14);
    }
    assert(spec_is_codes("CvcvCvccCvccno"@, 14)) by {
        reveal_strlit("CvcvCvccCvccno");
        reveal_with_fuel(valid_upto, 21);
        lemma_is_codes("CvcvCvccCvccno"@, 14);
    }
    assert(spec_is_codes("CvccnoCvcvCvcc"@, 14)) by {
        reveal_strlit("CvccnoCvcvCvcc");
        reveal_with_fuel(valid_upto, 21);
        lemma_is_codes("CvccnoCvcvCvcc"@, 14);
    }
    assert(spec_is_codes("CvccCvcvnoCvcc"@, 14)) by {
        reveal_strlit("CvccCvcvnoCvcc");
        reveal_with_fuel(valid_upto, 21);
        lemma_is_codes("CvccCvcvnoCvcc"@, 14);
    }
    assert(spec_is_codes("CvccCvcvCvccno"@, 14)) by {
        reveal_strlit("CvccCvcvCvccno");
        reveal_with_fuel(valid_upto, 21);
        lemma_is_codes("CvccCvcvCvccno"@, 14);
    }
}

proof fn lemma_codes_long()
    ensures
        spec_template_codes(SiteType::Long).len() == 21,
        forall|i: int|
            0 <= i < 21 ==> spec_is_codes(
                #[trigger] spec_template_codes(SiteType::Long)[i],
                spec_code_len(SiteType::Long, i),
            ),
{
    lemma_codes_long_first();
    lemma_codes_long_second();
    lemma_codes_long_third();
}

proof fn lemma_codes_medium()
    ensures
        spec_template_codes(SiteType::Medium).len() == 2,
        forall|i: int|
            0 <= i < 2 ==> spec_is_codes(
                #[trigger] spec_template_codes(SiteType::Medium)[i],
                spec_code_len(SiteType::Medium, i),
            ),
{
    assert(spec_is_codes("CvcnoCvc"@, 8)) by {
        reveal_strlit("CvcnoCvc");
        reveal_with_fuel(valid_upto, 21);
        lemma_is_codes("CvcnoCvc"@, 8);
    }
    assert(spec_is_codes("CvcCvcno"@, 8)) by {
        reveal_strlit("CvcCvcno");
        reveal_with_fuel(valid_upto, 21);
        lemma_is_codes("CvcCvcno"@, 8);
    }
}

proof fn lemma_codes_basic()
    ensures
        spec_template_codes(SiteType::Basic).len() == 3,
        forall|i: int|
            0 <= i < 3 ==> spec_is_codes(
                #[trigger] spec_template_codes(SiteType::Basic)[i],
                spec_code_len(SiteType::Basic, i),
            ),
{
    assert(spec_is_codes("aaanaaan"@, 8)) by {
        reveal_strlit("aaanaaan");
        reveal_with_fuel(valid_upto, 21);
        lemma_is_codes("aaanaaan"@, 8);
    }
    assert(spec_is_codes("aannaaan"@, 8)) by {
        reveal_strlit("aannaaan");
        reveal_with_fuel(valid_upto, 21);
        lemma_is_codes("aannaaan"@, 8);
    }
    assert(spec_is_codes("aaannaaa"@, 8)) by {
        reveal_strlit("aaannaaa");
        reveal_with_fuel(valid_upto, 21);
        lemma_is_codes("aaannaaa"@, 8);
    }
}

proof fn lemma_codes_short()
    ensures
        spec_template_codes(SiteType::Short).len() == 1,
        forall|i: int|
            0 <= i < 1 ==> spec_is_codes(
                #[trigger] spec_template_codes(SiteType::Short)[i],
                spec_code_len(SiteType::Short, i),
            ),
{
    assert(spec_is_codes("Cvcn"@, 4)) by {
        reveal_strlit("Cvcn");
        reveal_with_fuel(valid_upto, 21);
        lemma_is_codes("Cvcn"@, 4);
    }
}

proof fn lemma_codes_pin()
    ensures
        spec_template_codes(SiteType::Pin).len() == 1,
        forall|i: int|
            0 <= i < 1 ==> spec_is_codes(
                #[trigger] spec_template_codes(SiteType::Pin)[i],
                spec_code_len(SiteType::Pin, i),
            ),
{
    assert(spec_is_codes("nnnn"@, 4)) by {
        reveal_strlit("nnnn");
        reveal_with_fuel(valid_upto, 21);
        lemma_is_codes("nnnn"@, 4);
    }
}

proof fn lemma_codes_name()
    ensures
        spec_template_codes(SiteType::Name).len() == 1,
        forall|i: int|
            0 <= i < 1 ==> spec_is_codes(
                #[trigger] spec_template_codes(SiteType::Name)[i],
                spec_code_len(SiteType::Name, i),
            ),
{
    assert(spec_is_codes("cvccvcvcv"@, 9)) by {
        reveal_strlit("cvccvcvcv");
        reveal_with_fuel(valid_upto, 21);
        lemma_is_codes("cvccvcvcv"@, 9);
    }
}

proof fn lemma_codes_phrase()
    ensures
        spec_template_codes(SiteType::Phrase).len() == 3,
        forall|i: int|
            0 <= i < 3 ==> spec_is_codes(
                #[trigger] spec_template_codes(SiteType::Phrase)[i],
                spec_code_len(SiteType::Phrase, i),
            ),
{
    assert(spec_is_codes("cvcc cvc cvccvcv cvc"@, 20)) by {
        reveal_strlit("cvcc cvc cvccvcv cvc");
        reveal_with_fuel(valid_upto, 21);
        lemma_is_codes("cvcc cvc cvccvcv cvc"@, 20);
    }
    assert(spec_is_codes("cvc cvccvcvcv cvcv"@, 18)) by {
        reveal_strlit("cvc cvccvcvcv cvcv");
        reveal_with_fuel(valid_upto, 21);
        lemma_is_codes("cvc cvccvcvcv cvcv"@, 18);
    }
    assert(spec_is_codes("cv cvccv cvc cvcvccv"@, 20)) by {
        reveal_strlit("cv cvccv cvc cvcvccv");
        reveal_with_fuel(valid_upto, 21);
        lemma_is_codes("cv cvccv cvc cvcvccv"@, 20);
    }
}

} // verus!
