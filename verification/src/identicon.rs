//! The identicon: four glyphs that depend on the secret and the identity,
//! shown to the user so that a mistyped secret is seen at once. It takes
//! no part in the derivation of a credential.

use vstd::prelude::*;
use vstd::string::*;
use vstd::utf8::*;
use crate::wipe::wipe;
use crate::site_key::{hmac_sha256, hmac_sha256_tag};

verus! {

/// The glyphs for the left arm.
pub open spec fn spec_left_arms() -> Seq<Seq<char>> {
    seq!["╔"@, "╚"@, "╰"@, "═"@]
}

/// The glyphs for the body.
pub open spec fn spec_bodies() -> Seq<Seq<char>> {
    seq!["█"@, "░"@, "▒"@, "▓"@, "☺"@, "☻"@]
}

/// The glyphs for the right arm.
pub open spec fn spec_right_arms() -> Seq<Seq<char>> {
    seq!["╗"@, "╝"@, "╯"@, "═"@]
}

/// The glyphs for the accessory.
pub open spec fn spec_accessories() -> Seq<Seq<char>> {
    seq![
        "◈"@, "◎"@, "◐"@, "◑"@, "◒"@, "◓"@, "☀"@, "☁"@, "☂"@, "☃"@,
        "☄"@, "★"@, "☆"@, "☎"@, "☏"@, "⎈"@, "⌂"@, "☘"@, "☢"@, "☣"@,
        "☕"@, "⌚"@, "⌛"@, "⏰"@, "⚡"@, "⛄"@, "⛅"@, "☔"@, "♔"@, "♕"@,
        "♖"@, "♗"@, "♘"@, "♙"@, "♚"@, "♛"@, "♜"@, "♝"@, "♞"@, "♟"@,
        "♨"@, "♩"@, "♪"@, "♫"@, "⚐"@, "⚑"@, "⚔"@, "⚖"@, "⚙"@, "⚠"@,
        "⌘"@, "⏎"@, "✄"@, "✆"@, "✈"@, "✉"@, "✌"@,
    ]
}

/// The glyph that a seed byte picks from a table: the byte counts the
/// table off, wrapping round.
pub open spec fn spec_glyph(table: Seq<Seq<char>>, byte: u8) -> Seq<char> {
    table[(byte as int) % (table.len() as int)]
}

/// The identicon of a seed: left arm, body, right arm and accessory,
/// picked by the first four bytes.
pub open spec fn spec_identicon(seed: Seq<u8>) -> Seq<char> {
    spec_glyph(spec_left_arms(), seed[0]) + spec_glyph(spec_bodies(), seed[1]) + spec_glyph(
        spec_right_arms(),
        seed[2],
    ) + spec_glyph(spec_accessories(), seed[3])
}

fn left_arms() -> (table: Vec<&'static str>)
    ensures
        table@.len() == 4,
        forall|i: int| 0 <= i < 4 ==> (#[trigger] table@[i])@ == spec_left_arms()[i],
{
    vec!["╔", "╚", "╰", "═"]
}

fn bodies() -> (table: Vec<&'static str>)
    ensures
        table@.len() == 6,
        forall|i: int| 0 <= i < 6 ==> (#[trigger] table@[i])@ == spec_bodies()[i],
{
    vec!["█", "░", "▒", "▓", "☺", "☻"]
}

fn right_arms() -> (table: Vec<&'static str>)
    ensures
        table@.len() == 4,
        forall|i: int| 0 <= i < 4 ==> (#[trigger] table@[i])@ == spec_right_arms()[i],
{
    vec!["╗", "╝", "╯", "═"]
}

fn accessories() -> (table: Vec<&'static str>)
    ensures
        table@.len() == 57,
        forall|i: int| 0 <= i < 57 ==> (#[trigger] table@[i])@ == spec_accessories()[i],
{
    vec![
        "◈", "◎", "◐", "◑", "◒", "◓", "☀", "☁", "☂", "☃",
        "☄", "★", "☆", "☎", "☏", "⎈", "⌂", "☘", "☢", "☣",
        "☕", "⌚", "⌛", "⏰", "⚡", "⛄", "⛅", "☔", "♔", "♕",
        "♖", "♗", "♘", "♙", "♚", "♛", "♜", "♝", "♞", "♟",
        "♨", "♩", "♪", "♫", "⚐", "⚑", "⚔", "⚖", "⚙", "⚠",
        "⌘", "⏎", "✄", "✆", "✈", "✉", "✌",
    ]
}

/// Appends the glyph that `byte` picks from `table`.
fn push_glyph(text: &mut String, table: &Vec<&'static str>, byte: u8, Ghost(spec_table): Ghost<
    Seq<Seq<char>>,
>)
    requires
        table@.len() > 0,
        table@.len() == spec_table.len(),
        forall|i: int| 0 <= i < table@.len() ==> (#[trigger] table@[i])@ == spec_table[i],
    ensures
        final(text)@ == old(text)@ + spec_glyph(spec_table, byte),
{
    let index: usize = (byte as usize) % table.len();
    text.append(table[index]);
}

/// The identicon of a seed of four bytes or more, and none of a shorter
/// one.
pub open spec fn spec_identicon_checked(seed: Seq<u8>) -> Option<Seq<char>> {
    if seed.len() >= 4 {
        Some(spec_identicon(seed))
    } else {
        None
    }
}

/// Renders the identicon of a seed: the first byte picks the left arm, the
/// second the body, the third the right arm and the fourth the accessory.
/// A seed of fewer than four bytes has no identicon.
pub fn render_identicon(seed: &[u8]) -> (identicon: Option<String>)
    ensures
        match identicon {
            Some(text) => spec_identicon_checked(seed@) == Some(text@),
            None => spec_identicon_checked(seed@) is None,
        },
{
    if seed.len() < 4 {
        return None;
    }
    let mut text = String::new();
    push_glyph(&mut text, &left_arms(), seed[0], Ghost(spec_left_arms()));
    push_glyph(&mut text, &bodies(), seed[1], Ghost(spec_bodies()));
    push_glyph(&mut text, &right_arms(), seed[2], Ghost(spec_right_arms()));
    push_glyph(&mut text, &accessories(), seed[3], Ghost(spec_accessories()));
    assert(text@ =~= spec_identicon(seed@));
    Some(text)
}

/// The identicon of a user: the one of the HMAC-SHA-256 tag of the
/// identity under the secret.
pub fn generate(user: &str, secret: &[u8]) -> (identicon: String)
    ensures
        identicon@ == spec_identicon(hmac_sha256_tag(secret@, encode_utf8(user@))),
{
    let mut seed = hmac_sha256(secret, user.as_bytes());
    let identicon = render_identicon(seed.as_slice());
    wipe(&mut seed);
    match identicon {
        Some(text) => text,
        None => vstd::pervasive::unreached(),
    }
}

} // verus!
