use hmac::{Hmac, Mac};
use mpw::identicon::{generate, render_identicon};
use sha2::Sha256;

const LEFT_ARMS: [&str; 4] = ["╔", "╚", "╰", "═"];
const BODIES: [&str; 6] = ["█", "░", "▒", "▓", "☺", "☻"];
const RIGHT_ARMS: [&str; 4] = ["╗", "╝", "╯", "═"];

fn seed_of(user: &str, secret: &[u8]) -> Vec<u8> {
    let mut mac = Hmac::<Sha256>::new_from_slice(secret).unwrap();
    mac.update(user.as_bytes());
    mac.finalize().into_bytes().to_vec()
}

#[test]
fn identicon_of_the_published_test_vector() {
    assert_eq!(generate("Robert Lee Mitchell", b"banana colored duckling"), "╚☻╯⛄");
}

#[test]
fn identicon_of_alice() {
    assert_eq!(generate("alice", b"correct horse battery staple"), "╚☻╯◑");
}

#[test]
fn identicon_is_four_glyphs() {
    let users = [("a", "b"), ("alice", "secret"), ("bob", ""), ("Zo\u{eb}", "pass word")];
    for (user, secret) in users {
        assert_eq!(generate(user, secret.as_bytes()).chars().count(), 4);
    }
}

#[test]
fn identicon_glyphs_are_picked_by_the_first_bytes_of_the_hmac() {
    for (user, secret) in [("alice", "one"), ("bob", "two"), ("carol", "three"), ("dave", "four")] {
        let seed = seed_of(user, secret.as_bytes());
        let identicon = generate(user, secret.as_bytes());
        let glyphs: Vec<String> = identicon.chars().map(|c| c.to_string()).collect();
        assert_eq!(glyphs[0], LEFT_ARMS[seed[0] as usize % 4]);
        assert_eq!(glyphs[1], BODIES[seed[1] as usize % 6]);
        assert_eq!(glyphs[2], RIGHT_ARMS[seed[2] as usize % 4]);
    }
}

#[test]
fn identicon_changes_with_the_secret() {
    let typed = generate("alice", b"correct horse battery staple");
    let mistyped: Vec<String> = [
        "correct horse battery stapel",
        "Correct horse battery staple",
        "correct horse battery staple ",
        "correcthorsebatterystaple",
    ]
    .iter()
    .map(|secret| generate("alice", secret.as_bytes()))
    .collect();
    assert!(mistyped.iter().any(|other| *other != typed));
}

#[test]
fn identicon_is_the_same_on_every_call() {
    assert_eq!(generate("alice", b"secret"), generate("alice", b"secret"));
}

#[test]
fn render_identicon_picks_a_glyph_for_each_of_four_bytes() {
    assert_eq!(render_identicon(&[0, 0, 0, 0]), Some("╔█╗◈".to_string()));
    assert_eq!(render_identicon(&[1, 5, 2, 56]), Some("╚☻╯✌".to_string()));
    assert_eq!(render_identicon(&[3, 1, 3, 23]), Some("═░═⏰".to_string()));
}

#[test]
fn render_identicon_wraps_round_each_table() {
    assert_eq!(render_identicon(&[4, 6, 4, 57]), Some("╔█╗◈".to_string()));
    assert_eq!(render_identicon(&[255, 255, 255, 255]), Some("═▓═☔".to_string()));
}

#[test]
fn render_identicon_reads_the_first_four_bytes_only() {
    assert_eq!(render_identicon(&[1, 5, 2, 56, 9, 9, 9]), render_identicon(&[1, 5, 2, 56]));
}

#[test]
fn render_identicon_of_a_short_seed_is_none() {
    assert_eq!(render_identicon(&[]), None);
    assert_eq!(render_identicon(&[1, 2, 3]), None);
}

#[test]
fn generate_is_render_identicon_of_the_hmac() {
    let seed = seed_of("alice", b"secret");
    assert_eq!(Some(generate("alice", b"secret")), render_identicon(&seed));
}
