//! A stateless credential generator.
//!
//! From a user's identity, the user's master secret and a site descriptor
//! the library derives the credential of the site: a password, a login
//! name or the answer to a security question. Nothing is stored: the same
//! input gives the same credential, on every machine and at any time.
//!
//! The derivation runs through four stages, each in a module of its own:
//!
//! - [`profile`]: what each algorithm version pins;
//! - [`seed`]: the byte strings that are hashed, the salt of a user and
//!   the seed of a site;
//! - [`kdf`]: the master key, stretched from the secret under the salt;
//! - [`site_key`]: the site key, a keyed hash of the seed under the master
//!   key;
//! - [`alphabet`], [`template`] and [`render`]: the character classes, the
//!   template catalog, and the rendering of a site key through a template;
//! - [`pipeline`]: the stages composed.
//!
//! [`arg_parse`] resolves the options of a command line, [`counter`] reads
//! a counter, and [`identicon`] draws the four glyphs by which a user
//! recognises a mistyped secret.
//!
//! Every function is verified against its contract. Three calls leave the
//! library and are taken on trust, each behind a wrapper that says what
//! is claimed of it: scrypt and Argon2id in [`kdf`], HMAC-SHA-256 in
//! [`site_key`].

pub mod alphabet;
pub mod arg_parse;
pub mod counter;
pub mod error;
pub mod identicon;
pub mod kdf;
pub mod pipeline;
pub mod profile;
pub mod render;
pub mod seed;
pub mod site;
pub mod site_key;
pub mod template;
pub mod text;
pub mod wipe;
