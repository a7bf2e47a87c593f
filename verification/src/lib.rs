//! Verified core of a small command-line client for a webcomic site: it
//! resolves which comic to target (latest, or a bounded seeded random pick),
//! decodes the metadata the site returns, and resolves the local output path
//! for the downloaded image.  Network and filesystem work is left to the
//! surrounding application; everything that decides or computes lives here.

pub mod comic;
pub mod errors;
pub mod numfmt;
pub mod decode;
pub mod download;
pub mod fetch;
pub mod output;
pub mod random;
pub mod selector;
pub mod urls;
