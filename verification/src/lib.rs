//! Credential store for a package-registry login flow.
//!
//! The library holds the verified logic of the flow: resolving the
//! configuration directory, trimming and validating the token read from
//! standard input, merging the token into the credential document under the
//! `registry` section while preserving every other field, and composing the
//! exact diagnostic messages. Reading standard input, touching the file
//! system and looking up environment variables are left to the thin
//! unverified layer around the library.

pub mod error;
pub mod paths;
pub mod prompt;
pub mod store;
