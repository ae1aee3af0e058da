//! Resolves the private key that signs for the current user and builds a
//! signed JSON web token from it.
//!
//! Resolution is a state machine: the library decides what is loaded next and
//! what each result means, and its caller does the reading. Token building
//! hands the key to the signing library and wraps what fails there in the
//! error of this library.

pub mod error;
pub mod key;
pub mod logging;
pub mod resolver;
pub mod text;
pub mod token;
