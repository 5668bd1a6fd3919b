//! Build provenance for a `version` subcommand.
//!
//! A [`VergenInfo`] is a flat record of strings captured while the program
//! was built. It can be rendered as a table of labelled lines or as a JSON
//! object, and a [`Version`] chooses between the two.

pub mod info;
pub mod json;
pub mod table;
pub mod version;

pub use info::VergenInfo;
pub use json::SerializationError;
pub use version::Version;
