//! Parsing and validation of `ocs://` links.
//!
//! An OCS (Open Collaboration Services) link hands a desktop client an
//! instruction to install or download a file, for example
//! `ocs://install?url=https%3A%2F%2Fexample.org%2Ficons.tar.gz&type=icons`.
//!
//! * [`parser`] turns a raw string into a [`types::ParsedOcsUrl`] or a
//!   precise [`types::OcsParsingError`];
//! * [`types`] holds the link, its parts and their canonical text;
//! * [`types::install_type`] maps install-type tokens to the path templates
//!   under which the files of each kind are installed;
//! * [`uri`] and [`text`] carry the URI and string primitives the parser
//!   stands on.
pub mod handler;
pub mod installer;
pub mod parser;
pub mod text;
pub mod types;
pub mod uri;
