//! Migrates blog-post front matter from the YAML-delimited convention of one
//! static-site generator to the TOML-delimited convention of another.
//!
//! The verified core: the delimiter scanner, the key normalizer, the
//! scalar-or-list union, the date normalizer and the schema mapper.
pub mod dates;
pub mod document;
pub mod keys;
pub mod record;
pub mod scan;
