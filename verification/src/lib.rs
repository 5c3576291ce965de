//! Locating a schema.org `Recipe` record inside JSON-LD documents and
//! normalising it into one canonical shape, whatever shape each field was
//! published in.

pub mod json;
pub mod recipe;
pub mod fields;
pub mod decode;
pub mod parse;
pub mod scan;
pub mod page;
pub mod laws;
pub mod encode;
