//! Pipeline configuration: the document tree, its parsers and the typed
//! configuration decoded from it.

pub mod fields;
pub mod pipeline;
pub mod value;

