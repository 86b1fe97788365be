//! Everything this library takes on trust: declarations of foreign types and thin wrappers
//! around foreign functions, each with the contract it is believed to meet.

pub mod archive;
pub mod digest;
pub mod ident;
pub mod json;
pub mod path;
