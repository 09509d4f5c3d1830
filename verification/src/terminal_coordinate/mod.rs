//! The coordinate of a turn's terminal: where its output ends, and which turn it is.
//!
//! The end of the output, C, is the identity of the coordinate. Where the output
//! started is provenance: it never changes the identity.

pub mod borrowed;
pub mod laws;
pub mod owned;
