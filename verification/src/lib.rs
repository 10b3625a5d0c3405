//! Editor-protocol support for SwiftSC-Lang smart contracts.
//!
//! The library turns what the language front end finds in a document (a parse
//! error, or the warnings of the security analyzer) into positioned diagnostics,
//! keeps the text of every open document, and decides how the server answers
//! each protocol message. Transport, scheduling and the front end itself are
//! the caller's business: every function here goes from plain values to plain
//! values, and every contract is proved.

pub mod span;
pub mod diagnostic;
pub mod analysis;
pub mod store;
pub mod lsp;
