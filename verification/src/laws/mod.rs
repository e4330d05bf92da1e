//! What the library's functions are for, in so many words: of each, what its result has to be
//! to its arguments, field by field and item by item.

pub mod changes;
pub mod merge;
pub mod objects;
pub mod portions;
pub mod sanity;
pub mod session;
pub mod state;
pub mod steps;
pub mod text;
pub mod transfer;
