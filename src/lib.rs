//! An in-memory login session: at most one account, whose password is kept
//! only as the lowercase hexadecimal SHA-512 digest of its bytes.

pub mod hasher;

pub mod session;

pub use session::{Account, Application};
