mod bytes_util;
pub mod crypto;
pub mod errors;
pub mod hashing;
pub mod merkle;
