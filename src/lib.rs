//! Key material on the secp256k1 curve, derived from fixed bytes, and the
//! rules that decide whether a stored serialization of it still matches.
pub mod keys;
pub mod fixtures;
