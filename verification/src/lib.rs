//! Encrypted profile matching: similarity metrics between a user's private
//! attribute profile and an advertiser's cleartext target profile, computed
//! homomorphically so that only the profile owner can read the results.

pub mod backend;
pub mod bits;
pub mod decryptor;
pub mod error;
pub mod evaluator;
pub mod pack;
pub mod profile;
pub mod timing;
