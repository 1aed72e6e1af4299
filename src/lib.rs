//! A multi-resolution retention sieve: decides which timestamps of a stream to keep
//! under a policy of the form "at most N distinct seconds, M distinct minutes, ...,
//! Y distinct years".

pub mod bucket;
pub mod sieve;
pub mod time;
