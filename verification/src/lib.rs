//! Verified core of a small collection of command-line programs: a vector
//! addition benchmark's argument checks and batching arithmetic, a file-size
//! converter, a book lending tracker, and a few numeric helpers.

pub mod bench;
pub mod books;
pub mod filesize;
pub mod guessing;
pub mod numbers;
pub mod ownership;
pub mod strings;
