//! Vanity address search: two address derivation strategies (a random
//! private key, or a CREATE3 deployment from a random salt), the score of an
//! address, the best-score tracker with its acceptance policy, the log line
//! of an accepted candidate, and the decisions of each search worker.

pub mod address;
pub mod config;
pub mod create3;
pub mod eoa;
pub mod generator;
pub mod log;
pub mod tracker;
pub mod worker;
