//! The three requests that a pool serves.

pub mod deposit;
pub mod swap;
pub mod withdraw;
