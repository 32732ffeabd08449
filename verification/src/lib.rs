//! A month of small verified exercises: each module takes one theme of everyday
//! Rust and states, as contracts, what its functions compute.

pub mod borrowing;
pub mod company;
pub mod datatypes;
pub mod decimal;
pub mod library;
pub mod lifetimes;
pub mod matching;
pub mod outcomes;
pub mod parsing;
pub mod text;
pub mod traits;
