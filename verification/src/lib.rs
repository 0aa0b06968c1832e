//! Publishing backend for quiz polls and tips.
//!
//! Operators register categories (destination channels), author polls and
//! tips against them, and a publish step hands the oldest pending item of
//! each kind to the messaging platform.

pub mod answer;
pub mod category;
pub mod error;
pub mod poll;
pub mod publish;
pub mod store;
pub mod table;
pub mod telegram;
pub mod tip;
