//! A distributed lock on Redis: lock options and their repair rules, the
//! decisions of the single-node lock and of the multi-node (majority) lock,
//! and the text of the keys, tokens and connection addresses they use.
//!
//! The network round trips themselves are made by the caller; this crate
//! states what is sent and what each reply means.

pub mod option;
pub mod text;
pub mod utils;
pub mod command;
pub mod lock;
pub mod redlock;
