//! The decoder itself: command families and the dispatcher that drives them,
//! and the parameters of the link that the bytes come from.

pub mod config;
pub mod interpretables;
pub mod interpreters;
pub mod serial;
