//! Decoder for the binary command protocol of thermal receipt printers.
//!
//! A captured byte buffer is scanned once, from left to right. Each byte that
//! introduces a registered command family starts a working copy of that
//! family's prototype, which takes bytes until it declines one; complete
//! commands are collected in the order in which they were found.

pub mod engine;
pub mod interop;
