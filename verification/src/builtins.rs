//! The operations that compiled code calls into.

pub mod receive;
