//! Verified core of the Vireon C ABI binding: the handle registry, the
//! translation of C arguments into connection settings, message and
//! error-text conversion, and the receive and batch rules.

pub mod builder;
pub mod client;
pub mod config;
pub mod error;
pub mod handle;
pub mod message;
pub mod pool;
pub mod string_h;
pub mod subscription;
