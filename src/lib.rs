//! Marshalling of closures across a boundary that only carries 32-bit words.
pub mod describe;
pub mod guard;
pub mod trampoline;
pub mod words;
