//! Interrupt-driven USB serial echo controller: the decisions of the
//! interrupt routine, the once-only driver registry, and the byte folding
//! applied to echoed data.

pub mod ascii;
pub mod config;
pub mod echo;
pub mod registry;
pub mod slot;
