//! The whole machine: a processor wired to a memory interconnect.

pub mod system;

pub use self::system::System;
