//! Board support.

pub mod tb03f;
