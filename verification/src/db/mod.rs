//! The types of the member directory.

pub mod member;
