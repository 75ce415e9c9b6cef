#![allow(non_camel_case_types, non_upper_case_globals, non_snake_case)]

pub mod appkit;
pub mod base;
pub mod bits;
pub mod flags;
pub mod foundation;
