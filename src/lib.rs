#![allow(non_camel_case_types)]

pub mod errors;
pub mod types;
