//! Builders of query text and of request parameters.

pub mod common;
pub mod dismax;
pub mod edismax;
pub mod facet;
pub mod q;
pub mod sanitizer;
pub mod sort;
pub mod standard;
