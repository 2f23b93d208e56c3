//! Values exchanged with the engine: dates and facet results.

pub mod datetime;
pub mod response;
