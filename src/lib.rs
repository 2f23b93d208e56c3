//! Query construction for a document search engine: escaping of reserved
//! syntax, a boolean algebra of search clauses, facet and sort builders, and
//! parameter builders for the standard, dismax and extended dismax parsers.

pub mod client;
pub mod prelude;
pub mod querybuilder;
pub mod text;
pub mod types;
