//! The items most callers need.

pub use crate::querybuilder::common::{CommonQueryBuilder, SolrCommonQueryBuilder};
pub use crate::querybuilder::dismax::{DisMaxQueryBuilder, SolrDisMaxQueryBuilder};
pub use crate::querybuilder::edismax::{EDisMaxQueryBuilder, SolrEDisMaxQueryBuilder};
pub use crate::querybuilder::q::{
    Aggregation, Operator, QueryExpression, QueryOperand, SolrQueryExpression,
    SolrQueryOperandModel,
};
pub use crate::querybuilder::sort::SortOrderBuilder;
pub use crate::querybuilder::standard::{SolrStandardQueryBuilder, StandardQueryBuilder};
