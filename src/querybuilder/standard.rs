//! Parameters of the standard query parser.

use crate::querybuilder::common::{with_single, ParamsModel, QueryParams, SolrCommonQueryBuilder};
use crate::querybuilder::q::{render, SolrQueryExpression};
use crate::text::{bool_string, bool_text};
use vstd::prelude::*;

verus! {

/// A builder of the parameters of the standard query parser.
pub trait SolrStandardQueryBuilder: SolrCommonQueryBuilder {
    /// Sets `q` to the text of `q`, which its operands have already escaped.
    fn q<E: SolrQueryExpression>(self, q: &E) -> (r: Self)
        ensures
            r.params() == self.params().set("q"@, render(q.node())),
            r.params().wf(),
    {
        with_single(self, "q", q.to_string())
    }

    /// Sets `df`, the default field.
    fn df(self, df: &str) -> (r: Self)
        ensures
            r.params() == self.params().set("df"@, df@),
            r.params().wf(),
    {
        with_single(self, "df", String::from_str(df))
    }

    /// Sets `sow`, whether to split the query on whitespace.
    fn sow(self, sow: bool) -> (r: Self)
        ensures
            r.params() == self.params().set("sow"@, bool_text(sow)),
            r.params().wf(),
    {
        with_single(self, "sow", bool_string(sow))
    }
}

/// Parameters of the standard query parser.
pub struct StandardQueryBuilder {
    params: QueryParams,
}

impl StandardQueryBuilder {
    /// A builder with no parameter.
    pub fn new() -> (r: Self)
        ensures
            r.params() == ParamsModel::empty(),
    {
        StandardQueryBuilder { params: QueryParams::new() }
    }
}

impl SolrCommonQueryBuilder for StandardQueryBuilder {
    closed spec fn params(&self) -> ParamsModel {
        self.params@
    }

    fn into_params(self) -> (r: QueryParams) {
        self.params
    }

    fn from_params(params: QueryParams) -> (r: Self) {
        params.check_wf();
        StandardQueryBuilder { params }
    }
}

impl SolrStandardQueryBuilder for StandardQueryBuilder {

}

} // verus!
