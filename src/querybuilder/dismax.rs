//! Parameters of the dismax query parser.

use crate::querybuilder::common::{
    with_multi, with_single, ParamsModel, QueryParams, SolrCommonQueryBuilder,
};
use crate::querybuilder::q::{render, SolrQueryExpression};
use crate::querybuilder::sanitizer::{escape_reserved, escaped};
use crate::text::{decimal, decimal_string};
use vstd::prelude::*;

verus! {

/// A builder of the parameters of the dismax query parser.
pub trait SolrDisMaxQueryBuilder: SolrCommonQueryBuilder {
    /// Sets `q` to the user's text `q` with its reserved characters escaped.
    fn q(self, q: String) -> (r: Self)
        ensures
            r.params() == self.params().set("q"@, escaped(q@)),
            r.params().wf(),
    {
        let text = escape_reserved(q.as_str());
        with_single(self, "q", text)
    }

    /// Sets `qf`, the fields queried with their boosts.
    fn qf(self, qf: &str) -> (r: Self)
        ensures
            r.params() == self.params().set("qf"@, qf@),
            r.params().wf(),
    {
        with_single(self, "qf", String::from_str(qf))
    }

    /// Sets `qs`, the slop of phrases in the query.
    fn qs(self, qs: u32) -> (r: Self)
        ensures
            r.params() == self.params().set("qs"@, decimal(qs as nat)),
            r.params().wf(),
    {
        with_single(self, "qs", decimal_string(qs))
    }

    /// Sets `pf`, the phrase fields.
    fn pf(self, pf: &str) -> (r: Self)
        ensures
            r.params() == self.params().set("pf"@, pf@),
            r.params().wf(),
    {
        with_single(self, "pf", String::from_str(pf))
    }

    /// Sets `ps`, the slop of the phrase fields.
    fn ps(self, ps: u32) -> (r: Self)
        ensures
            r.params() == self.params().set("ps"@, decimal(ps as nat)),
            r.params().wf(),
    {
        with_single(self, "ps", decimal_string(ps))
    }

    /// Sets `mm`, the minimum number of clauses that must match.
    fn mm(self, mm: &str) -> (r: Self)
        ensures
            r.params() == self.params().set("mm"@, mm@),
            r.params().wf(),
    {
        with_single(self, "mm", String::from_str(mm))
    }

    /// Sets `q.alt`, the query used when `q` is absent.
    fn q_alt<E: SolrQueryExpression>(self, q: &E) -> (r: Self)
        ensures
            r.params() == self.params().set("q.alt"@, render(q.node())),
            r.params().wf(),
    {
        with_single(self, "q.alt", q.to_string())
    }

    /// Sets `tie`, the tie breaker, given as its decimal text.
    fn tie(self, tie: &str) -> (r: Self)
        ensures
            r.params() == self.params().set("tie"@, tie@),
            r.params().wf(),
    {
        with_single(self, "tie", String::from_str(tie))
    }

    /// Adds one `bq` boost query; each call adds one more.
    fn bq<E: SolrQueryExpression>(self, bq: &E) -> (r: Self)
        ensures
            r.params() == self.params().add("bq"@, render(bq.node())),
            r.params().wf(),
    {
        with_multi(self, "bq", bq.to_string())
    }

    /// Adds one `bf` boost function; each call adds one more.
    fn bf(self, bf: &str) -> (r: Self)
        ensures
            r.params() == self.params().add("bf"@, bf@),
            r.params().wf(),
    {
        with_multi(self, "bf", String::from_str(bf))
    }
}

/// Parameters of the dismax query parser.
pub struct DisMaxQueryBuilder {
    params: QueryParams,
}

impl DisMaxQueryBuilder {
    /// A builder with `defType=dismax` alone.
    pub fn new() -> (r: Self)
        ensures
            r.params() == ParamsModel::empty().set("defType"@, "dismax"@),
    {
        let params = QueryParams::new().set(String::from_str("defType"), String::from_str("dismax"));
        DisMaxQueryBuilder { params }
    }
}

impl SolrCommonQueryBuilder for DisMaxQueryBuilder {
    closed spec fn params(&self) -> ParamsModel {
        self.params@
    }

    fn into_params(self) -> (r: QueryParams) {
        self.params
    }

    fn from_params(params: QueryParams) -> (r: Self) {
        params.check_wf();
        DisMaxQueryBuilder { params }
    }
}

impl SolrDisMaxQueryBuilder for DisMaxQueryBuilder {

}

} // verus!
