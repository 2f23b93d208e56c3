//! Parameters of the extended dismax query parser.

use crate::querybuilder::common::{with_single, ParamsModel, QueryParams, SolrCommonQueryBuilder};
use crate::querybuilder::dismax::SolrDisMaxQueryBuilder;
use crate::text::{bool_string, bool_text, decimal, decimal_string};
use vstd::prelude::*;

verus! {

/// A builder of the parameters of the extended dismax query parser, which
/// takes every dismax parameter and these.
pub trait SolrEDisMaxQueryBuilder: SolrDisMaxQueryBuilder {
    /// Sets `sow`, whether to split the query on whitespace.
    fn sow(self, sow: bool) -> (r: Self)
        ensures
            r.params() == self.params().set("sow"@, bool_text(sow)),
            r.params().wf(),
    {
        with_single(self, "sow", bool_string(sow))
    }

    /// Sets `boost`, a multiplicative boost function.
    fn boost(self, boost: &str) -> (r: Self)
        ensures
            r.params() == self.params().set("boost"@, boost@),
            r.params().wf(),
    {
        with_single(self, "boost", String::from_str(boost))
    }

    /// Sets `lowercaseOperators`, whether `and` and `or` act as operators.
    fn lowercase_operators(self, flag: bool) -> (r: Self)
        ensures
            r.params() == self.params().set("lowercaseOperators"@, bool_text(flag)),
            r.params().wf(),
    {
        with_single(self, "lowercaseOperators", bool_string(flag))
    }

    /// Sets `pf2`, the fields boosted on word pairs.
    fn pf2(self, pf: &str) -> (r: Self)
        ensures
            r.params() == self.params().set("pf2"@, pf@),
            r.params().wf(),
    {
        with_single(self, "pf2", String::from_str(pf))
    }

    /// Sets `ps2`, the slop of `pf2`.
    fn ps2(self, ps: u32) -> (r: Self)
        ensures
            r.params() == self.params().set("ps2"@, decimal(ps as nat)),
            r.params().wf(),
    {
        with_single(self, "ps2", decimal_string(ps))
    }

    /// Sets `pf3`, the fields boosted on word triples.
    fn pf3(self, pf: &str) -> (r: Self)
        ensures
            r.params() == self.params().set("pf3"@, pf@),
            r.params().wf(),
    {
        with_single(self, "pf3", String::from_str(pf))
    }

    /// Sets `ps3`, the slop of `pf3`.
    fn ps3(self, ps: u32) -> (r: Self)
        ensures
            r.params() == self.params().set("ps3"@, decimal(ps as nat)),
            r.params().wf(),
    {
        with_single(self, "ps3", decimal_string(ps))
    }

    /// Sets `stopwords`, whether the stop filter applies.
    fn stopwords(self, flag: bool) -> (r: Self)
        ensures
            r.params() == self.params().set("stopwords"@, bool_text(flag)),
            r.params().wf(),
    {
        with_single(self, "stopwords", bool_string(flag))
    }

    /// Sets `uf`, the fields the user may query.
    fn uf(self, uf: &str) -> (r: Self)
        ensures
            r.params() == self.params().set("uf"@, uf@),
            r.params().wf(),
    {
        with_single(self, "uf", String::from_str(uf))
    }
}

/// Parameters of the extended dismax query parser.
pub struct EDisMaxQueryBuilder {
    params: QueryParams,
}

impl EDisMaxQueryBuilder {
    /// A builder with `defType=edismax` alone.
    pub fn new() -> (r: Self)
        ensures
            r.params() == ParamsModel::empty().set("defType"@, "edismax"@),
    {
        let params = QueryParams::new().set(
            String::from_str("defType"),
            String::from_str("edismax"),
        );
        EDisMaxQueryBuilder { params }
    }
}

impl SolrCommonQueryBuilder for EDisMaxQueryBuilder {
    closed spec fn params(&self) -> ParamsModel {
        self.params@
    }

    fn into_params(self) -> (r: QueryParams) {
        self.params
    }

    fn from_params(params: QueryParams) -> (r: Self) {
        params.check_wf();
        EDisMaxQueryBuilder { params }
    }
}

impl SolrDisMaxQueryBuilder for EDisMaxQueryBuilder {

}

impl SolrEDisMaxQueryBuilder for EDisMaxQueryBuilder {

}

} // verus!
