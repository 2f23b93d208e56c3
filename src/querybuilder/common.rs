//! Parameters shared by every query parser, and the store that holds the
//! parameters of a request until they are built into a flat list.

use crate::querybuilder::facet::{pairs_view, FacetBuilder};
use crate::querybuilder::q::{render, Operator, SolrQueryExpression};
use crate::querybuilder::sanitizer::{escape_reserved, escaped};
use crate::querybuilder::sort::SortOrderBuilder;
use crate::text::{decimal, decimal_string, join, texts};
use vstd::prelude::*;

verus! {

/// Index of the first entry of `s` with key `k`, or -1 when there is none.
pub open spec fn key_index<V>(s: Seq<(Seq<char>, V)>, k: Seq<char>) -> int
    decreases s.len(),
{
    if s.len() == 0 {
        -1
    } else {
        let i = key_index(s.drop_last(), k);
        if i >= 0 {
            i
        } else if s.last().0 == k {
            s.len() - 1
        } else {
            -1
        }
    }
}

/// No two entries of `s` have the same key.
pub open spec fn unique_keys<V>(s: Seq<(Seq<char>, V)>) -> bool {
    forall|i: int, j: int| 0 <= i < j < s.len() ==> s[i].0 != s[j].0
}

/// `s` with the value of key `k` replaced by `v`, or `(k, v)` appended when
/// `k` has no entry yet.
pub open spec fn set_param(s: Seq<(Seq<char>, Seq<char>)>, k: Seq<char>, v: Seq<char>) -> Seq<
    (Seq<char>, Seq<char>),
> {
    let i = key_index(s, k);
    if i >= 0 {
        s.update(i, (k, v))
    } else {
        s.push((k, v))
    }
}

/// `m` with `v` appended to the values of key `k`, or `(k, [v])` appended
/// when `k` has no entry yet.
pub open spec fn add_param(m: Seq<(Seq<char>, Seq<Seq<char>>)>, k: Seq<char>, v: Seq<char>) -> Seq<
    (Seq<char>, Seq<Seq<char>>),
> {
    let i = key_index(m, k);
    if i >= 0 {
        m.update(i, (k, m[i].1.push(v)))
    } else {
        m.push((k, seq![v]))
    }
}

/// `(k, v)` for each value `v` of `vs`, in order.
pub open spec fn pairs_of(k: Seq<char>, vs: Seq<Seq<char>>) -> Seq<(Seq<char>, Seq<char>)> {
    vs.map_values(|v: Seq<char>| (k, v))
}

/// One pair for each value of each key, keys in order and values in the
/// order they were added.
pub open spec fn expand(m: Seq<(Seq<char>, Seq<Seq<char>>)>) -> Seq<(Seq<char>, Seq<char>)>
    decreases m.len(),
{
    if m.len() == 0 {
        Seq::empty()
    } else {
        expand(m.drop_last()) + pairs_of(m.last().0, m.last().1)
    }
}

/// Model of the parameters of a request: single-valued parameters, one value
/// per key, and multi-valued ones, a list of values per key.
pub struct ParamsModel {
    pub single: Seq<(Seq<char>, Seq<char>)>,
    pub multi: Seq<(Seq<char>, Seq<Seq<char>>)>,
}

impl ParamsModel {
    /// No parameter.
    pub open spec fn empty() -> ParamsModel {
        ParamsModel { single: Seq::empty(), multi: Seq::empty() }
    }

    /// The single-valued parameter `k` set to `v`, replacing its value.
    pub open spec fn set(self, k: Seq<char>, v: Seq<char>) -> ParamsModel {
        ParamsModel { single: set_param(self.single, k, v), ..self }
    }

    /// The value `v` added to the multi-valued parameter `k`.
    pub open spec fn add(self, k: Seq<char>, v: Seq<char>) -> ParamsModel {
        ParamsModel { multi: add_param(self.multi, k, v), ..self }
    }

    /// The flat list: the single-valued parameters, then one pair per value
    /// of the multi-valued ones.
    pub open spec fn pairs(self) -> Seq<(Seq<char>, Seq<char>)> {
        self.single + expand(self.multi)
    }

    /// Keys are unique among the single-valued and among the multi-valued
    /// parameters.
    pub open spec fn wf(self) -> bool {
        unique_keys(self.single) && unique_keys(self.multi)
    }
}

proof fn lemma_key_index<V>(s: Seq<(Seq<char>, V)>, k: Seq<char>)
    ensures
        -1 <= key_index(s, k) < s.len(),
        key_index(s, k) >= 0 ==> s[key_index(s, k)].0 == k,
        forall|j: int|
            0 <= j < s.len() && (key_index(s, k) < 0 || j < key_index(s, k)) ==> #[trigger] s[j].0
                != k,
    decreases s.len(),
{
    if s.len() > 0 {
        lemma_key_index(s.drop_last(), k);
        assert forall|j: int|
            0 <= j < s.len() - 1 implies #[trigger] s[j] == s.drop_last()[j] by {}
    }
}

/// The first index of `k` in `s` is `i` when `s[i]` has key `k` and no entry
/// before it does.
proof fn lemma_key_index_at<V>(s: Seq<(Seq<char>, V)>, k: Seq<char>, i: int)
    requires
        0 <= i < s.len(),
        s[i].0 == k,
        forall|j: int| 0 <= j < i ==> #[trigger] s[j].0 != k,
    ensures
        key_index(s, k) == i,
{
    lemma_key_index(s, k);
}

proof fn lemma_key_index_none<V>(s: Seq<(Seq<char>, V)>, k: Seq<char>)
    requires
        forall|j: int| 0 <= j < s.len() ==> #[trigger] s[j].0 != k,
    ensures
        key_index(s, k) == -1,
{
    lemma_key_index(s, k);
}

/// The flat pairs of one more key.
proof fn lemma_expand_step(m: Seq<(Seq<char>, Seq<Seq<char>>)>, i: int)
    requires
        0 <= i < m.len(),
    ensures
        expand(m.take(i + 1)) == expand(m.take(i)) + pairs_of(m[i].0, m[i].1),
{
    assert(m.take(i + 1).drop_last() =~= m.take(i));
}

/// The store of the parameters of a request.
pub struct QueryParams {
    single: Vec<(String, String)>,
    multi: Vec<(String, Vec<String>)>,
}

/// The texts of a list of multi-valued parameters.
pub open spec fn multi_view(v: Seq<(String, Vec<String>)>) -> Seq<(Seq<char>, Seq<Seq<char>>)> {
    v.map_values(|e: (String, Vec<String>)| (e.0@, texts(e.1@)))
}

impl View for QueryParams {
    type V = ParamsModel;

    closed spec fn view(&self) -> ParamsModel {
        ParamsModel { single: pairs_view(self.single@), multi: multi_view(self.multi@) }
    }
}

impl QueryParams {
    #[verifier::type_invariant]
    closed spec fn inv(&self) -> bool {
        self@.wf()
    }

    /// Every store holds unique keys; calling this brings the fact into a
    /// proof.
    pub(crate) fn check_wf(&self)
        ensures
            self@.wf(),
    {
        proof {
            use_type_invariant(self);
        }
    }

    /// A store with no parameter.
    pub fn new() -> (r: QueryParams)
        ensures
            r@ == ParamsModel::empty(),
    {
        let r = QueryParams { single: Vec::new(), multi: Vec::new() };
        proof {
            assert(pairs_view(r.single@) =~= Seq::empty());
            assert(multi_view(r.multi@) =~= Seq::empty());
        }
        r
    }

    /// Sets the single-valued parameter `key` to `value`.
    pub fn set(self, key: String, value: String) -> (r: QueryParams)
        ensures
            r@ == self@.set(key@, value@),
    {
        proof {
            use_type_invariant(&self);
        }
        let ghost start = self@;
        let QueryParams { mut single, multi } = self;
        let ghost s = pairs_view(single@);
        let mut i: usize = 0;
        while i < single.len()
            invariant
                0 <= i <= single@.len(),
                s == pairs_view(single@),
                start == (ParamsModel { single: s, multi: multi_view(multi@) }),
                start == self@,
                start.wf(),
                forall|j: int| 0 <= j < i ==> #[trigger] s[j].0 != key@,
            decreases single@.len() - i,
        {
            if single[i].0 == key {
                proof {
                    lemma_key_index_at(s, key@, i as int);
                }
                single[i] = (key, value);
                proof {
                    assert(pairs_view(single@) =~= set_param(s, key@, value@));
                    assert(forall|j: int|
                        0 <= j < s.len() ==> (#[trigger] pairs_view(single@)[j]).0 == s[j].0);
                }
                return QueryParams { single, multi };
            }
            i = i + 1;
        }
        proof {
            lemma_key_index_none(s, key@);
        }
        single.push((key, value));
        proof {
            assert(pairs_view(single@) =~= set_param(s, key@, value@));
            assert(forall|j: int|
                0 <= j < s.len() ==> (#[trigger] pairs_view(single@)[j]).0 == s[j].0);
        }
        QueryParams { single, multi }
    }

    /// Adds `value` to the values of the multi-valued parameter `key`.
    pub fn add(self, key: String, value: String) -> (r: QueryParams)
        ensures
            r@ == self@.add(key@, value@),
    {
        proof {
            use_type_invariant(&self);
        }
        let ghost start = self@;
        let QueryParams { single, mut multi } = self;
        let ghost m = multi_view(multi@);
        let mut i: usize = 0;
        while i < multi.len()
            invariant
                0 <= i <= multi@.len(),
                m == multi_view(multi@),
                start == (ParamsModel { single: pairs_view(single@), multi: m }),
                start == self@,
                start.wf(),
                forall|j: int| 0 <= j < i ==> #[trigger] m[j].0 != key@,
            decreases multi@.len() - i,
        {
            if multi[i].0 == key {
                proof {
                    lemma_key_index_at(m, key@, i as int);
                }
                let ghost before = multi@[i as int].1@;
                multi[i].1.push(value);
                proof {
                    assert(texts(multi@[i as int].1@) =~= texts(before).push(value@));
                    assert(multi_view(multi@) =~= add_param(m, key@, value@));
                    assert(forall|j: int|
                        0 <= j < m.len() ==> (#[trigger] multi_view(multi@)[j]).0 == m[j].0);
                }
                return QueryParams { single, multi };
            }
            i = i + 1;
        }
        proof {
            lemma_key_index_none(m, key@);
        }
        let mut values: Vec<String> = Vec::new();
        values.push(value);
        multi.push((key, values));
        proof {
            assert(texts(values@) =~= seq![value@]);
            assert(multi_view(multi@) =~= add_param(m, key@, value@));
            assert(forall|j: int|
                0 <= j < m.len() ==> (#[trigger] multi_view(multi@)[j]).0 == m[j].0);
        }
        QueryParams { single, multi }
    }

    /// The flat list of parameters.
    pub fn build(self) -> (r: Vec<(String, String)>)
        ensures
            pairs_view(r@) == self@.pairs(),
    {
        let ghost m = multi_view(self.multi@);
        let mut result = self.single;
        let multi = self.multi;
        let ghost s = pairs_view(result@);
        let mut i: usize = 0;
        while i < multi.len()
            invariant
                0 <= i <= multi@.len(),
                m == multi_view(multi@),
                pairs_view(result@) == s + expand(m.take(i as int)),
            decreases multi@.len() - i,
        {
            proof {
                lemma_expand_step(m, i as int);
            }
            let ghost start = pairs_view(result@);
            let mut j: usize = 0;
            while j < multi[i].1.len()
                invariant
                    0 <= i < multi@.len(),
                    0 <= j <= multi@[i as int].1@.len(),
                    m == multi_view(multi@),
                    pairs_view(result@) == start + pairs_of(m[i as int].0, m[i as int].1.take(
                        j as int,
                    )),
                decreases multi@[i as int].1@.len() - j,
            {
                let ghost before = pairs_view(result@);
                result.push((multi[i].0.clone(), multi[i].1[j].clone()));
                proof {
                    assert(pairs_of(m[i as int].0, m[i as int].1.take(j + 1)) =~= pairs_of(
                        m[i as int].0,
                        m[i as int].1.take(j as int),
                    ).push((m[i as int].0, m[i as int].1[j as int])));
                    assert(pairs_view(result@) =~= before.push(
                        (m[i as int].0, m[i as int].1[j as int]),
                    ));
                }
                j = j + 1;
            }
            proof {
                assert(m[i as int].1.take(j as int) =~= m[i as int].1);
            }
            i = i + 1;
        }
        proof {
            assert(m.take(i as int) =~= m);
        }
        result
    }
}

/// The key of the facet parameter that may be repeated.
pub open spec fn facet_field_key() -> Seq<char> {
    "facet.field"@
}

/// `p` with the pairs of a facet merged in, in order: `facet.field` is added
/// to the multi-valued parameters, every other key set as single-valued.
pub open spec fn merge_facet(p: ParamsModel, pairs: Seq<(Seq<char>, Seq<char>)>) -> ParamsModel
    decreases pairs.len(),
{
    if pairs.len() == 0 {
        p
    } else {
        let q = merge_facet(p, pairs.drop_last());
        let (k, v) = pairs.last();
        if k == facet_field_key() {
            q.add(k, v)
        } else {
            q.set(k, v)
        }
    }
}

/// The `q.op` value of an operator.
pub open spec fn op_text(op: Operator) -> Seq<char> {
    match op {
        Operator::AND => "AND"@,
        Operator::OR => "OR"@,
    }
}

/// The two debug parameters set.
pub open spec fn with_debug(p: ParamsModel) -> ParamsModel {
    p.set("debug"@, "all"@).set("debug.explain.structured"@, "true"@)
}

/// A builder of the parameters that every query parser takes. Each setter
/// consumes the builder and returns it; `build` ends its use.
pub trait SolrCommonQueryBuilder: Sized {
    /// The parameters set so far.
    spec fn params(&self) -> ParamsModel;

    /// The store of the parameters set so far.
    fn into_params(self) -> (r: QueryParams)
        ensures
            r@ == self.params(),
    ;

    /// A builder holding `params`.
    fn from_params(params: QueryParams) -> (r: Self)
        ensures
            r.params() == params@,
            r.params().wf(),
    ;

    /// Sets `sort` to the entries of `sort` joined by commas.
    fn sort(self, sort: &SortOrderBuilder) -> (r: Self)
        ensures
            r.params() == self.params().set("sort"@, join(sort@, ","@)),
            r.params().wf(),
    {
        let p = self.into_params().set(String::from_str("sort"), sort.build());
        Self::from_params(p)
    }

    /// Sets `start`, the offset of the first document returned.
    fn start(self, start: u32) -> (r: Self)
        ensures
            r.params() == self.params().set("start"@, decimal(start as nat)),
            r.params().wf(),
    {
        let p = self.into_params().set(String::from_str("start"), decimal_string(start));
        Self::from_params(p)
    }

    /// Sets `rows`, the number of documents returned.
    fn rows(self, rows: u32) -> (r: Self)
        ensures
            r.params() == self.params().set("rows"@, decimal(rows as nat)),
            r.params().wf(),
    {
        let p = self.into_params().set(String::from_str("rows"), decimal_string(rows));
        Self::from_params(p)
    }

    /// Adds one `fq` filter query; each call adds one more.
    fn fq<E: SolrQueryExpression>(self, fq: &E) -> (r: Self)
        ensures
            r.params() == self.params().add("fq"@, render(fq.node())),
            r.params().wf(),
    {
        let p = self.into_params().add(String::from_str("fq"), fq.to_string());
        Self::from_params(p)
    }

    /// Sets `fl`, the list of fields returned.
    fn fl(self, fl: String) -> (r: Self)
        ensures
            r.params() == self.params().set("fl"@, fl@),
            r.params().wf(),
    {
        let p = self.into_params().set(String::from_str("fl"), fl);
        Self::from_params(p)
    }

    /// Sets `debug=all` and `debug.explain.structured=true`.
    fn debug(self) -> (r: Self)
        ensures
            r.params() == with_debug(self.params()),
            r.params().wf(),
    {
        let p = self.into_params().set(String::from_str("debug"), String::from_str("all"));
        let p = p.set(String::from_str("debug.explain.structured"), String::from_str("true"));
        Self::from_params(p)
    }

    /// Sets `wt`, the response format.
    fn wt(self, wt: &str) -> (r: Self)
        ensures
            r.params() == self.params().set("wt"@, wt@),
            r.params().wf(),
    {
        let p = self.into_params().set(String::from_str("wt"), String::from_str(wt));
        Self::from_params(p)
    }

    /// Sets `facet=true` and merges in the parameters of `facet`.
    fn facet<F: FacetBuilder>(self, facet: &F) -> (r: Self)
        ensures
            r.params() == merge_facet(self.params().set("facet"@, "true"@), facet.pairs()),
            r.params().wf(),
    {
        let mut p = self.into_params().set(String::from_str("facet"), String::from_str("true"));
        let ghost base = p@;
        let pairs = facet.build();
        let ghost all = pairs_view(pairs@);
        let mut i: usize = 0;
        while i < pairs.len()
            invariant
                0 <= i <= pairs@.len(),
                all == pairs_view(pairs@),
                all == facet.pairs(),
                p@ == merge_facet(base, all.take(i as int)),
            decreases pairs@.len() - i,
        {
            proof {
                assert(all.take(i + 1).drop_last() =~= all.take(i as int));
            }
            let key = pairs[i].0.clone();
            let value = pairs[i].1.clone();
            let field_key = String::from_str("facet.field");
            if key == field_key {
                p = p.add(key, value);
            } else {
                p = p.set(key, value);
            }
            i = i + 1;
        }
        proof {
            assert(all.take(i as int) =~= all);
        }
        Self::from_params(p)
    }

    /// Sets `q.op`, the default operator between clauses.
    fn op(self, op: Operator) -> (r: Self)
        ensures
            r.params() == self.params().set("q.op"@, op_text(op)),
            r.params().wf(),
    {
        let text = match op {
            Operator::AND => String::from_str("AND"),
            Operator::OR => String::from_str("OR"),
        };
        let p = self.into_params().set(String::from_str("q.op"), text);
        Self::from_params(p)
    }

    /// The flat list of parameters: the single-valued ones, then one pair
    /// per value of the multi-valued ones.
    fn build(self) -> (r: Vec<(String, String)>)
        ensures
            pairs_view(r@) == self.params().pairs(),
    {
        self.into_params().build()
    }

    /// `s` with its reserved characters escaped.
    fn sanitize(&self, s: &str) -> (r: String)
        ensures
            r@ == escaped(s@),
    {
        escape_reserved(s)
    }
}

/// Parameters common to every query parser.
pub struct CommonQueryBuilder {
    params: QueryParams,
}

impl CommonQueryBuilder {
    /// A builder with no parameter.
    pub fn new() -> (r: Self)
        ensures
            r.params() == ParamsModel::empty(),
    {
        CommonQueryBuilder { params: QueryParams::new() }
    }
}

impl SolrCommonQueryBuilder for CommonQueryBuilder {
    closed spec fn params(&self) -> ParamsModel {
        self.params@
    }

    fn into_params(self) -> (r: QueryParams) {
        self.params
    }

    fn from_params(params: QueryParams) -> (r: Self) {
        params.check_wf();
        CommonQueryBuilder { params }
    }
}

/// `b` with the single-valued parameter `key` set to `value`.
pub(crate) fn with_single<B: SolrCommonQueryBuilder>(b: B, key: &str, value: String) -> (r: B)
    ensures
        r.params() == b.params().set(key@, value@),
        r.params().wf(),
{
    let p = b.into_params().set(String::from_str(key), value);
    B::from_params(p)
}

/// `b` with `value` added to the multi-valued parameter `key`.
pub(crate) fn with_multi<B: SolrCommonQueryBuilder>(b: B, key: &str, value: String) -> (r: B)
    ensures
        r.params() == b.params().add(key@, value@),
        r.params().wf(),
{
    let p = b.into_params().add(String::from_str(key), value);
    B::from_params(p)
}

proof fn lemma_key_index_same_keys<V, W>(s: Seq<(Seq<char>, V)>, t: Seq<(Seq<char>, W)>, k: Seq<char>)
    requires
        s.len() == t.len(),
        forall|j: int| 0 <= j < s.len() ==> #[trigger] s[j].0 == t[j].0,
    ensures
        key_index(s, k) == key_index(t, k),
{
    lemma_key_index(s, k);
    lemma_key_index(t, k);
    let (a, b) = (key_index(s, k), key_index(t, k));
    if a >= 0 {
        assert(t[a].0 == k);
    }
    if b >= 0 {
        assert(s[b].0 == k);
    }
}

/// After `k` is set to `v`, the first entry of `k` holds `v`.
proof fn lemma_set_param_holds(s: Seq<(Seq<char>, Seq<char>)>, k: Seq<char>, v: Seq<char>)
    ensures
        key_index(set_param(s, k, v), k) >= 0,
        set_param(s, k, v)[key_index(set_param(s, k, v), k)] == (k, v),
{
    lemma_key_index(s, k);
    let t = set_param(s, k, v);
    if key_index(s, k) >= 0 {
        lemma_key_index_same_keys(s, t, k);
    } else {
        lemma_key_index_at(t, k, s.len() as int);
    }
}

/// Setting `k2` leaves the first entry of every other key where it was.
proof fn lemma_set_param_other(
    s: Seq<(Seq<char>, Seq<char>)>,
    k2: Seq<char>,
    v2: Seq<char>,
    k: Seq<char>,
)
    requires
        k != k2,
    ensures
        key_index(set_param(s, k2, v2), k) == key_index(s, k),
        key_index(s, k) >= 0 ==> set_param(s, k2, v2)[key_index(s, k)] == s[key_index(s, k)],
{
    lemma_key_index(s, k);
    lemma_key_index(s, k2);
    let t = set_param(s, k2, v2);
    if key_index(s, k2) >= 0 {
        lemma_key_index_same_keys(s, t, k);
    } else {
        lemma_key_index(t, k);
        if key_index(s, k) >= 0 {
            lemma_key_index_at(t, k, key_index(s, k));
        } else {
            lemma_key_index_none(t, k);
        }
    }
}

/// Setting a key to the value its first entry already holds changes nothing.
proof fn lemma_set_param_same(s: Seq<(Seq<char>, Seq<char>)>, k: Seq<char>, v: Seq<char>)
    requires
        key_index(s, k) >= 0,
        s[key_index(s, k)] == (k, v),
    ensures
        set_param(s, k, v) == s,
{
    lemma_key_index(s, k);
    assert(s.update(key_index(s, k), (k, v)) =~= s);
}

/// Asking for the debug parameters twice gives the same two parameters as
/// asking once.
pub proof fn lemma_debug_idempotent(p: ParamsModel)
    ensures
        with_debug(with_debug(p)) == with_debug(p),
        with_debug(p).pairs() == with_debug(with_debug(p)).pairs(),
{
    let a = "debug"@;
    let b = "debug.explain.structured"@;
    assert(a != b) by {
        reveal_strlit("debug");
        reveal_strlit("debug.explain.structured");
        assert(a.len() != b.len());
    }
    let s1 = set_param(p.single, a, "all"@);
    let s2 = set_param(s1, b, "true"@);
    lemma_set_param_holds(p.single, a, "all"@);
    lemma_set_param_other(s1, b, "true"@, a);
    lemma_set_param_same(s2, a, "all"@);
    lemma_set_param_holds(s1, b, "true"@);
    lemma_set_param_same(s2, b, "true"@);
}

/// The values of the pairs of `ps` whose key is `k`, in order.
pub open spec fn values_for(ps: Seq<(Seq<char>, Seq<char>)>, k: Seq<char>) -> Seq<Seq<char>>
    decreases ps.len(),
{
    if ps.len() == 0 {
        Seq::empty()
    } else if ps.last().0 == k {
        values_for(ps.drop_last(), k).push(ps.last().1)
    } else {
        values_for(ps.drop_last(), k)
    }
}

/// The values stored for `k` among multi-valued parameters.
pub open spec fn stored_values(m: Seq<(Seq<char>, Seq<Seq<char>>)>, k: Seq<char>) -> Seq<Seq<char>> {
    if key_index(m, k) >= 0 {
        m[key_index(m, k)].1
    } else {
        Seq::empty()
    }
}

proof fn lemma_values_for_concat(
    a: Seq<(Seq<char>, Seq<char>)>,
    b: Seq<(Seq<char>, Seq<char>)>,
    k: Seq<char>,
)
    ensures
        values_for(a + b, k) == values_for(a, k) + values_for(b, k),
    decreases b.len(),
{
    if b.len() == 0 {
        assert(a + b =~= a);
        assert(values_for(a, k) + Seq::empty() =~= values_for(a, k));
    } else {
        lemma_values_for_concat(a, b.drop_last(), k);
        assert((a + b).drop_last() =~= a + b.drop_last());
        if b.last().0 == k {
            assert(values_for(a, k) + values_for(b.drop_last(), k).push(b.last().1) =~= (values_for(
                a,
                k,
            ) + values_for(b.drop_last(), k)).push(b.last().1));
        }
    }
}

proof fn lemma_values_for_pairs_of(k2: Seq<char>, vs: Seq<Seq<char>>, k: Seq<char>)
    ensures
        values_for(pairs_of(k2, vs), k) == if k2 == k {
            vs
        } else {
            Seq::empty()
        },
    decreases vs.len(),
{
    if vs.len() > 0 {
        lemma_values_for_pairs_of(k2, vs.drop_last(), k);
        assert(pairs_of(k2, vs).drop_last() =~= pairs_of(k2, vs.drop_last()));
        if k2 == k {
            assert(vs.drop_last().push(vs.last()) =~= vs);
        }
    } else {
        assert(pairs_of(k2, vs) =~= Seq::empty());
    }
}

proof fn lemma_values_for_expand(m: Seq<(Seq<char>, Seq<Seq<char>>)>, k: Seq<char>)
    requires
        unique_keys(m),
    ensures
        values_for(expand(m), k) == stored_values(m, k),
    decreases m.len(),
{
    if m.len() > 0 {
        let init = m.drop_last();
        assert(unique_keys(init)) by {
            assert forall|i: int, j: int| 0 <= i < j < init.len() implies init[i].0 != init[j].0 by {
                assert(init[i] == m[i] && init[j] == m[j]);
            }
        }
        lemma_values_for_expand(init, k);
        lemma_values_for_concat(expand(init), pairs_of(m.last().0, m.last().1), k);
        lemma_values_for_pairs_of(m.last().0, m.last().1, k);
        lemma_key_index(init, k);
        lemma_key_index(m, k);
        if m.last().0 == k {
            assert forall|j: int| 0 <= j < init.len() implies #[trigger] init[j].0 != k by {
                assert(init[j] == m[j]);
            }
            lemma_key_index_none(init, k);
            assert(Seq::<Seq<char>>::empty() + m.last().1 =~= m.last().1);
        } else {
            assert(values_for(expand(init), k) + Seq::empty() =~= values_for(expand(init), k));
            if key_index(init, k) >= 0 {
                assert(init[key_index(init, k)] == m[key_index(init, k)]);
            }
        }
    } else {
        lemma_key_index(m, k);
    }
}

proof fn lemma_add_param_unique(m: Seq<(Seq<char>, Seq<Seq<char>>)>, k: Seq<char>, v: Seq<char>)
    requires
        unique_keys(m),
    ensures
        unique_keys(add_param(m, k, v)),
        stored_values(add_param(m, k, v), k) == stored_values(m, k).push(v),
{
    lemma_key_index(m, k);
    let t = add_param(m, k, v);
    if key_index(m, k) >= 0 {
        assert(forall|j: int| 0 <= j < m.len() ==> #[trigger] t[j].0 == m[j].0);
        lemma_key_index_same_keys(m, t, k);
    } else {
        lemma_key_index_at(t, k, m.len() as int);
        assert(Seq::<Seq<char>>::empty().push(v) =~= seq![v]);
    }
}

proof fn lemma_set_param_unique(s: Seq<(Seq<char>, Seq<char>)>, k: Seq<char>, v: Seq<char>)
    requires
        unique_keys(s),
    ensures
        unique_keys(set_param(s, k, v)),
{
    lemma_key_index(s, k);
    let t = set_param(s, k, v);
    if key_index(s, k) >= 0 {
        assert(forall|j: int| 0 <= j < s.len() ==> #[trigger] t[j].0 == s[j].0);
    }
}

/// Each value added to a multi-valued parameter gives one more pair of that
/// key in the flat list, after the pairs of the values added before it.
pub proof fn lemma_add_appends_pair(p: ParamsModel, k: Seq<char>, v: Seq<char>)
    requires
        p.wf(),
    ensures
        p.add(k, v).wf(),
        values_for(p.add(k, v).pairs(), k) == values_for(p.pairs(), k).push(v),
{
    lemma_add_param_unique(p.multi, k, v);
    lemma_values_for_concat(p.single, expand(p.multi), k);
    lemma_values_for_concat(p.single, expand(add_param(p.multi, k, v)), k);
    lemma_values_for_expand(p.multi, k);
    lemma_values_for_expand(add_param(p.multi, k, v), k);
    assert(values_for(p.single, k) + stored_values(p.multi, k).push(v) =~= (values_for(p.single, k)
        + stored_values(p.multi, k)).push(v));
}

/// Setting a single-valued parameter leaves the values of every other key.
proof fn lemma_set_keeps_other_values(p: ParamsModel, k2: Seq<char>, v2: Seq<char>, k: Seq<char>)
    requires
        p.wf(),
        k != k2,
    ensures
        p.set(k2, v2).wf(),
        values_for(p.set(k2, v2).pairs(), k) == values_for(p.pairs(), k),
{
    lemma_set_param_unique(p.single, k2, v2);
    lemma_key_index(p.single, k2);
    lemma_values_for_concat(p.single, expand(p.multi), k);
    lemma_values_for_concat(set_param(p.single, k2, v2), expand(p.multi), k);
    let s = p.single;
    if key_index(s, k2) >= 0 {
        lemma_values_for_update(s, key_index(s, k2), (k2, v2), k);
    } else {
        assert(s.push((k2, v2)).drop_last() =~= s);
    }
}

proof fn lemma_values_for_update(
    s: Seq<(Seq<char>, Seq<char>)>,
    i: int,
    x: (Seq<char>, Seq<char>),
    k: Seq<char>,
)
    requires
        0 <= i < s.len(),
        s[i].0 != k,
        x.0 != k,
    ensures
        values_for(s.update(i, x), k) == values_for(s, k),
    decreases s.len(),
{
    let t = s.update(i, x);
    if i == s.len() - 1 {
        assert(t.drop_last() =~= s.drop_last());
    } else {
        lemma_values_for_update(s.drop_last(), i, x, k);
        assert(t.drop_last() =~= s.drop_last().update(i, x));
    }
}

/// Merging the parameters of a facet adds every `facet.field` value it
/// gives after those already there, so that facets on several fields each
/// keep their own `facet.field` pair.
pub proof fn lemma_facet_fields_accumulate(p: ParamsModel, pairs: Seq<(Seq<char>, Seq<char>)>)
    requires
        p.wf(),
    ensures
        merge_facet(p, pairs).wf(),
        values_for(merge_facet(p, pairs).pairs(), facet_field_key()) == values_for(
            p.pairs(),
            facet_field_key(),
        ) + values_for(pairs, facet_field_key()),
    decreases pairs.len(),
{
    let f = facet_field_key();
    if pairs.len() == 0 {
        assert(values_for(p.pairs(), f) + Seq::empty() =~= values_for(p.pairs(), f));
    } else {
        let q = merge_facet(p, pairs.drop_last());
        lemma_facet_fields_accumulate(p, pairs.drop_last());
        let (k, v) = pairs.last();
        if k == f {
            lemma_add_appends_pair(q, k, v);
            assert(values_for(p.pairs(), f) + values_for(pairs.drop_last(), f).push(v) =~= (
            values_for(p.pairs(), f) + values_for(pairs.drop_last(), f)).push(v));
        } else {
            lemma_set_keeps_other_values(q, k, v, f);
        }
    }
}

} // verus!
