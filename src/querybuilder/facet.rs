//! Parameters of field facets and range facets.
//!
//! A facet names its field under `facet.field` or `facet.range`, optionally
//! behind local parameters (`{!ex=tag}field`), and qualifies each option with
//! the field: `f.<field>.facet.<option>`.

use crate::text::{bool_string, bool_text, decimal, decimal_string, join, join_strings, opt_text};
use vstd::prelude::*;

verus! {

/// The texts of a list of parameter pairs.
pub open spec fn pairs_view(v: Seq<(String, String)>) -> Seq<(Seq<char>, Seq<char>)> {
    v.map_values(|p: (String, String)| (p.0@, p.1@))
}

/// Builds the parameters of one facet.
pub trait FacetBuilder {
    /// The parameters, in order.
    spec fn pairs(&self) -> Seq<(Seq<char>, Seq<char>)>;

    fn build(&self) -> (r: Vec<(String, String)>)
        ensures
            pairs_view(r@) == self.pairs(),
    ;
}

/// `{!k1=v1 k2=v2}` for the local parameters, or nothing when there are none.
pub open spec fn local_prefix(lps: Seq<(Seq<char>, Seq<char>)>) -> Seq<char> {
    if lps.len() == 0 {
        Seq::empty()
    } else {
        "{!"@ + join(lps.map_values(|p: (Seq<char>, Seq<char>)| p.0 + "="@ + p.1), " "@) + "}"@
    }
}

/// The option `suffix` of `field`, when it is set.
pub open spec fn opt_pair(field: Seq<char>, suffix: Seq<char>, v: Option<Seq<char>>) -> Seq<
    (Seq<char>, Seq<char>),
> {
    match v {
        Some(v) => seq![("f."@ + field + suffix, v)],
        None => Seq::empty(),
    }
}

/// The text of an optional flag.
pub open spec fn opt_bool(b: Option<bool>) -> Option<Seq<char>> {
    match b {
        Some(b) => Some(bool_text(b)),
        None => None,
    }
}

/// The text of an optional count.
pub open spec fn opt_decimal(n: Option<u32>) -> Option<Seq<char>> {
    match n {
        Some(n) => Some(decimal(n as nat)),
        None => None,
    }
}

/// 1 when the option is set.
pub open spec fn is_set<T>(o: Option<T>) -> nat {
    if o is Some {
        1
    } else {
        0
    }
}

fn push_pair(result: &mut Vec<(String, String)>, key: String, value: String)
    ensures
        pairs_view(final(result)@) == pairs_view(old(result)@).push((key@, value@)),
{
    let ghost before = result@;
    result.push((key, value));
    proof {
        assert(pairs_view(result@) =~= pairs_view(before).push((key@, value@)));
    }
}

/// Appends the option `suffix` of `field` when it is set.
fn push_option(result: &mut Vec<(String, String)>, field: &String, suffix: &str, v: Option<String>)
    ensures
        pairs_view(final(result)@) == pairs_view(old(result)@) + opt_pair(field@, suffix@, opt_text(v)),
{
    match v {
        Some(v) => {
            let mut key = String::from_str("f.");
            key.append(field.as_str());
            key.append(suffix);
            push_pair(result, key, v);
        },
        None => {
            assert(pairs_view(result@) =~= pairs_view(result@) + Seq::empty());
        },
    }
}

fn bool_option(b: Option<bool>) -> (r: Option<String>)
    ensures
        opt_text(r) == opt_bool(b),
{
    match b {
        Some(b) => Some(bool_string(b)),
        None => None,
    }
}

fn decimal_option(n: Option<u32>) -> (r: Option<String>)
    ensures
        opt_text(r) == opt_decimal(n),
{
    match n {
        Some(n) => Some(decimal_string(n)),
        None => None,
    }
}

fn clone_option(o: &Option<String>) -> (r: Option<String>)
    ensures
        opt_text(r) == opt_text(*o),
{
    match o {
        Some(s) => Some(s.clone()),
        None => None,
    }
}

/// `field` behind its local parameters.
fn local_field(local_params: &Vec<(String, String)>, field: &String) -> (r: String)
    ensures
        r@ == local_prefix(pairs_view(local_params@)) + field@,
{
    let ghost lps = pairs_view(local_params@);
    if local_params.len() == 0 {
        return field.clone();
    }
    let mut items: Vec<String> = Vec::new();
    let mut i: usize = 0;
    while i < local_params.len()
        invariant
            0 <= i <= local_params@.len(),
            lps == pairs_view(local_params@),
            items@.len() == i,
            forall|j: int|
                0 <= j < i ==> #[trigger] items@[j]@ == local_params@[j].0@ + "="@
                    + local_params@[j].1@,
        decreases local_params@.len() - i,
    {
        let mut item = local_params[i].0.clone();
        item.append("=");
        item.append(local_params[i].1.as_str());
        items.push(item);
        i = i + 1;
    }
    let joined = join_strings(&items, " ");
    proof {
        assert(crate::text::texts(items@) =~= lps.map_values(
            |p: (Seq<char>, Seq<char>)| p.0 + "="@ + p.1,
        ));
    }
    let mut r = String::from_str("{!");
    r.append(joined.as_str());
    r.append("}");
    r.append(field.as_str());
    r
}

/// Order of the values of a field facet.
pub enum FieldFacetSortOrder {
    Index,
    Count,
}

/// Algorithm of a field facet.
pub enum FieldFacetMethod {
    Enum,
    Fc,
    Fcs,
}

/// Model of a field facet: the field, each option when set, and the local
/// parameters.
pub struct FieldFacetModel {
    pub field: Seq<char>,
    pub prefix: Option<Seq<char>>,
    pub contains: Option<Seq<char>>,
    pub ignore_case: Option<bool>,
    pub sort: Option<Seq<char>>,
    pub limit: Option<u32>,
    pub offset: Option<u32>,
    pub min_count: Option<u32>,
    pub missing: Option<bool>,
    pub method: Option<Seq<char>>,
    pub facet_exists: Option<bool>,
    pub local_params: Seq<(Seq<char>, Seq<char>)>,
}

/// The parameters of a field facet: `facet.field`, then each option that is
/// set, in a fixed order.
pub open spec fn field_facet_pairs(m: FieldFacetModel) -> Seq<(Seq<char>, Seq<char>)> {
    seq![("facet.field"@, local_prefix(m.local_params) + m.field)] + opt_pair(
        m.field,
        ".facet.prefix"@,
        m.prefix,
    ) + opt_pair(m.field, ".facet.contains"@, m.contains) + opt_pair(
        m.field,
        ".facet.contains.ignoreCase"@,
        opt_bool(m.ignore_case),
    ) + opt_pair(m.field, ".facet.sort"@, m.sort) + opt_pair(
        m.field,
        ".facet.limit"@,
        opt_decimal(m.limit),
    ) + opt_pair(m.field, ".facet.offset"@, opt_decimal(m.offset)) + opt_pair(
        m.field,
        ".facet.mincount"@,
        opt_decimal(m.min_count),
    ) + opt_pair(m.field, ".facet.missing"@, opt_bool(m.missing)) + opt_pair(
        m.field,
        ".facet.method"@,
        m.method,
    ) + opt_pair(m.field, ".facet.exists"@, opt_bool(m.facet_exists))
}

/// How many options of a field facet are set.
pub open spec fn field_facet_options(m: FieldFacetModel) -> nat {
    is_set(m.prefix) + is_set(m.contains) + is_set(m.ignore_case) + is_set(m.sort) + is_set(
        m.limit,
    ) + is_set(m.offset) + is_set(m.min_count) + is_set(m.missing) + is_set(m.method) + is_set(
        m.facet_exists,
    )
}

/// Parameters of a facet on the values of one field.
pub struct FieldFacetBuilder {
    field: String,
    prefix: Option<String>,
    contains: Option<String>,
    ignore_case: Option<bool>,
    sort: Option<String>,
    limit: Option<u32>,
    offset: Option<u32>,
    min_count: Option<u32>,
    missing: Option<bool>,
    method: Option<String>,
    facet_exists: Option<bool>,
    local_params: Vec<(String, String)>,
}

impl View for FieldFacetBuilder {
    type V = FieldFacetModel;

    closed spec fn view(&self) -> FieldFacetModel {
        FieldFacetModel {
            field: self.field@,
            prefix: opt_text(self.prefix),
            contains: opt_text(self.contains),
            ignore_case: self.ignore_case,
            sort: opt_text(self.sort),
            limit: self.limit,
            offset: self.offset,
            min_count: self.min_count,
            missing: self.missing,
            method: opt_text(self.method),
            facet_exists: self.facet_exists,
            local_params: pairs_view(self.local_params@),
        }
    }
}

impl FieldFacetBuilder {
    /// A facet on `field` with no option set.
    pub fn new(field: &str) -> (r: Self)
        ensures
            r@ == (FieldFacetModel {
                field: field@,
                prefix: None,
                contains: None,
                ignore_case: None,
                sort: None,
                limit: None,
                offset: None,
                min_count: None,
                missing: None,
                method: None,
                facet_exists: None,
                local_params: Seq::empty(),
            }),
    {
        let r = FieldFacetBuilder {
            field: String::from_str(field),
            prefix: None,
            contains: None,
            ignore_case: None,
            sort: None,
            limit: None,
            offset: None,
            min_count: None,
            missing: None,
            method: None,
            facet_exists: None,
            local_params: Vec::new(),
        };
        proof {
            assert(pairs_view(r.local_params@) =~= Seq::empty());
        }
        r
    }

    /// Sets `f.<field>.facet.prefix`.
    pub fn prefix(self, prefix: &str) -> (r: Self)
        ensures
            r@ == (FieldFacetModel { prefix: Some(prefix@), ..self@ }),
    {
        FieldFacetBuilder { prefix: Some(String::from_str(prefix)), ..self }
    }

    /// Sets `f.<field>.facet.contains`.
    pub fn contains(self, contains: &str) -> (r: Self)
        ensures
            r@ == (FieldFacetModel { contains: Some(contains@), ..self@ }),
    {
        FieldFacetBuilder { contains: Some(String::from_str(contains)), ..self }
    }

    /// Sets `f.<field>.facet.contains.ignoreCase`.
    pub fn ignore_case(self, ignore_case: bool) -> (r: Self)
        ensures
            r@ == (FieldFacetModel { ignore_case: Some(ignore_case), ..self@ }),
    {
        FieldFacetBuilder { ignore_case: Some(ignore_case), ..self }
    }

    /// Sets `f.<field>.facet.sort` to `count` or `index`.
    pub fn sort(self, sort: FieldFacetSortOrder) -> (r: Self)
        ensures
            r@ == (FieldFacetModel {
                sort: Some(
                    match sort {
                        FieldFacetSortOrder::Count => "count"@,
                        FieldFacetSortOrder::Index => "index"@,
                    },
                ),
                ..self@
            }),
    {
        let text = match sort {
            FieldFacetSortOrder::Count => String::from_str("count"),
            FieldFacetSortOrder::Index => String::from_str("index"),
        };
        FieldFacetBuilder { sort: Some(text), ..self }
    }

    /// Sets `f.<field>.facet.limit`.
    pub fn limit(self, limit: u32) -> (r: Self)
        ensures
            r@ == (FieldFacetModel { limit: Some(limit), ..self@ }),
    {
        FieldFacetBuilder { limit: Some(limit), ..self }
    }

    /// Sets `f.<field>.facet.offset`.
    pub fn offset(self, offset: u32) -> (r: Self)
        ensures
            r@ == (FieldFacetModel { offset: Some(offset), ..self@ }),
    {
        FieldFacetBuilder { offset: Some(offset), ..self }
    }

    /// Sets `f.<field>.facet.mincount`.
    pub fn min_count(self, min_count: u32) -> (r: Self)
        ensures
            r@ == (FieldFacetModel { min_count: Some(min_count), ..self@ }),
    {
        FieldFacetBuilder { min_count: Some(min_count), ..self }
    }

    /// Sets `f.<field>.facet.missing`.
    pub fn missing(self, missing: bool) -> (r: Self)
        ensures
            r@ == (FieldFacetModel { missing: Some(missing), ..self@ }),
    {
        FieldFacetBuilder { missing: Some(missing), ..self }
    }

    /// Sets `f.<field>.facet.method` to `enum`, `fc` or `fcs`.
    pub fn method(self, method: FieldFacetMethod) -> (r: Self)
        ensures
            r@ == (FieldFacetModel {
                method: Some(
                    match method {
                        FieldFacetMethod::Enum => "enum"@,
                        FieldFacetMethod::Fc => "fc"@,
                        FieldFacetMethod::Fcs => "fcs"@,
                    },
                ),
                ..self@
            }),
    {
        let text = match method {
            FieldFacetMethod::Enum => String::from_str("enum"),
            FieldFacetMethod::Fc => String::from_str("fc"),
            FieldFacetMethod::Fcs => String::from_str("fcs"),
        };
        FieldFacetBuilder { method: Some(text), ..self }
    }

    /// Sets `f.<field>.facet.exists`.
    pub fn facet_exists(self, facet_exists: bool) -> (r: Self)
        ensures
            r@ == (FieldFacetModel { facet_exists: Some(facet_exists), ..self@ }),
    {
        FieldFacetBuilder { facet_exists: Some(facet_exists), ..self }
    }

    /// Appends the local parameter `key=value`.
    pub fn local_param(self, key: &str, value: &str) -> (r: Self)
        ensures
            r@ == (FieldFacetModel {
                local_params: self@.local_params.push((key@, value@)),
                ..self@
            }),
    {
        let mut local_params = self.local_params;
        push_pair(&mut local_params, String::from_str(key), String::from_str(value));
        FieldFacetBuilder { local_params, ..self }
    }
}

impl FacetBuilder for FieldFacetBuilder {
    open spec fn pairs(&self) -> Seq<(Seq<char>, Seq<char>)> {
        field_facet_pairs(self@)
    }

    fn build(&self) -> (r: Vec<(String, String)>) {
        let mut result: Vec<(String, String)> = Vec::new();
        let name = local_field(&self.local_params, &self.field);
        push_pair(&mut result, String::from_str("facet.field"), name);
        let f = &self.field;
        push_option(&mut result, f, ".facet.prefix", clone_option(&self.prefix));
        push_option(&mut result, f, ".facet.contains", clone_option(&self.contains));
        push_option(&mut result, f, ".facet.contains.ignoreCase", bool_option(self.ignore_case));
        push_option(&mut result, f, ".facet.sort", clone_option(&self.sort));
        push_option(&mut result, f, ".facet.limit", decimal_option(self.limit));
        push_option(&mut result, f, ".facet.offset", decimal_option(self.offset));
        push_option(&mut result, f, ".facet.mincount", decimal_option(self.min_count));
        push_option(&mut result, f, ".facet.missing", bool_option(self.missing));
        push_option(&mut result, f, ".facet.method", clone_option(&self.method));
        push_option(&mut result, f, ".facet.exists", bool_option(self.facet_exists));
        proof {
            assert(pairs_view(Seq::<(String, String)>::empty()) =~= Seq::empty());
            assert(pairs_view(result@) =~= field_facet_pairs(self@));
        }
        result
    }
}

/// What a range facet reports beside its ranges.
pub enum RangeFacetOtherOptions {
    Before,
    After,
    Between,
    All,
    /// Nothing beside the ranges (the token `none`).
    Nothing,
}

/// Which bounds each range of a range facet takes in.
pub enum RangeFacetIncludeOptions {
    Lower,
    Upper,
    Edge,
    Outer,
    All,
}

/// The token of an `other` option.
pub open spec fn other_text(o: RangeFacetOtherOptions) -> Seq<char> {
    match o {
        RangeFacetOtherOptions::Nothing => "none"@,
        RangeFacetOtherOptions::Before => "before"@,
        RangeFacetOtherOptions::After => "after"@,
        RangeFacetOtherOptions::Between => "between"@,
        RangeFacetOtherOptions::All => "all"@,
    }
}

/// The token of a choice of included bounds.
pub open spec fn include_text(o: RangeFacetIncludeOptions) -> Seq<char> {
    match o {
        RangeFacetIncludeOptions::Lower => "lower"@,
        RangeFacetIncludeOptions::Upper => "upper"@,
        RangeFacetIncludeOptions::Edge => "edge"@,
        RangeFacetIncludeOptions::Outer => "outer"@,
        RangeFacetIncludeOptions::All => "all"@,
    }
}

fn other_string(o: &RangeFacetOtherOptions) -> (r: String)
    ensures
        r@ == other_text(*o),
{
    match o {
        RangeFacetOtherOptions::Nothing => String::from_str("none"),
        RangeFacetOtherOptions::Before => String::from_str("before"),
        RangeFacetOtherOptions::After => String::from_str("after"),
        RangeFacetOtherOptions::Between => String::from_str("between"),
        RangeFacetOtherOptions::All => String::from_str("all"),
    }
}

fn include_string(o: &RangeFacetIncludeOptions) -> (r: String)
    ensures
        r@ == include_text(*o),
{
    match o {
        RangeFacetIncludeOptions::Lower => String::from_str("lower"),
        RangeFacetIncludeOptions::Upper => String::from_str("upper"),
        RangeFacetIncludeOptions::Edge => String::from_str("edge"),
        RangeFacetIncludeOptions::Outer => String::from_str("outer"),
        RangeFacetIncludeOptions::All => String::from_str("all"),
    }
}

/// The suffix of the key of the range option that names the bounds each
/// range takes in.
pub open spec fn bounds_suffix() -> Seq<char> {
    ".facet.range.incl"@ + "ude"@
}

fn bounds_suffix_string() -> (r: String)
    ensures
        r@ == bounds_suffix(),
{
    let mut s = String::from_str(".facet.range.incl");
    s.append("ude");
    s
}

/// Model of a range facet: the field, its bounds and gap, each option when
/// set, and the local parameters.
pub struct RangeFacetModel {
    pub field: Seq<char>,
    pub start: Seq<char>,
    pub end: Seq<char>,
    pub gap: Seq<char>,
    pub hardend: Option<bool>,
    pub other: Option<Seq<char>>,
    pub bounds: Option<Seq<char>>,
    pub local_params: Seq<(Seq<char>, Seq<char>)>,
}

/// The parameters of a range facet: `facet.range`, the start, end and gap,
/// then each option that is set.
pub open spec fn range_facet_pairs(m: RangeFacetModel) -> Seq<(Seq<char>, Seq<char>)> {
    seq![
        ("facet.range"@, local_prefix(m.local_params) + m.field),
        ("f."@ + m.field + ".facet.range.start"@, m.start),
        ("f."@ + m.field + ".facet.range.end"@, m.end),
        ("f."@ + m.field + ".facet.range.gap"@, m.gap),
    ] + opt_pair(m.field, ".facet.range.hardend"@, opt_bool(m.hardend)) + opt_pair(
        m.field,
        ".facet.range.other"@,
        m.other,
    ) + opt_pair(m.field, bounds_suffix(), m.bounds)
}

/// How many options of a range facet are set.
pub open spec fn range_facet_options(m: RangeFacetModel) -> nat {
    is_set(m.hardend) + is_set(m.other) + is_set(m.bounds)
}

/// Parameters of a facet over ranges of a numeric or date field.
pub struct RangeFacetBuilder {
    field: String,
    start: String,
    end: String,
    gap: String,
    hardend: Option<bool>,
    other: Option<RangeFacetOtherOptions>,
    bounds: Option<RangeFacetIncludeOptions>,
    local_params: Vec<(String, String)>,
}

impl View for RangeFacetBuilder {
    type V = RangeFacetModel;

    closed spec fn view(&self) -> RangeFacetModel {
        RangeFacetModel {
            field: self.field@,
            start: self.start@,
            end: self.end@,
            gap: self.gap@,
            hardend: self.hardend,
            other: match self.other {
                Some(o) => Some(other_text(o)),
                None => None,
            },
            bounds: match self.bounds {
                Some(o) => Some(include_text(o)),
                None => None,
            },
            local_params: pairs_view(self.local_params@),
        }
    }
}

impl RangeFacetBuilder {
    /// A range facet on `field` from `start` to `end` in steps of `gap`,
    /// each given as its parameter text, with no option set.
    pub fn new(field: &str, start: String, end: String, gap: String) -> (r: Self)
        ensures
            r@ == (RangeFacetModel {
                field: field@,
                start: start@,
                end: end@,
                gap: gap@,
                hardend: None,
                other: None,
                bounds: None,
                local_params: Seq::empty(),
            }),
    {
        let r = RangeFacetBuilder {
            field: String::from_str(field),
            start,
            end,
            gap,
            hardend: None,
            other: None,
            bounds: None,
            local_params: Vec::new(),
        };
        proof {
            assert(pairs_view(r.local_params@) =~= Seq::empty());
        }
        r
    }

    /// Sets `f.<field>.facet.range.hardend`.
    pub fn hardend(self, hardend: bool) -> (r: Self)
        ensures
            r@ == (RangeFacetModel { hardend: Some(hardend), ..self@ }),
    {
        RangeFacetBuilder { hardend: Some(hardend), ..self }
    }

    /// Sets `f.<field>.facet.range.other`.
    pub fn other(self, other: RangeFacetOtherOptions) -> (r: Self)
        ensures
            r@ == (RangeFacetModel { other: Some(other_text(other)), ..self@ }),
    {
        RangeFacetBuilder { other: Some(other), ..self }
    }

    /// Sets which bounds the ranges take in (the `facet.range` option named
    /// by `bounds_suffix`).
    pub fn include_bounds(self, bounds: RangeFacetIncludeOptions) -> (r: Self)
        ensures
            r@ == (RangeFacetModel { bounds: Some(include_text(bounds)), ..self@ }),
    {
        RangeFacetBuilder { bounds: Some(bounds), ..self }
    }

    /// Appends the local parameter `key=value`.
    pub fn local_param(self, key: &str, value: &str) -> (r: Self)
        ensures
            r@ == (RangeFacetModel {
                local_params: self@.local_params.push((key@, value@)),
                ..self@
            }),
    {
        let mut local_params = self.local_params;
        push_pair(&mut local_params, String::from_str(key), String::from_str(value));
        RangeFacetBuilder { local_params, ..self }
    }
}

fn qualified_key(field: &String, suffix: &str) -> (r: String)
    ensures
        r@ == "f."@ + field@ + suffix@,
{
    let mut key = String::from_str("f.");
    key.append(field.as_str());
    key.append(suffix);
    key
}

impl FacetBuilder for RangeFacetBuilder {
    open spec fn pairs(&self) -> Seq<(Seq<char>, Seq<char>)> {
        range_facet_pairs(self@)
    }

    fn build(&self) -> (r: Vec<(String, String)>) {
        let mut result: Vec<(String, String)> = Vec::new();
        let f = &self.field;
        let name = local_field(&self.local_params, f);
        push_pair(&mut result, String::from_str("facet.range"), name);
        push_pair(&mut result, qualified_key(f, ".facet.range.start"), self.start.clone());
        push_pair(&mut result, qualified_key(f, ".facet.range.end"), self.end.clone());
        push_pair(&mut result, qualified_key(f, ".facet.range.gap"), self.gap.clone());
        push_option(&mut result, f, ".facet.range.hardend", bool_option(self.hardend));
        let other = match &self.other {
            Some(o) => Some(other_string(o)),
            None => None,
        };
        push_option(&mut result, f, ".facet.range.other", other);
        let bounds = match &self.bounds {
            Some(o) => Some(include_string(o)),
            None => None,
        };
        let suffix = bounds_suffix_string();
        push_option(&mut result, f, suffix.as_str(), bounds);
        proof {
            assert(pairs_view(Seq::<(String, String)>::empty()) =~= Seq::empty());
            assert(pairs_view(result@) =~= range_facet_pairs(self@));
        }
        result
    }
}

proof fn lemma_opt_pair_len(field: Seq<char>, suffix: Seq<char>, v: Option<Seq<char>>)
    ensures
        opt_pair(field, suffix, v).len() == is_set(v),
{
}

/// A field facet gives its `facet.field` pair and one pair for each option
/// that is set, so that each setter adds one pair whatever the order of the
/// calls; with no option set it gives the `facet.field` pair alone.
pub proof fn lemma_field_facet_pair_count(m: FieldFacetModel)
    ensures
        field_facet_pairs(m).len() == 1 + field_facet_options(m),
        field_facet_options(m) == 0 && m.local_params.len() == 0 ==> field_facet_pairs(m) == seq![
            ("facet.field"@, m.field),
        ],
{
    lemma_opt_pair_len(m.field, ".facet.prefix"@, m.prefix);
    lemma_opt_pair_len(m.field, ".facet.contains"@, m.contains);
    lemma_opt_pair_len(m.field, ".facet.contains.ignoreCase"@, opt_bool(m.ignore_case));
    lemma_opt_pair_len(m.field, ".facet.sort"@, m.sort);
    lemma_opt_pair_len(m.field, ".facet.limit"@, opt_decimal(m.limit));
    lemma_opt_pair_len(m.field, ".facet.offset"@, opt_decimal(m.offset));
    lemma_opt_pair_len(m.field, ".facet.mincount"@, opt_decimal(m.min_count));
    lemma_opt_pair_len(m.field, ".facet.missing"@, opt_bool(m.missing));
    lemma_opt_pair_len(m.field, ".facet.method"@, m.method);
    lemma_opt_pair_len(m.field, ".facet.exists"@, opt_bool(m.facet_exists));
    if field_facet_options(m) == 0 && m.local_params.len() == 0 {
        assert(Seq::<char>::empty() + m.field =~= m.field);
        assert(field_facet_pairs(m) =~= seq![("facet.field"@, m.field)]);
    }
}

/// A range facet gives its `facet.range` pair, its start, end and gap, and
/// one pair for each option that is set.
pub proof fn lemma_range_facet_pair_count(m: RangeFacetModel)
    ensures
        range_facet_pairs(m).len() == 4 + range_facet_options(m),
{
    lemma_opt_pair_len(m.field, ".facet.range.hardend"@, opt_bool(m.hardend));
    lemma_opt_pair_len(m.field, ".facet.range.other"@, m.other);
    lemma_opt_pair_len(m.field, bounds_suffix(), m.bounds);
}

} // verus!
