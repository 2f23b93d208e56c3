//! Search clauses and their boolean composition.
//!
//! A [`QueryOperand`] is one clause of query text; a [`QueryExpression`] joins
//! clauses and sub-expressions with `AND` or `OR`. Joining two expressions of
//! the operator being applied merges their children into one flat list, so
//! that the rendering carries parentheses only around a sub-expression of the
//! other operator.

use crate::querybuilder::sanitizer::{escape_reserved, escaped};
use crate::text::{decimal, decimal_string, opt_text};
use vstd::prelude::*;

verus! {

/// Boolean operator joining the children of an expression.
#[derive(Clone, Copy, PartialEq, Eq, Structural, Debug)]
pub enum Operator {
    AND,
    OR,
}

/// Mathematical model of a query: a clause of text, or a group of children
/// joined by one operator.
pub enum QueryNode {
    Leaf(Seq<char>),
    Group(Operator, Seq<QueryNode>),
}

/// The text between two children joined by `op`.
pub open spec fn separator(op: Operator) -> Seq<char> {
    match op {
        Operator::AND => " AND "@,
        Operator::OR => " OR "@,
    }
}

/// The query text of `n`: a group renders its children joined by its
/// separator, each child group wrapped in parentheses.
pub open spec fn render(n: QueryNode) -> Seq<char>
    decreases n, 0int,
{
    match n {
        QueryNode::Leaf(t) => t,
        QueryNode::Group(op, cs) => render_children(op, cs),
    }
}

/// The text of `n` as the child of a group.
pub open spec fn render_child(n: QueryNode) -> Seq<char>
    decreases n, 1int,
{
    match n {
        QueryNode::Leaf(t) => t,
        QueryNode::Group(_, _) => seq!['('] + render(n) + seq![')'],
    }
}

/// The children `cs` rendered and joined by the separator of `op`.
pub open spec fn render_children(op: Operator, cs: Seq<QueryNode>) -> Seq<char>
    decreases cs, 0int,
{
    if cs.len() == 0 {
        Seq::empty()
    } else if cs.len() == 1 {
        render_child(cs[0])
    } else {
        render_children(op, cs.subrange(0, cs.len() - 1)) + separator(op) + render_child(
            cs[cs.len() - 1],
        )
    }
}

/// `l` and `r` joined by `op`: a side that is a group of `op` gives its
/// children, unless both sides are groups and only one of them is of `op`.
pub open spec fn combine(op: Operator, l: QueryNode, r: QueryNode) -> QueryNode {
    let joined = QueryNode::Group(op, seq![l, r]);
    match l {
        QueryNode::Leaf(_) => match r {
            QueryNode::Leaf(_) => joined,
            QueryNode::Group(rop, rcs) => if rop == op {
                QueryNode::Group(op, seq![l] + rcs)
            } else {
                joined
            },
        },
        QueryNode::Group(lop, lcs) => match r {
            QueryNode::Leaf(_) => if lop == op {
                QueryNode::Group(op, lcs.push(r))
            } else {
                joined
            },
            QueryNode::Group(rop, rcs) => if lop == op && rop == op {
                QueryNode::Group(op, lcs + rcs)
            } else {
                joined
            },
        },
    }
}

/// A query expression: anything that renders to query text.
pub trait SolrQueryExpression {
    /// The model of this expression as the child of a group.
    spec fn node(&self) -> QueryNode;

    /// The query text.
    fn to_string(&self) -> (r: String)
        ensures
            r@ == render(self.node()),
    ;
}

/// A clause builder of a typed form (term, phrase, range, ...).
pub trait SolrQueryOperandModel {
    /// The clause text.
    spec fn text(&self) -> Seq<char>;

    /// The clause text.
    fn to_string(&self) -> (r: String)
        ensures
            r@ == self.text(),
    ;
}

/// One clause of query text, taken as it is.
pub struct QueryOperand(pub String);

/// A child of an expression.
pub enum QueryExpressionKind {
    Operand(QueryOperand),
    Expression(QueryExpression),
}

/// Clauses and sub-expressions joined by one operator.
pub struct QueryExpression {
    pub operator: Operator,
    pub operands: Vec<QueryExpressionKind>,
}

/// The model of a child.
pub open spec fn kind_node(k: QueryExpressionKind) -> QueryNode
    decreases k,
{
    match k {
        QueryExpressionKind::Operand(op) => QueryNode::Leaf(op.0@),
        QueryExpressionKind::Expression(e) => QueryNode::Group(e.operator, kind_nodes(e.operands@)),
    }
}

/// The models of a list of children.
pub open spec fn kind_nodes(ks: Seq<QueryExpressionKind>) -> Seq<QueryNode>
    decreases ks,
{
    if ks.len() == 0 {
        Seq::empty()
    } else {
        kind_nodes(ks.subrange(0, ks.len() - 1)).push(kind_node(ks[ks.len() - 1]))
    }
}

impl View for QueryExpression {
    type V = QueryNode;

    open spec fn view(&self) -> QueryNode {
        QueryNode::Group(self.operator, kind_nodes(self.operands@))
    }
}

proof fn lemma_kind_nodes(ks: Seq<QueryExpressionKind>)
    ensures
        kind_nodes(ks).len() == ks.len(),
        forall|i: int| 0 <= i < ks.len() ==> #[trigger] kind_nodes(ks)[i] == kind_node(ks[i]),
    decreases ks.len(),
{
    if ks.len() > 0 {
        let init = ks.subrange(0, ks.len() - 1);
        lemma_kind_nodes(init);
        assert forall|i: int| 0 <= i < ks.len() implies #[trigger] kind_nodes(ks)[i] == kind_node(
            ks[i],
        ) by {
            if i < ks.len() - 1 {
                assert(init[i] == ks[i]);
            }
        }
    }
}

proof fn lemma_kind_nodes_concat(a: Seq<QueryExpressionKind>, b: Seq<QueryExpressionKind>)
    ensures
        kind_nodes(a + b) == kind_nodes(a) + kind_nodes(b),
{
    lemma_kind_nodes(a);
    lemma_kind_nodes(b);
    lemma_kind_nodes(a + b);
    assert(kind_nodes(a + b) =~= kind_nodes(a) + kind_nodes(b));
}

proof fn lemma_render_children_step(op: Operator, cs: Seq<QueryNode>, i: int)
    requires
        0 <= i < cs.len(),
    ensures
        render_children(op, cs.take(i + 1)) == if i == 0 {
            render_child(cs[0])
        } else {
            render_children(op, cs.take(i)) + separator(op) + render_child(cs[i])
        },
{
    assert(cs.take(i + 1).subrange(0, i) =~= cs.take(i));
}

impl QueryExpressionKind {
    /// The model of this child.
    pub open spec fn node(&self) -> QueryNode {
        kind_node(*self)
    }
}

impl QueryExpression {
    /// An expression of the two children `lhs` and `rhs` joined by `op`.
    fn join(op: Operator, lhs: QueryExpressionKind, rhs: QueryExpressionKind) -> (e:
        QueryExpression)
        ensures
            e@ == QueryNode::Group(op, seq![lhs.node(), rhs.node()]),
    {
        let ghost (l, r) = (lhs, rhs);
        let e = QueryExpression { operator: op, operands: vec![lhs, rhs] };
        proof {
            lemma_kind_nodes(e.operands@);
            assert(kind_nodes(e.operands@) =~= seq![l.node(), r.node()]);
        }
        e
    }

    /// `lhs` and `rhs` joined by `op`, merging a side of `op` as `combine`
    /// says.
    fn combine_kinds(op: Operator, lhs: QueryExpressionKind, rhs: QueryExpressionKind) -> (e:
        QueryExpression)
        ensures
            e@ == combine(op, lhs.node(), rhs.node()),
    {
        match lhs {
            QueryExpressionKind::Operand(l) => match rhs {
                QueryExpressionKind::Operand(r) => QueryExpression::join(
                    op,
                    QueryExpressionKind::Operand(l),
                    QueryExpressionKind::Operand(r),
                ),
                QueryExpressionKind::Expression(r) => {
                    if r.operator == op {
                        let ghost rest = r.operands@;
                        let mut operands = vec![QueryExpressionKind::Operand(l)];
                        let ghost first = operands@;
                        let mut tail = r.operands;
                        operands.append(&mut tail);
                        proof {
                            lemma_kind_nodes_concat(first, rest);
                            lemma_kind_nodes(first);
                            assert(kind_nodes(first) =~= seq![QueryNode::Leaf(l.0@)]);
                        }
                        QueryExpression { operator: op, operands }
                    } else {
                        QueryExpression::join(
                            op,
                            QueryExpressionKind::Operand(l),
                            QueryExpressionKind::Expression(r),
                        )
                    }
                },
            },
            QueryExpressionKind::Expression(l) => match rhs {
                QueryExpressionKind::Operand(r) => {
                    if l.operator == op {
                        let ghost init = l.operands@;
                        let mut operands = l.operands;
                        let ghost item = QueryExpressionKind::Operand(r);
                        proof {
                            lemma_kind_nodes(init.push(item));
                            lemma_kind_nodes(init);
                            assert(init.push(item).subrange(0, init.len() as int) =~= init);
                        }
                        operands.push(QueryExpressionKind::Operand(r));
                        QueryExpression { operator: op, operands }
                    } else {
                        QueryExpression::join(
                            op,
                            QueryExpressionKind::Expression(l),
                            QueryExpressionKind::Operand(r),
                        )
                    }
                },
                QueryExpressionKind::Expression(r) => {
                    if l.operator == op && r.operator == op {
                        let ghost (a, b) = (l.operands@, r.operands@);
                        let mut operands = l.operands;
                        let mut tail = r.operands;
                        operands.append(&mut tail);
                        proof {
                            lemma_kind_nodes_concat(a, b);
                        }
                        QueryExpression { operator: op, operands }
                    } else {
                        QueryExpression::join(
                            op,
                            QueryExpressionKind::Expression(l),
                            QueryExpressionKind::Expression(r),
                        )
                    }
                },
            },
        }
    }

    /// The query text of this expression.
    fn render_string(&self) -> (r: String)
        ensures
            r@ == render(self@),
        decreases self,
    {
        let sep = match self.operator {
            Operator::AND => " AND ",
            Operator::OR => " OR ",
        };
        let ghost cs = kind_nodes(self.operands@);
        proof {
            lemma_kind_nodes(self.operands@);
        }
        let mut s = String::new();
        let mut i: usize = 0;
        while i < self.operands.len()
            invariant
                0 <= i <= self.operands@.len(),
                cs == kind_nodes(self.operands@),
                cs.len() == self.operands@.len(),
                forall|j: int| 0 <= j < self.operands@.len() ==> #[trigger] cs[j] == kind_node(
                    self.operands@[j],
                ),
                sep@ == separator(self.operator),
                s@ == render_children(self.operator, cs.take(i as int)),
            decreases self.operands@.len() - i,
        {
            proof {
                lemma_render_children_step(self.operator, cs, i as int);
            }
            if i > 0 {
                s.append(sep);
            }
            match &self.operands[i] {
                QueryExpressionKind::Operand(op) => {
                    s.append(op.0.as_str());
                },
                QueryExpressionKind::Expression(e) => {
                    proof {
                        assert(decreases_to!(self.operands@ => self.operands@[i as int]));
                    }
                    let inner = e.render_string();
                    s.append("(");
                    s.append(inner.as_str());
                    s.append(")");
                    proof {
                        reveal_strlit("(");
                        reveal_strlit(")");
                    }
                },
            }
            i = i + 1;
        }
        proof {
            assert(cs.take(i as int) =~= cs);
        }
        s
    }
}

impl SolrQueryExpression for QueryOperand {
    open spec fn node(&self) -> QueryNode {
        QueryNode::Leaf(self.0@)
    }

    fn to_string(&self) -> (r: String) {
        self.0.clone()
    }
}

impl SolrQueryExpression for QueryExpression {
    open spec fn node(&self) -> QueryNode {
        self@
    }

    fn to_string(&self) -> (r: String) {
        self.render_string()
    }
}

impl<'a> vstd::std_specs::convert::FromSpecImpl<&'a str> for QueryOperand {
    open spec fn obeys_from_spec() -> bool {
        false
    }

    open spec fn from_spec(v: &'a str) -> QueryOperand {
        arbitrary()
    }
}

impl<'a> From<&'a str> for QueryOperand {
    fn from(expr: &'a str) -> (r: QueryOperand)
        ensures
            r.0@ == expr@,
    {
        QueryOperand(String::from_str(expr))
    }
}

impl vstd::std_specs::ops::AddSpecImpl<QueryOperand> for QueryOperand {
    open spec fn obeys_add_spec() -> bool {
        false
    }

    open spec fn add_req(self, rhs: QueryOperand) -> bool {
        true
    }

    open spec fn add_spec(self, rhs: QueryOperand) -> QueryExpression {
        arbitrary()
    }
}

/// `a + b` is `a OR b`.
impl core::ops::Add<QueryOperand> for QueryOperand {
    type Output = QueryExpression;

    fn add(self, rhs: QueryOperand) -> (e: QueryExpression)
        ensures
            e@ == combine(Operator::OR, self.node(), rhs.node()),
    {
        QueryExpression::combine_kinds(
            Operator::OR,
            QueryExpressionKind::Operand(self),
            QueryExpressionKind::Operand(rhs),
        )
    }
}

impl vstd::std_specs::ops::MulSpecImpl<QueryOperand> for QueryOperand {
    open spec fn obeys_mul_spec() -> bool {
        false
    }

    open spec fn mul_req(self, rhs: QueryOperand) -> bool {
        true
    }

    open spec fn mul_spec(self, rhs: QueryOperand) -> QueryExpression {
        arbitrary()
    }
}

/// `a * b` is `a AND b`.
impl core::ops::Mul<QueryOperand> for QueryOperand {
    type Output = QueryExpression;

    fn mul(self, rhs: QueryOperand) -> (e: QueryExpression)
        ensures
            e@ == combine(Operator::AND, self.node(), rhs.node()),
    {
        QueryExpression::combine_kinds(
            Operator::AND,
            QueryExpressionKind::Operand(self),
            QueryExpressionKind::Operand(rhs),
        )
    }
}

impl vstd::std_specs::ops::AddSpecImpl<QueryExpression> for QueryOperand {
    open spec fn obeys_add_spec() -> bool {
        false
    }

    open spec fn add_req(self, rhs: QueryExpression) -> bool {
        true
    }

    open spec fn add_spec(self, rhs: QueryExpression) -> QueryExpression {
        arbitrary()
    }
}

impl core::ops::Add<QueryExpression> for QueryOperand {
    type Output = QueryExpression;

    fn add(self, rhs: QueryExpression) -> (e: QueryExpression)
        ensures
            e@ == combine(Operator::OR, self.node(), rhs.node()),
    {
        QueryExpression::combine_kinds(
            Operator::OR,
            QueryExpressionKind::Operand(self),
            QueryExpressionKind::Expression(rhs),
        )
    }
}

impl vstd::std_specs::ops::MulSpecImpl<QueryExpression> for QueryOperand {
    open spec fn obeys_mul_spec() -> bool {
        false
    }

    open spec fn mul_req(self, rhs: QueryExpression) -> bool {
        true
    }

    open spec fn mul_spec(self, rhs: QueryExpression) -> QueryExpression {
        arbitrary()
    }
}

impl core::ops::Mul<QueryExpression> for QueryOperand {
    type Output = QueryExpression;

    fn mul(self, rhs: QueryExpression) -> (e: QueryExpression)
        ensures
            e@ == combine(Operator::AND, self.node(), rhs.node()),
    {
        QueryExpression::combine_kinds(
            Operator::AND,
            QueryExpressionKind::Operand(self),
            QueryExpressionKind::Expression(rhs),
        )
    }
}

impl vstd::std_specs::ops::AddSpecImpl<QueryExpression> for QueryExpression {
    open spec fn obeys_add_spec() -> bool {
        false
    }

    open spec fn add_req(self, rhs: QueryExpression) -> bool {
        true
    }

    open spec fn add_spec(self, rhs: QueryExpression) -> QueryExpression {
        arbitrary()
    }
}

impl core::ops::Add<QueryExpression> for QueryExpression {
    type Output = QueryExpression;

    fn add(self, rhs: QueryExpression) -> (e: QueryExpression)
        ensures
            e@ == combine(Operator::OR, self.node(), rhs.node()),
    {
        QueryExpression::combine_kinds(
            Operator::OR,
            QueryExpressionKind::Expression(self),
            QueryExpressionKind::Expression(rhs),
        )
    }
}

impl vstd::std_specs::ops::MulSpecImpl<QueryExpression> for QueryExpression {
    open spec fn obeys_mul_spec() -> bool {
        false
    }

    open spec fn mul_req(self, rhs: QueryExpression) -> bool {
        true
    }

    open spec fn mul_spec(self, rhs: QueryExpression) -> QueryExpression {
        arbitrary()
    }
}

impl core::ops::Mul<QueryExpression> for QueryExpression {
    type Output = QueryExpression;

    fn mul(self, rhs: QueryExpression) -> (e: QueryExpression)
        ensures
            e@ == combine(Operator::AND, self.node(), rhs.node()),
    {
        QueryExpression::combine_kinds(
            Operator::AND,
            QueryExpressionKind::Expression(self),
            QueryExpressionKind::Expression(rhs),
        )
    }
}

impl vstd::std_specs::ops::AddSpecImpl<QueryOperand> for QueryExpression {
    open spec fn obeys_add_spec() -> bool {
        false
    }

    open spec fn add_req(self, rhs: QueryOperand) -> bool {
        true
    }

    open spec fn add_spec(self, rhs: QueryOperand) -> QueryExpression {
        arbitrary()
    }
}

impl core::ops::Add<QueryOperand> for QueryExpression {
    type Output = QueryExpression;

    fn add(self, rhs: QueryOperand) -> (e: QueryExpression)
        ensures
            e@ == combine(Operator::OR, self.node(), rhs.node()),
    {
        QueryExpression::combine_kinds(
            Operator::OR,
            QueryExpressionKind::Expression(self),
            QueryExpressionKind::Operand(rhs),
        )
    }
}

impl vstd::std_specs::ops::MulSpecImpl<QueryOperand> for QueryExpression {
    open spec fn obeys_mul_spec() -> bool {
        false
    }

    open spec fn mul_req(self, rhs: QueryOperand) -> bool {
        true
    }

    open spec fn mul_spec(self, rhs: QueryOperand) -> QueryExpression {
        arbitrary()
    }
}

impl core::ops::Mul<QueryOperand> for QueryExpression {
    type Output = QueryExpression;

    fn mul(self, rhs: QueryOperand) -> (e: QueryExpression)
        ensures
            e@ == combine(Operator::AND, self.node(), rhs.node()),
    {
        QueryExpression::combine_kinds(
            Operator::AND,
            QueryExpressionKind::Expression(self),
            QueryExpressionKind::Operand(rhs),
        )
    }
}

/// Builds one expression whose direct children are all the given items.
pub trait Aggregation<T: SolrQueryExpression> {
    /// The items joined by `OR`.
    fn sum(operands: Vec<T>) -> (r: QueryExpression)
        ensures
            r@ == QueryNode::Group(Operator::OR, operands@.map_values(|x: T| x.node())),
    ;

    /// The items joined by `AND`.
    fn prod(operands: Vec<T>) -> (r: QueryExpression)
        ensures
            r@ == QueryNode::Group(Operator::AND, operands@.map_values(|x: T| x.node())),
    ;
}

fn operand_children(operands: Vec<QueryOperand>) -> (r: Vec<QueryExpressionKind>)
    ensures
        kind_nodes(r@) == operands@.map_values(|x: QueryOperand| x.node()),
{
    let ghost items = operands@;
    let mut r: Vec<QueryExpressionKind> = Vec::new();
    for x in iter: operands
        invariant
            iter.seq() == items,
            r@.len() == iter.index(),
            forall|j: int| 0 <= j < r@.len() ==> #[trigger] r@[j] == QueryExpressionKind::Operand(
                items[j],
            ),
    {
        r.push(QueryExpressionKind::Operand(x));
    }
    proof {
        lemma_kind_nodes(r@);
        assert(kind_nodes(r@) =~= items.map_values(|x: QueryOperand| x.node()));
    }
    r
}

fn expression_children(operands: Vec<QueryExpression>) -> (r: Vec<QueryExpressionKind>)
    ensures
        kind_nodes(r@) == operands@.map_values(|x: QueryExpression| x.node()),
{
    let ghost items = operands@;
    let mut r: Vec<QueryExpressionKind> = Vec::new();
    for x in iter: operands
        invariant
            iter.seq() == items,
            r@.len() == iter.index(),
            forall|j: int|
                0 <= j < r@.len() ==> #[trigger] r@[j] == QueryExpressionKind::Expression(
                    items[j],
                ),
    {
        r.push(QueryExpressionKind::Expression(x));
    }
    proof {
        lemma_kind_nodes(r@);
        assert(kind_nodes(r@) =~= items.map_values(|x: QueryExpression| x.node()));
    }
    r
}

impl Aggregation<QueryOperand> for QueryExpression {
    fn sum(operands: Vec<QueryOperand>) -> (r: QueryExpression) {
        QueryExpression { operator: Operator::OR, operands: operand_children(operands) }
    }

    fn prod(operands: Vec<QueryOperand>) -> (r: QueryExpression) {
        QueryExpression { operator: Operator::AND, operands: operand_children(operands) }
    }
}

impl Aggregation<QueryExpression> for QueryExpression {
    fn sum(operands: Vec<QueryExpression>) -> (r: QueryExpression) {
        QueryExpression { operator: Operator::OR, operands: expression_children(operands) }
    }

    fn prod(operands: Vec<QueryExpression>) -> (r: QueryExpression) {
        QueryExpression { operator: Operator::AND, operands: expression_children(operands) }
    }
}

proof fn lemma_render_children_concat(op: Operator, cs: Seq<QueryNode>, ds: Seq<QueryNode>)
    requires
        cs.len() >= 1,
        ds.len() >= 1,
    ensures
        render_children(op, cs + ds) == render_children(op, cs) + separator(op) + render_children(
            op,
            ds,
        ),
    decreases ds.len(),
{
    let all = cs + ds;
    if ds.len() == 1 {
        assert(all.subrange(0, all.len() - 1) =~= cs);
        assert(all[all.len() - 1] == ds[0]);
    } else {
        let init = ds.subrange(0, ds.len() - 1);
        lemma_render_children_concat(op, cs, init);
        assert(all.subrange(0, all.len() - 1) =~= cs + init);
        assert(all[all.len() - 1] == ds[ds.len() - 1]);
        let a = render_children(op, cs);
        let b = render_children(op, init);
        let c = render_child(ds[ds.len() - 1]);
        assert(a + separator(op) + b + separator(op) + c =~= a + separator(op) + (b + separator(
            op,
        ) + c));
    }
}

/// Joining by `op` a non-empty group of `op` and a clause, or two non-empty
/// groups of `op`, renders the two sides joined by the separator of `op`,
/// with no parentheses added.
pub proof fn lemma_same_operator_joins_flat(
    op: Operator,
    lcs: Seq<QueryNode>,
    rcs: Seq<QueryNode>,
    c: Seq<char>,
)
    requires
        lcs.len() >= 1,
        rcs.len() >= 1,
    ensures
        render(combine(op, QueryNode::Group(op, lcs), QueryNode::Leaf(c))) == render(
            QueryNode::Group(op, lcs),
        ) + separator(op) + c,
        render(combine(op, QueryNode::Leaf(c), QueryNode::Group(op, rcs))) == c + separator(op)
            + render(QueryNode::Group(op, rcs)),
        render(combine(op, QueryNode::Group(op, lcs), QueryNode::Group(op, rcs))) == render(
            QueryNode::Group(op, lcs),
        ) + separator(op) + render(QueryNode::Group(op, rcs)),
{
    let leaf = seq![QueryNode::Leaf(c)];
    assert(render_children(op, leaf) == render_child(QueryNode::Leaf(c)));
    assert(lcs.push(QueryNode::Leaf(c)) =~= lcs + leaf);
    lemma_render_children_concat(op, lcs, leaf);
    lemma_render_children_concat(op, leaf, rcs);
    lemma_render_children_concat(op, lcs, rcs);
}

/// Two clauses joined by an operator render as the first clause, the
/// operator's separator, then the second clause.
pub proof fn lemma_join_clauses(op: Operator, a: Seq<char>, b: Seq<char>)
    ensures
        render(combine(op, QueryNode::Leaf(a), QueryNode::Leaf(b))) == a + separator(op) + b,
{
    let cs = seq![QueryNode::Leaf(a), QueryNode::Leaf(b)];
    assert(combine(op, QueryNode::Leaf(a), QueryNode::Leaf(b)) == QueryNode::Group(op, cs));
    assert(cs.subrange(0, 1) =~= seq![QueryNode::Leaf(a)]);
    assert(render_children(op, seq![QueryNode::Leaf(a)]) == render_child(QueryNode::Leaf(a)));
    assert(render_child(QueryNode::Leaf(a)) == a);
    assert(render_child(cs[1]) == b);
    assert(render_children(op, cs) == a + separator(op) + b);
}

/// Three clauses joined in one group by `op` render flat.
proof fn lemma_three_clauses(op: Operator, a: Seq<char>, b: Seq<char>, c: Seq<char>)
    ensures
        render(QueryNode::Group(op, seq![QueryNode::Leaf(a), QueryNode::Leaf(b), QueryNode::Leaf(c)]))
            == a + separator(op) + b + separator(op) + c,
{
    let (la, lb, lc) = (QueryNode::Leaf(a), QueryNode::Leaf(b), QueryNode::Leaf(c));
    let all = seq![la, lb, lc];
    let two = seq![la, lb];
    assert(all.subrange(0, 2) =~= two);
    assert(two.subrange(0, 1) =~= seq![la]);
    assert(render_children(op, seq![la]) == render_child(la));
    assert(render_child(la) == a);
    assert(render_child(lb) == b);
    assert(render_children(op, two) == a + separator(op) + b);
    assert(render_child(lc) == c);
    assert(render_children(op, all) == a + separator(op) + b + separator(op) + c);
}

/// A chain of one operator renders flat, without parentheses, however it was
/// grouped, and as the group of all three clauses does.
pub proof fn lemma_chain_is_flat(op: Operator, a: Seq<char>, b: Seq<char>, c: Seq<char>)
    ensures
        render(combine(op, combine(op, QueryNode::Leaf(a), QueryNode::Leaf(b)), QueryNode::Leaf(c)))
            == a + separator(op) + b + separator(op) + c,
        render(combine(op, QueryNode::Leaf(a), combine(op, QueryNode::Leaf(b), QueryNode::Leaf(c))))
            == a + separator(op) + b + separator(op) + c,
        render(QueryNode::Group(op, seq![QueryNode::Leaf(a), QueryNode::Leaf(b), QueryNode::Leaf(c)]))
            == a + separator(op) + b + separator(op) + c,
{
    let (la, lb, lc) = (QueryNode::Leaf(a), QueryNode::Leaf(b), QueryNode::Leaf(c));
    let all = seq![la, lb, lc];
    assert(seq![la, lb].push(lc) =~= all);
    assert(seq![la] + seq![lb, lc] =~= all);
    assert(combine(op, combine(op, la, lb), lc) == QueryNode::Group(op, all));
    assert(combine(op, la, combine(op, lb, lc)) == QueryNode::Group(op, all));
    lemma_three_clauses(op, a, b, c);
}

/// A group of another operator joined as a child keeps its parentheses, on
/// either side.
pub proof fn lemma_mixed_operators_grouped(
    op: Operator,
    other: Operator,
    a: Seq<char>,
    b: Seq<char>,
    c: Seq<char>,
)
    requires
        op != other,
    ensures
        render(
            combine(op, combine(other, QueryNode::Leaf(a), QueryNode::Leaf(b)), QueryNode::Leaf(c)),
        ) == seq!['('] + a + separator(other) + b + seq![')'] + separator(op) + c,
        render(
            combine(op, QueryNode::Leaf(a), combine(other, QueryNode::Leaf(b), QueryNode::Leaf(c))),
        ) == a + separator(op) + seq!['('] + b + separator(other) + c + seq![')'],
{
    let (la, lb, lc) = (QueryNode::Leaf(a), QueryNode::Leaf(b), QueryNode::Leaf(c));
    let left = QueryNode::Group(other, seq![la, lb]);
    let right = QueryNode::Group(other, seq![lb, lc]);
    lemma_join_clauses(other, a, b);
    lemma_join_clauses(other, b, c);
    assert(combine(other, la, lb) == left);
    assert(combine(other, lb, lc) == right);
    let cl = seq![left, lc];
    let cr = seq![la, right];
    assert(combine(op, left, lc) == QueryNode::Group(op, cl));
    assert(combine(op, la, right) == QueryNode::Group(op, cr));
    assert(cl.subrange(0, 1) =~= seq![left]);
    assert(cr.subrange(0, 1) =~= seq![la]);
    assert(render_child(left) == seq!['('] + render(left) + seq![')']);
    assert(render_children(op, seq![left]) == render_child(left));
    assert(render_child(lc) == c);
    assert(render_children(op, cl) == render_child(left) + separator(op) + c);
    assert(render_child(right) == seq!['('] + render(right) + seq![')']);
    assert(render_children(op, seq![la]) == render_child(la));
    assert(render_child(la) == a);
    assert(render_children(op, cr) == a + separator(op) + render_child(right));
    assert(seq!['('] + (a + separator(other) + b) + seq![')'] + separator(op) + c =~= seq!['(']
        + a + separator(other) + b + seq![')'] + separator(op) + c);
    assert(a + separator(op) + (seq!['('] + (b + separator(other) + c) + seq![')']) =~= a
        + separator(op) + seq!['('] + b + separator(other) + c + seq![')']);
}

/// `field:word`, both escaped.
pub open spec fn term_text(field: Seq<char>, word: Seq<char>) -> Seq<char> {
    escaped(field) + ":"@ + escaped(word)
}

/// `field:"word"`, both escaped.
pub open spec fn phrase_text(field: Seq<char>, word: Seq<char>) -> Seq<char> {
    escaped(field) + ":\""@ + escaped(word) + "\""@
}

/// A bound of a range: the escaped value, or `*` when there is none.
pub open spec fn bound_text(b: Option<Seq<char>>) -> Seq<char> {
    match b {
        Some(v) => escaped(v),
        None => "*"@,
    }
}

fn term_string(field: &str, word: &str) -> (r: String)
    ensures
        r@ == term_text(field@, word@),
{
    let mut s = escape_reserved(field);
    s.append(":");
    let w = escape_reserved(word);
    s.append(w.as_str());
    s
}

fn phrase_string(field: &str, word: &str) -> (r: String)
    ensures
        r@ == phrase_text(field@, word@),
{
    let mut s = escape_reserved(field);
    s.append(":\"");
    let w = escape_reserved(word);
    s.append(w.as_str());
    s.append("\"");
    s
}

/// The clause `field:word^boost` with field and word escaped; `boost` is the
/// weight as the caller formats it.
pub fn boost_clause(field: &str, word: &str, boost: &str) -> (r: String)
    ensures
        r@ == term_text(field@, word@) + "^"@ + boost@,
{
    let mut s = term_string(field, word);
    s.append("^");
    s.append(boost);
    s
}

/// The clause `field:word^=weight` with field and word escaped; `weight` is
/// the constant score as the caller formats it.
pub fn constant_clause(field: &str, word: &str, weight: &str) -> (r: String)
    ensures
        r@ == term_text(field@, word@) + "^="@ + weight@,
{
    let mut s = term_string(field, word);
    s.append("^=");
    s.append(weight);
    s
}

/// A plain term clause, `field:word`.
pub struct StandardQueryOperand {
    field: String,
    word: String,
}

impl View for StandardQueryOperand {
    /// Field and word.
    type V = (Seq<char>, Seq<char>);

    closed spec fn view(&self) -> (Seq<char>, Seq<char>) {
        (self.field@, self.word@)
    }
}

impl StandardQueryOperand {
    pub fn new(field: &str, word: &str) -> (r: Self)
        ensures
            r@ == (field@, word@),
    {
        StandardQueryOperand { field: String::from_str(field), word: String::from_str(word) }
    }
}

impl SolrQueryOperandModel for StandardQueryOperand {
    open spec fn text(&self) -> Seq<char> {
        term_text(self@.0, self@.1)
    }

    fn to_string(&self) -> (r: String) {
        term_string(self.field.as_str(), self.word.as_str())
    }
}

/// Model of a range clause: the escaped field, the bounds as given, and
/// whether each end excludes its bound.
pub struct RangeModel {
    pub field: Seq<char>,
    pub start: Option<Seq<char>>,
    pub end: Option<Seq<char>>,
    pub left_open: bool,
    pub right_open: bool,
}

/// `field:[start TO end}` and its variants.
pub open spec fn range_text(m: RangeModel) -> Seq<char> {
    m.field + ":"@ + (if m.left_open {
        "{"@
    } else {
        "["@
    }) + bound_text(m.start) + " TO "@ + bound_text(m.end) + (if m.right_open {
        "}"@
    } else {
        "]"@
    })
}

/// A range clause; each bound is unbounded (`*`) until it is set.
pub struct RangeQueryOperand {
    field: String,
    start: Option<String>,
    end: Option<String>,
    left_open: bool,
    right_open: bool,
}

impl View for RangeQueryOperand {
    type V = RangeModel;

    closed spec fn view(&self) -> RangeModel {
        RangeModel {
            field: self.field@,
            start: opt_text(self.start),
            end: opt_text(self.end),
            left_open: self.left_open,
            right_open: self.right_open,
        }
    }
}

impl RangeQueryOperand {
    /// A range over `field`, escaped here, with both bounds unset: the lower
    /// end inclusive and the upper end exclusive.
    pub fn new(field: &str) -> (r: Self)
        ensures
            r@ == (RangeModel {
                field: escaped(field@),
                start: None,
                end: None,
                left_open: false,
                right_open: true,
            }),
    {
        RangeQueryOperand {
            field: escape_reserved(field),
            start: None,
            end: None,
            left_open: false,
            right_open: true,
        }
    }

    /// Values greater than `start`.
    pub fn gt(self, start: String) -> (r: Self)
        ensures
            r@ == (RangeModel { start: Some(start@), left_open: true, ..self@ }),
    {
        RangeQueryOperand { start: Some(start), left_open: true, ..self }
    }

    /// Values greater than or equal to `start`.
    pub fn ge(self, start: String) -> (r: Self)
        ensures
            r@ == (RangeModel { start: Some(start@), left_open: false, ..self@ }),
    {
        RangeQueryOperand { start: Some(start), left_open: false, ..self }
    }

    /// Values less than `end`.
    pub fn lt(self, end: String) -> (r: Self)
        ensures
            r@ == (RangeModel { end: Some(end@), right_open: true, ..self@ }),
    {
        RangeQueryOperand { end: Some(end), right_open: true, ..self }
    }

    /// Values less than or equal to `end`.
    pub fn le(self, end: String) -> (r: Self)
        ensures
            r@ == (RangeModel { end: Some(end@), right_open: false, ..self@ }),
    {
        RangeQueryOperand { end: Some(end), right_open: false, ..self }
    }
}

fn bound_string(b: &Option<String>) -> (r: String)
    ensures
        r@ == bound_text(opt_text(*b)),
{
    match b {
        Some(v) => escape_reserved(v.as_str()),
        None => String::from_str("*"),
    }
}

impl SolrQueryOperandModel for RangeQueryOperand {
    open spec fn text(&self) -> Seq<char> {
        range_text(self@)
    }

    fn to_string(&self) -> (r: String) {
        let mut s = self.field.clone();
        s.append(":");
        if self.left_open {
            s.append("{");
        } else {
            s.append("[");
        }
        let start = bound_string(&self.start);
        s.append(start.as_str());
        s.append(" TO ");
        let end = bound_string(&self.end);
        s.append(end.as_str());
        if self.right_open {
            s.append("}");
        } else {
            s.append("]");
        }
        s
    }
}

/// A phrase clause, `field:"word"`.
pub struct PhraseQueryOperand {
    field: String,
    word: String,
}

impl View for PhraseQueryOperand {
    /// Field and phrase.
    type V = (Seq<char>, Seq<char>);

    closed spec fn view(&self) -> (Seq<char>, Seq<char>) {
        (self.field@, self.word@)
    }
}

impl PhraseQueryOperand {
    pub fn new(field: &str, word: &str) -> (r: Self)
        ensures
            r@ == (field@, word@),
    {
        PhraseQueryOperand { field: String::from_str(field), word: String::from_str(word) }
    }
}

impl SolrQueryOperandModel for PhraseQueryOperand {
    open spec fn text(&self) -> Seq<char> {
        phrase_text(self@.0, self@.1)
    }

    fn to_string(&self) -> (r: String) {
        phrase_string(self.field.as_str(), self.word.as_str())
    }
}

/// A fuzzy clause, `field:word~N` with `N` the edit distance.
pub struct FuzzyQueryOperand {
    field: String,
    word: String,
    fuzzy: u32,
}

impl View for FuzzyQueryOperand {
    /// Field, word and edit distance.
    type V = (Seq<char>, Seq<char>, u32);

    closed spec fn view(&self) -> (Seq<char>, Seq<char>, u32) {
        (self.field@, self.word@, self.fuzzy)
    }
}

impl FuzzyQueryOperand {
    pub fn new(field: &str, word: &str, fuzzy: u32) -> (r: Self)
        ensures
            r@ == (field@, word@, fuzzy),
    {
        FuzzyQueryOperand { field: String::from_str(field), word: String::from_str(word), fuzzy }
    }
}

impl SolrQueryOperandModel for FuzzyQueryOperand {
    open spec fn text(&self) -> Seq<char> {
        term_text(self@.0, self@.1) + "~"@ + decimal(self@.2 as nat)
    }

    fn to_string(&self) -> (r: String) {
        let mut s = term_string(self.field.as_str(), self.word.as_str());
        s.append("~");
        let n = decimal_string(self.fuzzy);
        s.append(n.as_str());
        s
    }
}

/// A proximity clause, `field:"word"~N` with `N` the slop.
pub struct ProximityQueryOperand {
    field: String,
    word: String,
    proximity: u32,
}

impl View for ProximityQueryOperand {
    /// Field, phrase and slop.
    type V = (Seq<char>, Seq<char>, u32);

    closed spec fn view(&self) -> (Seq<char>, Seq<char>, u32) {
        (self.field@, self.word@, self.proximity)
    }
}

impl ProximityQueryOperand {
    pub fn new(field: &str, word: &str, proximity: u32) -> (r: Self)
        ensures
            r@ == (field@, word@, proximity),
    {
        ProximityQueryOperand {
            field: String::from_str(field),
            word: String::from_str(word),
            proximity,
        }
    }
}

impl SolrQueryOperandModel for ProximityQueryOperand {
    open spec fn text(&self) -> Seq<char> {
        phrase_text(self@.0, self@.1) + "~"@ + decimal(self@.2 as nat)
    }

    fn to_string(&self) -> (r: String) {
        let mut s = phrase_string(self.field.as_str(), self.word.as_str());
        s.append("~");
        let n = decimal_string(self.proximity);
        s.append(n.as_str());
        s
    }
}

impl vstd::std_specs::convert::FromSpecImpl<StandardQueryOperand> for QueryOperand {
    open spec fn obeys_from_spec() -> bool {
        false
    }

    open spec fn from_spec(v: StandardQueryOperand) -> QueryOperand {
        arbitrary()
    }
}

impl From<StandardQueryOperand> for QueryOperand {
    fn from(op: StandardQueryOperand) -> (r: QueryOperand)
        ensures
            r.0@ == op.text(),
    {
        QueryOperand(op.to_string())
    }
}

impl vstd::std_specs::convert::FromSpecImpl<RangeQueryOperand> for QueryOperand {
    open spec fn obeys_from_spec() -> bool {
        false
    }

    open spec fn from_spec(v: RangeQueryOperand) -> QueryOperand {
        arbitrary()
    }
}

impl From<RangeQueryOperand> for QueryOperand {
    fn from(op: RangeQueryOperand) -> (r: QueryOperand)
        ensures
            r.0@ == op.text(),
    {
        QueryOperand(op.to_string())
    }
}

impl vstd::std_specs::convert::FromSpecImpl<PhraseQueryOperand> for QueryOperand {
    open spec fn obeys_from_spec() -> bool {
        false
    }

    open spec fn from_spec(v: PhraseQueryOperand) -> QueryOperand {
        arbitrary()
    }
}

impl From<PhraseQueryOperand> for QueryOperand {
    fn from(op: PhraseQueryOperand) -> (r: QueryOperand)
        ensures
            r.0@ == op.text(),
    {
        QueryOperand(op.to_string())
    }
}

impl vstd::std_specs::convert::FromSpecImpl<FuzzyQueryOperand> for QueryOperand {
    open spec fn obeys_from_spec() -> bool {
        false
    }

    open spec fn from_spec(v: FuzzyQueryOperand) -> QueryOperand {
        arbitrary()
    }
}

impl From<FuzzyQueryOperand> for QueryOperand {
    fn from(op: FuzzyQueryOperand) -> (r: QueryOperand)
        ensures
            r.0@ == op.text(),
    {
        QueryOperand(op.to_string())
    }
}

impl vstd::std_specs::convert::FromSpecImpl<ProximityQueryOperand> for QueryOperand {
    open spec fn obeys_from_spec() -> bool {
        false
    }

    open spec fn from_spec(v: ProximityQueryOperand) -> QueryOperand {
        arbitrary()
    }
}

impl From<ProximityQueryOperand> for QueryOperand {
    fn from(op: ProximityQueryOperand) -> (r: QueryOperand)
        ensures
            r.0@ == op.text(),
    {
        QueryOperand(op.to_string())
    }
}

} // verus!
