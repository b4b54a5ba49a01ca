//! Conditions of `WHERE`, `HAVING`, `ON` and `CASE WHEN`: comparisons, `AND`,
//! `OR`, `NOT`, brackets, `IS [NOT] NULL`, `[NOT] IN (values)` and arithmetic.
use vstd::prelude::*;

use crate::base::arithmetic::{
    arithmetic_expression_at, arithmetic_expression_text, spec_arithmetic_expression,
    ArithmeticExpression, ArithmeticExpressionView,
};
use crate::base::column::{column_at, column_text, spec_column, Column, ColumnView};
use crate::base::error::ParseSQLError;
use crate::base::input::{agrees, char_at, has_tag_nc, str_agrees, ws_end, Input, Parsed};
use crate::base::literal::{
    literal_at, literal_text, spec_literal, spec_value_list, value_list_at, Literal, LiteralView,
};
use crate::base::operator::{operator_at, operator_text, spec_operator, Operator};

verus! {

#[derive(Debug, Eq, Hash, PartialEq)]
pub enum ConditionBase {
    Field(Column),
    Literal(Literal),
    LiteralList(Vec<Literal>),
}

#[derive(Debug, Eq, Hash, PartialEq)]
pub struct ConditionTree {
    pub operator: Operator,
    pub left: Box<ConditionExpression>,
    pub right: Box<ConditionExpression>,
}

/// WHERE CLAUSE
#[derive(Debug, Eq, Hash, PartialEq)]
pub enum ConditionExpression {
    ComparisonOp(ConditionTree),
    LogicalOp(ConditionTree),
    NegationOp(Box<ConditionExpression>),
    Base(ConditionBase),
    Arithmetic(Box<ArithmeticExpression>),
    Bracketed(Box<ConditionExpression>),
}

pub enum ConditionBaseView {
    Field(ColumnView),
    Literal(LiteralView),
    LiteralList(Seq<LiteralView>),
}

pub struct ConditionTreeView {
    pub operator: Operator,
    pub left: Box<ConditionExpressionView>,
    pub right: Box<ConditionExpressionView>,
}

pub enum ConditionExpressionView {
    ComparisonOp(ConditionTreeView),
    LogicalOp(ConditionTreeView),
    NegationOp(Box<ConditionExpressionView>),
    Base(ConditionBaseView),
    Arithmetic(Box<ArithmeticExpressionView>),
    Bracketed(Box<ConditionExpressionView>),
}

impl DeepView for ConditionBase {
    type V = ConditionBaseView;

    open spec fn deep_view(&self) -> ConditionBaseView
        decreases self,
    {
        match self {
            ConditionBase::Field(c) => ConditionBaseView::Field(c.deep_view()),
            ConditionBase::Literal(l) => ConditionBaseView::Literal(l.deep_view()),
            ConditionBase::LiteralList(v) => ConditionBaseView::LiteralList(v.deep_view()),
        }
    }
}

impl DeepView for ConditionTree {
    type V = ConditionTreeView;

    open spec fn deep_view(&self) -> ConditionTreeView
        decreases self,
    {
        ConditionTreeView {
            operator: self.operator,
            left: Box::new((*self.left).deep_view()),
            right: Box::new((*self.right).deep_view()),
        }
    }
}

impl DeepView for ConditionExpression {
    type V = ConditionExpressionView;

    open spec fn deep_view(&self) -> ConditionExpressionView
        decreases self,
    {
        match self {
            ConditionExpression::ComparisonOp(t) => ConditionExpressionView::ComparisonOp(
                t.deep_view(),
            ),
            ConditionExpression::LogicalOp(t) => ConditionExpressionView::LogicalOp(t.deep_view()),
            ConditionExpression::NegationOp(e) => ConditionExpressionView::NegationOp(
                Box::new((**e).deep_view()),
            ),
            ConditionExpression::Base(b) => ConditionExpressionView::Base(b.deep_view()),
            ConditionExpression::Arithmetic(a) => ConditionExpressionView::Arithmetic(
                Box::new((**a).deep_view()),
            ),
            ConditionExpression::Bracketed(e) => ConditionExpressionView::Bracketed(
                Box::new((**e).deep_view()),
            ),
        }
    }
}

/// Literals separated by `, `.
pub open spec fn literal_list_text(s: Seq<LiteralView>) -> Seq<char>
    decreases s.len(),
{
    if s.len() == 0 {
        Seq::empty()
    } else if s.len() == 1 {
        literal_text(s[0])
    } else {
        literal_list_text(s.drop_last()) + ", "@ + literal_text(s.last())
    }
}

pub open spec fn condition_base_text(b: ConditionBaseView) -> Seq<char>
    decreases b,
{
    match b {
        ConditionBaseView::Field(c) => column_text(c),
        ConditionBaseView::Literal(l) => literal_text(l),
        ConditionBaseView::LiteralList(ls) => "("@ + literal_list_text(ls) + ")"@,
    }
}

/// `left operator right`
pub open spec fn condition_tree_text(t: ConditionTreeView) -> Seq<char>
    decreases t,
{
    condition_expression_text(*t.left) + " "@ + operator_text(t.operator) + " "@
        + condition_expression_text(*t.right)
}

pub open spec fn condition_expression_text(e: ConditionExpressionView) -> Seq<char>
    decreases e,
{
    match e {
        ConditionExpressionView::ComparisonOp(t) => condition_tree_text(t),
        ConditionExpressionView::LogicalOp(t) => condition_tree_text(t),
        ConditionExpressionView::NegationOp(x) => "NOT "@ + condition_expression_text(*x),
        ConditionExpressionView::Base(b) => condition_base_text(b),
        ConditionExpressionView::Arithmetic(a) => arithmetic_expression_text(*a),
        ConditionExpressionView::Bracketed(x) => "("@ + condition_expression_text(*x) + ")"@,
    }
}


/// `[ws] kw ws` at `p`, the keyword ignoring case: where it ends.
pub open spec fn keyword_sep(s: Seq<char>, p: int, kw: Seq<char>) -> Option<int> {
    let a = ws_end(s, p);
    let b = a + kw.len();
    if has_tag_nc(s, a, kw) && ws_end(s, b) > b {
        Some(ws_end(s, b))
    } else {
        None
    }
}

/// The tree of a binary condition.
pub open spec fn tree(
    op: Operator,
    l: ConditionExpressionView,
    r: ConditionExpressionView,
) -> ConditionTreeView {
    ConditionTreeView { operator: op, left: Box::new(l), right: Box::new(r) }
}

/// A condition: `and_condition OR condition`, or else `and_condition`.
#[verifier::opaque]
pub open spec fn spec_condition_expr(s: Seq<char>, p: int) -> Parsed<ConditionExpressionView>
    decreases s.len() - p, 30nat,
{
    match spec_and_expr(s, p) {
        Parsed::Done(e, l) => match keyword_sep(s, e, "OR"@) {
            Some(f) => if p < f <= s.len() {
                match spec_condition_expr(s, f) {
                    Parsed::Done(g, r) => Parsed::Done(
                        g,
                        ConditionExpressionView::LogicalOp(tree(Operator::Or, l, r)),
                    ),
                    Parsed::NoMatch => Parsed::Done(e, l),
                    Parsed::Abort => Parsed::Abort,
                }
            } else {
                Parsed::NoMatch
            },
            None => Parsed::Done(e, l),
        },
        other => other,
    }
}

/// `operand AND and_condition`, or else `operand`.
#[verifier::opaque]
pub open spec fn spec_and_expr(s: Seq<char>, p: int) -> Parsed<ConditionExpressionView>
    decreases s.len() - p, 29nat,
{
    match spec_parenthetical_expr(s, p) {
        Parsed::Done(e, l) => match keyword_sep(s, e, "AND"@) {
            Some(f) => if p < f <= s.len() {
                match spec_and_expr(s, f) {
                    Parsed::Done(g, r) => Parsed::Done(
                        g,
                        ConditionExpressionView::LogicalOp(tree(Operator::And, l, r)),
                    ),
                    Parsed::NoMatch => Parsed::Done(e, l),
                    Parsed::Abort => Parsed::Abort,
                }
            } else {
                Parsed::NoMatch
            },
            None => Parsed::Done(e, l),
        },
        other => other,
    }
}

/// An operand of `AND`, trying in order: `(simple) op simple`,
/// `( condition )` and a negation or comparison.
#[verifier::opaque]
pub open spec fn spec_parenthetical_expr(s: Seq<char>, p: int) -> Parsed<ConditionExpressionView>
    decreases s.len() - p, 28nat,
{
    match spec_bracketed_comparison(s, p) {
        Parsed::NoMatch => {
            let a = ws_end(s, p + 1);
            let bracketed = if char_at(s, p, '(') && p < a <= s.len() {
                match spec_condition_expr(s, a) {
                    Parsed::Done(e, c) => {
                        let f = ws_end(s, e);
                        if char_at(s, f, ')') {
                            Parsed::Done(
                                ws_end(s, f + 1),
                                ConditionExpressionView::Bracketed(Box::new(c)),
                            )
                        } else {
                            Parsed::NoMatch
                        }
                    },
                    other => other,
                }
            } else {
                Parsed::NoMatch
            };
            match bracketed {
                Parsed::NoMatch => spec_not_expr(s, p),
                other => other,
            }
        },
        other => other,
    }
}

/// `( [ws] simple [ws] ) [ws] operator [ws] simple`; the left side is bracketed.
#[verifier::opaque]
pub open spec fn spec_bracketed_comparison(s: Seq<char>, p: int) -> Parsed<ConditionExpressionView>
    decreases s.len() - p, 27nat,
{
    let a = ws_end(s, p + 1);
    if char_at(s, p, '(') && p < a <= s.len() {
        match spec_simple_expr(s, a) {
            Parsed::Done(e, l) => {
                let f = ws_end(s, e);
                let g = ws_end(s, f + 1);
                if char_at(s, f, ')') {
                    match spec_operator(s, g) {
                        Parsed::Done(h, op) => {
                            let i = ws_end(s, h);
                            if p < i <= s.len() {
                                match spec_simple_expr(s, i) {
                                    Parsed::Done(j, r) => Parsed::Done(
                                        j,
                                        ConditionExpressionView::ComparisonOp(
                                            tree(op, ConditionExpressionView::Bracketed(Box::new(l)), r),
                                        ),
                                    ),
                                    other => other,
                                }
                            } else {
                                Parsed::NoMatch
                            }
                        },
                        _ => Parsed::NoMatch,
                    }
                } else {
                    Parsed::NoMatch
                }
            },
            other => other,
        }
    } else {
        Parsed::NoMatch
    }
}

/// `NOT ws operand`, ignoring case, or else a comparison.
#[verifier::opaque]
pub open spec fn spec_not_expr(s: Seq<char>, p: int) -> Parsed<ConditionExpressionView>
    decreases s.len() - p, 26nat,
{
    let a = ws_end(s, p + "NOT"@.len());
    let negation = if has_tag_nc(s, p, "NOT"@) && p + "NOT"@.len() < a <= s.len() {
        match spec_parenthetical_expr(s, a) {
            Parsed::Done(e, x) => Parsed::Done(e, ConditionExpressionView::NegationOp(Box::new(x))),
            other => other,
        }
    } else {
        Parsed::NoMatch
    };
    match negation {
        Parsed::NoMatch => spec_boolean_primary(s, p),
        other => other,
    }
}

/// `predicate [ws] rest` as a comparison, or else `predicate`.
#[verifier::opaque]
pub open spec fn spec_boolean_primary(s: Seq<char>, p: int) -> Parsed<ConditionExpressionView>
    decreases s.len() - p, 25nat,
{
    match spec_predicate(s, p) {
        Parsed::Done(e, l) => {
            let a = ws_end(s, e);
            if p <= a <= s.len() {
                match spec_boolean_primary_rest(s, a) {
                    Parsed::Done(f, (op, r)) => Parsed::Done(
                        f,
                        ConditionExpressionView::ComparisonOp(tree(op, l, r)),
                    ),
                    Parsed::NoMatch => Parsed::Done(e, l),
                    Parsed::Abort => Parsed::Abort,
                }
            } else {
                Parsed::NoMatch
            }
        },
        other => other,
    }
}

/// `IS [ws] [NOT] [ws] NULL`, ignoring case: where it ends and `=`, or `!=`
/// with `NOT`.
pub open spec fn is_null(s: Seq<char>, p: int) -> Option<(int, Operator)> {
    let a = ws_end(s, p + "IS"@.len());
    let negated = has_tag_nc(s, a, "NOT"@);
    let b = if negated {
        a + "NOT"@.len()
    } else {
        a
    };
    let c = ws_end(s, b);
    if has_tag_nc(s, p, "IS"@) && has_tag_nc(s, c, "NULL"@) {
        Some(
            (
                c + "NULL"@.len(),
                if negated {
                    Operator::NotEqual
                } else {
                    Operator::Equal
                },
            ),
        )
    } else {
        None
    }
}

/// `[NOT ws] IN [ws] (values)`, ignoring case: `IN` or `NOT IN` and the values.
pub open spec fn spec_in_operation(s: Seq<char>, p: int) -> Parsed<(Operator, Seq<LiteralView>)> {
    let negated = has_tag_nc(s, p, "NOT"@) && ws_end(s, p + "NOT"@.len()) > p + "NOT"@.len();
    let a = if negated {
        ws_end(s, p + "NOT"@.len())
    } else {
        p
    };
    let b = ws_end(s, a + "IN"@.len());
    if has_tag_nc(s, a, "IN"@) && char_at(s, b, '(') {
        match spec_value_list(s, b + 1) {
            Parsed::Done(e, vs) => if char_at(s, e, ')') {
                Parsed::Done(
                    e + 1,
                    (
                        if negated {
                            Operator::NotIn
                        } else {
                            Operator::In
                        },
                        vs,
                    ),
                )
            } else {
                Parsed::NoMatch
            },
            Parsed::NoMatch => Parsed::NoMatch,
            Parsed::Abort => Parsed::Abort,
        }
    } else {
        Parsed::NoMatch
    }
}

/// The right side of a comparison, trying in order: `IS [NOT] NULL`,
/// `[NOT] IN (values)`, and `operator [ws] predicate`.
#[verifier::opaque]
pub open spec fn spec_boolean_primary_rest(s: Seq<char>, p: int) -> Parsed<
    (Operator, ConditionExpressionView),
>
    decreases s.len() - p, 24nat,
{
    match is_null(s, p) {
        Some((e, op)) => Parsed::Done(
            e,
            (op, ConditionExpressionView::Base(ConditionBaseView::Literal(LiteralView::Null))),
        ),
        None => match spec_in_operation(s, p) {
            Parsed::Done(e, (op, vs)) => Parsed::Done(
                e,
                (op, ConditionExpressionView::Base(ConditionBaseView::LiteralList(vs))),
            ),
            Parsed::Abort => Parsed::Abort,
            Parsed::NoMatch => match spec_operator(s, p) {
                Parsed::Done(e, op) => {
                    let a = ws_end(s, e);
                    if p < a <= s.len() {
                        match spec_predicate(s, a) {
                            Parsed::Done(f, r) => Parsed::Done(f, (op, r)),
                            Parsed::NoMatch => Parsed::NoMatch,
                            Parsed::Abort => Parsed::Abort,
                        }
                    } else {
                        Parsed::NoMatch
                    }
                },
                _ => Parsed::NoMatch,
            },
        },
    }
}

/// A predicate: a simple expression.
#[verifier::opaque]
pub open spec fn spec_predicate(s: Seq<char>, p: int) -> Parsed<ConditionExpressionView>
    decreases s.len() - p, 23nat,
{
    spec_simple_expr(s, p)
}

/// A simple expression, trying in order: `( [ws] arithmetic [ws] )`,
/// arithmetic, a literal and a column.
#[verifier::opaque]
pub open spec fn spec_simple_expr(s: Seq<char>, p: int) -> Parsed<ConditionExpressionView>
    decreases s.len() - p, 22nat,
{
    let a = ws_end(s, p + 1);
    let bracketed = if char_at(s, p, '(') && p < a <= s.len() {
        match spec_arithmetic_expression(s, a) {
            Parsed::Done(e, x) => {
                let f = ws_end(s, e);
                if char_at(s, f, ')') {
                    Parsed::Done(
                        f + 1,
                        ConditionExpressionView::Bracketed(
                            Box::new(ConditionExpressionView::Arithmetic(Box::new(x))),
                        ),
                    )
                } else {
                    Parsed::NoMatch
                }
            },
            Parsed::NoMatch => Parsed::NoMatch,
            Parsed::Abort => Parsed::Abort,
        }
    } else {
        Parsed::NoMatch
    };
    match bracketed {
        Parsed::NoMatch => match spec_arithmetic_expression(s, p) {
            Parsed::Done(e, x) => Parsed::Done(e, ConditionExpressionView::Arithmetic(Box::new(x))),
            Parsed::Abort => Parsed::Abort,
            Parsed::NoMatch => match spec_literal(s, p) {
                Parsed::Done(e, l) => Parsed::Done(
                    e,
                    ConditionExpressionView::Base(ConditionBaseView::Literal(l)),
                ),
                Parsed::Abort => Parsed::Abort,
                Parsed::NoMatch => match spec_column(s, p) {
                    Parsed::Done(e, c) => Parsed::Done(
                        e,
                        ConditionExpressionView::Base(ConditionBaseView::Field(c)),
                    ),
                    Parsed::NoMatch => Parsed::NoMatch,
                    Parsed::Abort => Parsed::Abort,
                },
            },
        },
        other => other,
    }
}

fn keyword_sep_at(src: &Input, p: usize, kw: &str) -> (r: Option<usize>)
    requires
        p <= src@.len(),
    ensures
        match keyword_sep(src@, p as int, kw@) {
            Some(f) => r matches Some(f2) && f2 == f,
            None => r is None,
        },
        r matches Some(f) ==> p < f <= src@.len(),
{
    let a = src.skip_ws(p);
    if !src.tag_nc(a, kw) {
        return None;
    }
    let b = a + kw.unicode_len();
    let f = src.skip_ws(b);
    if f > b {
        Some(f)
    } else {
        None
    }
}

fn tree_of(op: Operator, l: ConditionExpression, r: ConditionExpression) -> (t: ConditionTree)
    ensures
        t.deep_view() == tree(op, l.deep_view(), r.deep_view()),
{
    ConditionTree { operator: op, left: Box::new(l), right: Box::new(r) }
}

/// `[ws] kw ws condition`, the keyword ignoring case.
pub open spec fn spec_keyword_condition(s: Seq<char>, p: int, kw: Seq<char>) -> Parsed<
    ConditionExpressionView,
> {
    match keyword_sep(s, p, kw) {
        Some(c) => spec_condition_expr(s, c),
        None => Parsed::NoMatch,
    }
}

/// The columns that stand alone on a side of a comparison or logical
/// operator of the tree, through nested comparison and logical operators,
/// left side first.
pub open spec fn tree_columns(t: ConditionTreeView) -> Seq<ColumnView>
    decreases t,
{
    side_columns(*t.left) + side_columns(*t.right)
}

pub open spec fn side_columns(e: ConditionExpressionView) -> Seq<ColumnView>
    decreases e,
{
    match e {
        ConditionExpressionView::Base(ConditionBaseView::Field(c)) => seq![c],
        ConditionExpressionView::LogicalOp(t) => tree_columns(t),
        ConditionExpressionView::ComparisonOp(t) => tree_columns(t),
        _ => Seq::empty(),
    }
}

/// The columns of `s` in order, each kept at its first occurrence only.
pub open spec fn distinct_columns(s: Seq<ColumnView>) -> Seq<ColumnView>
    decreases s.len(),
{
    if s.len() == 0 {
        Seq::empty()
    } else {
        let d = distinct_columns(s.drop_last());
        if d.contains(s.last()) {
            d
        } else {
            d.push(s.last())
        }
    }
}

/// Keeping first occurrences keeps every column of `s` and no other, each once.
pub proof fn lemma_distinct_columns(s: Seq<ColumnView>)
    ensures
        distinct_columns(s).no_duplicates(),
        forall|c: ColumnView| #[trigger] distinct_columns(s).contains(c) <==> s.contains(c),
    decreases s.len(),
{
    if s.len() > 0 {
        lemma_distinct_columns(s.drop_last());
        let d = distinct_columns(s.drop_last());
        assert forall|c: ColumnView| #[trigger] distinct_columns(s).contains(c) <==> s.contains(
            c,
        ) by {
            if s.contains(c) {
                let k = choose|k: int| 0 <= k < s.len() && s[k] == c;
                if k < s.len() - 1 {
                    assert(s.drop_last()[k] == c);
                    assert(s.drop_last().contains(c));
                }
            }
            if s.drop_last().contains(c) {
                let k = choose|k: int| 0 <= k < s.drop_last().len() && s.drop_last()[k] == c;
                assert(s[k] == c);
            }
            if !d.contains(s.last()) && distinct_columns(s).contains(c) {
                let k = choose|k: int|
                    0 <= k < distinct_columns(s).len() && distinct_columns(s)[k] == c;
                if k < d.len() {
                    assert(d[k] == c);
                }
            }
            if !d.contains(s.last()) && d.contains(c) {
                let k = choose|k: int| 0 <= k < d.len() && d[k] == c;
                assert(d.push(s.last())[k] == c);
            }
            if !d.contains(s.last()) && c == s.last() {
                assert(d.push(s.last())[d.len() as int] == c);
            }
        }
    }
}

impl ConditionTree {
    /// The columns that stand alone on a side of a comparison or logical
    /// operator of the tree, through nested comparison and logical operators,
    /// each column once (at its first occurrence, left side first).
    pub fn contained_columns(&self) -> (r: Vec<&Column>)
        ensures
            r.deep_view() == distinct_columns(tree_columns(self.deep_view())),
            r.deep_view().no_duplicates(),
            forall|c: ColumnView| #[trigger] r.deep_view().contains(c) <==> tree_columns(
                self.deep_view(),
            ).contains(c),
    {
        let all = self.all_columns();
        let ghost cs = all.deep_view();
        let mut out: Vec<&Column> = Vec::new();
        let mut i: usize = 0;
        assert(cs.subrange(0, 0) =~= Seq::<ColumnView>::empty());
        while i < all.len()
            invariant
                i <= all.len(),
                cs == all.deep_view(),
                out.deep_view() == distinct_columns(cs.subrange(0, i as int)),
            decreases all.len() - i,
        {
            let x = all[i];
            let mut found = false;
            let mut j: usize = 0;
            while j < out.len()
                invariant
                    j <= out.len(),
                    x.deep_view() == cs[i as int],
                    found <==> exists|k: int| 0 <= k < j && out.deep_view()[k] == x.deep_view(),
                decreases out.len() - j,
            {
                if crate::base::tree_eq::same_column(out[j], x) {
                    found = true;
                }
                assert(out.deep_view()[j as int] == out[j as int].deep_view());
                j = j + 1;
            }
            let ghost prev = cs.subrange(0, i as int);
            let ghost next = cs.subrange(0, i + 1);
            assert(next.drop_last() =~= prev);
            assert(next.last() == x.deep_view());
            assert(found <==> out.deep_view().contains(x.deep_view()));
            if !found {
                let ghost before = out.deep_view();
                out.push(x);
                assert(out.deep_view() =~= before.push(x.deep_view()));
            }
            i = i + 1;
        }
        assert(cs.subrange(0, all.len() as int) =~= cs);
        proof {
            lemma_distinct_columns(cs);
        }
        out
    }

    /// All the columns that stand alone on a side of a comparison or logical
    /// operator of the tree, left side first, repeats included.
    fn all_columns(&self) -> (r: Vec<&Column>)
        ensures
            r.deep_view() == tree_columns(self.deep_view()),
        decreases self,
    {
        let mut r = side_columns_of(&self.left);
        let mut more = side_columns_of(&self.right);
        let ghost a = r.deep_view();
        let ghost b = more.deep_view();
        r.append(&mut more);
        assert(r.deep_view() =~= a + b);
        r
    }
}

fn side_columns_of(e: &ConditionExpression) -> (r: Vec<&Column>)
    ensures
        r.deep_view() == side_columns(e.deep_view()),
    decreases e,
{
    match e {
        ConditionExpression::Base(b) => {
            assert(e.deep_view() == ConditionExpressionView::Base(b.deep_view()));
            match b {
                ConditionBase::Field(c) => {
                    assert(b.deep_view() == ConditionBaseView::Field(c.deep_view()));
                    let mut r = Vec::new();
                    r.push(c);
                    assert(r.deep_view() =~= seq![c.deep_view()]);
                    r
                },
                ConditionBase::Literal(l) => {
                    assert(b.deep_view() == ConditionBaseView::Literal(l.deep_view()));
                    let r = Vec::new();
                    assert(r.deep_view() =~= Seq::<ColumnView>::empty());
                    r
                },
                ConditionBase::LiteralList(ls) => {
                    assert(b.deep_view() == ConditionBaseView::LiteralList(ls.deep_view()));
                    let r = Vec::new();
                    assert(r.deep_view() =~= Seq::<ColumnView>::empty());
                    r
                },
            }
        },
        ConditionExpression::LogicalOp(t) => t.all_columns(),
        ConditionExpression::ComparisonOp(t) => t.all_columns(),
        _ => {
            let r = Vec::new();
            assert(r.deep_view() =~= Seq::<ColumnView>::empty());
            r
        },
    }
}

impl ConditionExpression {
    /// `WHERE ws condition`, ignoring case, after optional white space.
    pub fn parse(i: &str) -> (r: Result<(&str, ConditionExpression), ParseSQLError>)
        requires
            !(spec_keyword_condition(i@, 0, "WHERE"@) is Abort),
        ensures
            str_agrees(i@, r, spec_keyword_condition(i@, 0, "WHERE"@)),
    {
        let src = Input::new(i);
        match keyword_condition_at(&src, 0, "WHERE") {
            Some((q, v)) => Ok((src.rest(q), v)),
            None => Err(ParseSQLError::grammar(i)),
        }
    }

    /// `HAVING ws condition`, ignoring case, after optional white space.
    pub fn having_clause(i: &str) -> (r: Result<(&str, ConditionExpression), ParseSQLError>)
        requires
            !(spec_keyword_condition(i@, 0, "HAVING"@) is Abort),
        ensures
            str_agrees(i@, r, spec_keyword_condition(i@, 0, "HAVING"@)),
    {
        let src = Input::new(i);
        match keyword_condition_at(&src, 0, "HAVING") {
            Some((q, v)) => Ok((src.rest(q), v)),
            None => Err(ParseSQLError::grammar(i)),
        }
    }

    /// A conditional expression as a condition tree: `OR` binds looser than
    /// `AND`, both group to the right.
    pub fn condition_expr(i: &str) -> (r: Result<(&str, ConditionExpression), ParseSQLError>)
        requires
            !(spec_condition_expr(i@, 0) is Abort),
        ensures
            str_agrees(i@, r, spec_condition_expr(i@, 0)),
    {
        let src = Input::new(i);
        match condition_expr_at(&src, 0) {
            Some((q, v)) => Ok((src.rest(q), v)),
            None => Err(ParseSQLError::grammar(i)),
        }
    }

    /// An operand of `AND`: a bracketed comparison, a bracketed condition, a
    /// negation or a comparison.
    pub fn parenthetical_expr(i: &str) -> (r: Result<(&str, ConditionExpression), ParseSQLError>)
        requires
            !(spec_parenthetical_expr(i@, 0) is Abort),
        ensures
            str_agrees(i@, r, spec_parenthetical_expr(i@, 0)),
    {
        let src = Input::new(i);
        match parenthetical_expr_at(&src, 0) {
            Some((q, v)) => Ok((src.rest(q), v)),
            None => Err(ParseSQLError::grammar(i)),
        }
    }

    /// A bracketed arithmetic expression, an arithmetic expression, a literal
    /// or a column.
    pub fn simple_expr(i: &str) -> (r: Result<(&str, ConditionExpression), ParseSQLError>)
        requires
            !(spec_simple_expr(i@, 0) is Abort),
        ensures
            str_agrees(i@, r, spec_simple_expr(i@, 0)),
    {
        let src = Input::new(i);
        match simple_expr_at(&src, 0) {
            Some((q, v)) => Ok((src.rest(q), v)),
            None => Err(ParseSQLError::grammar(i)),
        }
    }
}

fn keyword_condition_at(src: &Input, p: usize, kw: &str) -> (r: Option<(usize, ConditionExpression)>)
    requires
        p <= src@.len(),
        !(spec_keyword_condition(src@, p as int, kw@) is Abort),
    ensures
        agrees(r, spec_keyword_condition(src@, p as int, kw@)),
        r matches Some((e, _)) ==> p <= e <= src@.len(),
{
    match keyword_sep_at(src, p, kw) {
        Some(c) => condition_expr_at(src, c),
        None => None,
    }
}

fn base_of(b: ConditionBase) -> (e: ConditionExpression)
    ensures
        e.deep_view() == ConditionExpressionView::Base(b.deep_view()),
{
    ConditionExpression::Base(b)
}

fn bracketed_of(c: ConditionExpression) -> (e: ConditionExpression)
    ensures
        e.deep_view() == ConditionExpressionView::Bracketed(Box::new(c.deep_view())),
{
    ConditionExpression::Bracketed(Box::new(c))
}

fn arithmetic_of(x: ArithmeticExpression) -> (e: ConditionExpression)
    ensures
        e.deep_view() == ConditionExpressionView::Arithmetic(Box::new(x.deep_view())),
{
    ConditionExpression::Arithmetic(Box::new(x))
}

pub fn condition_expr_at(src: &Input, p: usize) -> (r: Option<(usize, ConditionExpression)>)
    requires
        p <= src@.len(),
        !(spec_condition_expr(src@, p as int) is Abort),
    ensures
        agrees(r, spec_condition_expr(src@, p as int)),
        r matches Some((e, _)) ==> p <= e <= src@.len(),
    decreases src@.len() - p, 30nat,
{
    proof {
        reveal_with_fuel(spec_condition_expr, 1);
        reveal_with_fuel(spec_and_expr, 1);
    }
    match and_expr_at(src, p) {
        Some((e, l)) => match keyword_sep_at(src, e, "OR") {
            Some(f) => match condition_expr_at(src, f) {
                Some((g, r)) => Some(
                    (g, ConditionExpression::LogicalOp(tree_of(Operator::Or, l, r))),
                ),
                None => Some((e, l)),
            },
            None => Some((e, l)),
        },
        None => None,
    }
}

fn and_expr_at(src: &Input, p: usize) -> (r: Option<(usize, ConditionExpression)>)
    requires
        p <= src@.len(),
        !(spec_and_expr(src@, p as int) is Abort),
    ensures
        agrees(r, spec_and_expr(src@, p as int)),
        r matches Some((e, _)) ==> p <= e <= src@.len(),
    decreases src@.len() - p, 29nat,
{
    proof {
        reveal_with_fuel(spec_and_expr, 1);
        reveal_with_fuel(spec_parenthetical_expr, 1);
    }
    match parenthetical_expr_at(src, p) {
        Some((e, l)) => match keyword_sep_at(src, e, "AND") {
            Some(f) => match and_expr_at(src, f) {
                Some((g, r)) => Some(
                    (g, ConditionExpression::LogicalOp(tree_of(Operator::And, l, r))),
                ),
                None => Some((e, l)),
            },
            None => Some((e, l)),
        },
        None => None,
    }
}

pub fn parenthetical_expr_at(src: &Input, p: usize) -> (r: Option<(usize, ConditionExpression)>)
    requires
        p <= src@.len(),
        !(spec_parenthetical_expr(src@, p as int) is Abort),
    ensures
        agrees(r, spec_parenthetical_expr(src@, p as int)),
        r matches Some((e, _)) ==> p <= e <= src@.len(),
    decreases src@.len() - p, 28nat,
{
    proof {
        reveal_with_fuel(spec_parenthetical_expr, 1);
        reveal_with_fuel(spec_bracketed_comparison, 1);
        reveal_with_fuel(spec_condition_expr, 1);
        reveal_with_fuel(spec_not_expr, 1);
    }
    if let Some(x) = bracketed_comparison_at(src, p) {
        return Some(x);
    }
    if src.is_char(p, '(') {
        let a = src.skip_ws(p + 1);
        if let Some((e, c)) = condition_expr_at(src, a) {
            let f = src.skip_ws(e);
            if src.is_char(f, ')') {
                return Some((src.skip_ws(f + 1), bracketed_of(c)));
            }
        }
    }
    not_expr_at(src, p)
}

fn bracketed_comparison_at(src: &Input, p: usize) -> (r: Option<(usize, ConditionExpression)>)
    requires
        p <= src@.len(),
        !(spec_bracketed_comparison(src@, p as int) is Abort),
    ensures
        agrees(r, spec_bracketed_comparison(src@, p as int)),
        r matches Some((e, _)) ==> p <= e <= src@.len(),
    decreases src@.len() - p, 27nat,
{
    proof {
        reveal_with_fuel(spec_bracketed_comparison, 1);
        reveal_with_fuel(spec_simple_expr, 1);
    }
    if !src.is_char(p, '(') {
        return None;
    }
    let a = src.skip_ws(p + 1);
    let (e, l) = match simple_expr_at(src, a) {
        Some(x) => x,
        None => return None,
    };
    let f = src.skip_ws(e);
    if !src.is_char(f, ')') {
        return None;
    }
    let g = src.skip_ws(f + 1);
    let (h, op) = match operator_at(src, g) {
        Some(x) => x,
        None => return None,
    };
    let i = src.skip_ws(h);
    match simple_expr_at(src, i) {
        Some((j, r)) => Some(
            (
                j,
                ConditionExpression::ComparisonOp(
                    tree_of(op, bracketed_of(l), r),
                ),
            ),
        ),
        None => None,
    }
}

fn not_expr_at(src: &Input, p: usize) -> (r: Option<(usize, ConditionExpression)>)
    requires
        p <= src@.len(),
        !(spec_not_expr(src@, p as int) is Abort),
    ensures
        agrees(r, spec_not_expr(src@, p as int)),
        r matches Some((e, _)) ==> p <= e <= src@.len(),
    decreases src@.len() - p, 26nat,
{
    proof {
        reveal_with_fuel(spec_not_expr, 1);
        reveal_with_fuel(spec_boolean_primary, 1);
        reveal_with_fuel(spec_parenthetical_expr, 1);
    }
    if src.tag_nc(p, "NOT") {
        let b = p + "NOT".unicode_len();
        let a = src.skip_ws(b);
        if a > b {
            if let Some((e, x)) = parenthetical_expr_at(src, a) {
                return Some((e, ConditionExpression::NegationOp(Box::new(x))));
            }
        }
    }
    boolean_primary_at(src, p)
}

fn boolean_primary_at(src: &Input, p: usize) -> (r: Option<(usize, ConditionExpression)>)
    requires
        p <= src@.len(),
        !(spec_boolean_primary(src@, p as int) is Abort),
    ensures
        agrees(r, spec_boolean_primary(src@, p as int)),
        r matches Some((e, _)) ==> p <= e <= src@.len(),
    decreases src@.len() - p, 25nat,
{
    proof {
        reveal_with_fuel(spec_boolean_primary, 1);
        reveal_with_fuel(spec_boolean_primary_rest, 1);
        reveal_with_fuel(spec_predicate, 1);
    }
    match predicate_at(src, p) {
        Some((e, l)) => {
            let a = src.skip_ws(e);
            match boolean_primary_rest_at(src, a) {
                Some((f, (op, r))) => Some(
                    (f, ConditionExpression::ComparisonOp(tree_of(op, l, r))),
                ),
                None => Some((e, l)),
            }
        },
        None => None,
    }
}

fn is_null_at(src: &Input, p: usize) -> (r: Option<(usize, Operator)>)
    requires
        p <= src@.len(),
    ensures
        match is_null(src@, p as int) {
            Some((e, op)) => r matches Some((e2, op2)) && e2 == e && op2 == op,
            None => r is None,
        },
        r matches Some((e, _)) ==> p <= e <= src@.len(),
{
    if !src.tag_nc(p, "IS") {
        return None;
    }
    let a = src.skip_ws(p + "IS".unicode_len());
    let negated = src.tag_nc(a, "NOT");
    let b = if negated {
        a + "NOT".unicode_len()
    } else {
        a
    };
    let c = src.skip_ws(b);
    if src.tag_nc(c, "NULL") {
        Some(
            (
                c + "NULL".unicode_len(),
                if negated {
                    Operator::NotEqual
                } else {
                    Operator::Equal
                },
            ),
        )
    } else {
        None
    }
}

fn in_operation_at(src: &Input, p: usize) -> (r: Option<(usize, (Operator, Vec<Literal>))>)
    requires
        p <= src@.len(),
        !(spec_in_operation(src@, p as int) is Abort),
    ensures
        agrees(r, spec_in_operation(src@, p as int)),
        r matches Some((e, _)) ==> p <= e <= src@.len(),
{
    let mut negated = false;
    let mut a = p;
    if src.tag_nc(p, "NOT") {
        let b = p + "NOT".unicode_len();
        let c = src.skip_ws(b);
        if c > b {
            negated = true;
            a = c;
        }
    }
    if !src.tag_nc(a, "IN") {
        return None;
    }
    let b = src.skip_ws(a + "IN".unicode_len());
    if !src.is_char(b, '(') {
        return None;
    }
    match value_list_at(src, b + 1) {
        Some((e, vs)) => if src.is_char(e, ')') {
            Some(
                (
                    e + 1,
                    (
                        if negated {
                            Operator::NotIn
                        } else {
                            Operator::In
                        },
                        vs,
                    ),
                ),
            )
        } else {
            None
        },
        None => None,
    }
}

fn boolean_primary_rest_at(src: &Input, p: usize) -> (r: Option<
    (usize, (Operator, ConditionExpression)),
>)
    requires
        p <= src@.len(),
        !(spec_boolean_primary_rest(src@, p as int) is Abort),
    ensures
        agrees(r, spec_boolean_primary_rest(src@, p as int)),
        r matches Some((e, _)) ==> p <= e <= src@.len(),
    decreases src@.len() - p, 24nat,
{
    proof {
        reveal_with_fuel(spec_boolean_primary_rest, 1);
        reveal_with_fuel(spec_predicate, 1);
    }
    if let Some((e, op)) = is_null_at(src, p) {
        return Some(
            (e, (op, base_of(ConditionBase::Literal(Literal::Null)))),
        );
    }
    if let Some((e, (op, vs))) = in_operation_at(src, p) {
        return Some((e, (op, base_of(ConditionBase::LiteralList(vs)))));
    }
    match operator_at(src, p) {
        Some((e, op)) => {
            let a = src.skip_ws(e);
            match predicate_at(src, a) {
                Some((f, r)) => Some((f, (op, r))),
                None => None,
            }
        },
        None => None,
    }
}

fn predicate_at(src: &Input, p: usize) -> (r: Option<(usize, ConditionExpression)>)
    requires
        p <= src@.len(),
        !(spec_predicate(src@, p as int) is Abort),
    ensures
        agrees(r, spec_predicate(src@, p as int)),
        r matches Some((e, _)) ==> p <= e <= src@.len(),
    decreases src@.len() - p, 23nat,
{
    proof {
        reveal_with_fuel(spec_predicate, 1);
        reveal_with_fuel(spec_simple_expr, 1);
    }
    simple_expr_at(src, p)
}

pub fn simple_expr_at(src: &Input, p: usize) -> (r: Option<(usize, ConditionExpression)>)
    requires
        p <= src@.len(),
        !(spec_simple_expr(src@, p as int) is Abort),
    ensures
        agrees(r, spec_simple_expr(src@, p as int)),
        r matches Some((e, _)) ==> p <= e <= src@.len(),
    decreases src@.len() - p, 22nat,
{
    proof {
        reveal_with_fuel(spec_simple_expr, 1);
        reveal_with_fuel(spec_arithmetic_expression, 1);
        reveal_with_fuel(spec_column, 1);
    }
    if src.is_char(p, '(') {
        let a = src.skip_ws(p + 1);
        if let Some((e, x)) = arithmetic_expression_at(src, a) {
            let f = src.skip_ws(e);
            if src.is_char(f, ')') {
                return Some((f + 1, bracketed_of(arithmetic_of(x))));
            }
        }
    }
    if let Some((e, x)) = arithmetic_expression_at(src, p) {
        return Some((e, arithmetic_of(x)));
    }
    if let Some((e, l)) = literal_at(src, p) {
        return Some((e, base_of(ConditionBase::Literal(l))));
    }
    match column_at(src, p) {
        Some((e, c)) => Some((e, base_of(ConditionBase::Field(c)))),
        None => None,
    }
}

/// Appends literals separated by `, `.
fn push_literal_list(out: &mut String, v: &Vec<Literal>)
    ensures
        final(out)@ == old(out)@ + literal_list_text(v.deep_view()),
{
    let ghost start = out@;
    let n = v.len();
    let mut k: usize = 0;
    assert(v.deep_view().subrange(0, 0) =~= Seq::<LiteralView>::empty());
    while k < n
        invariant
            k <= n,
            n == v@.len(),
            out@ == start + literal_list_text(v.deep_view().subrange(0, k as int)),
        decreases n - k,
    {
        let ghost prev = v.deep_view().subrange(0, k as int);
        let ghost next = v.deep_view().subrange(0, k + 1);
        if k > 0 {
            out.append(", ");
        }
        v[k].push_text(out);
        proof {
            reveal_strlit(", ");
            assert(next.drop_last() =~= prev);
            assert(next.last() == v@[k as int].deep_view());
        }
        assert(out@ =~= start + literal_list_text(next));
        k = k + 1;
    }
    assert(v.deep_view().subrange(0, n as int) =~= v.deep_view());
}

impl ConditionBase {
    pub fn push_text(&self, out: &mut String)
        ensures
            final(out)@ == old(out)@ + condition_base_text(self.deep_view()),
        decreases self,
    {
        let ghost start = out@;
        match self {
            ConditionBase::Field(c) => c.push_text(out),
            ConditionBase::Literal(l) => l.push_text(out),
            ConditionBase::LiteralList(ls) => {
                out.append("(");
                push_literal_list(out, ls);
                out.append(")");
            },
        }
        assert(out@ =~= start + condition_base_text(self.deep_view()));
    }
}

impl ConditionTree {
    pub fn push_text(&self, out: &mut String)
        ensures
            final(out)@ == old(out)@ + condition_tree_text(self.deep_view()),
        decreases self,
    {
        let ghost start = out@;
        self.left.push_text(out);
        out.append(" ");
        out.append(self.operator.to_string().as_str());
        out.append(" ");
        self.right.push_text(out);
        assert(out@ =~= start + condition_tree_text(self.deep_view()));
    }

    pub fn to_string(&self) -> (r: String)
        ensures
            r@ == condition_tree_text(self.deep_view()),
    {
        let mut out = String::new();
        self.push_text(&mut out);
        assert(out@ =~= condition_tree_text(self.deep_view()));
        out
    }
}

impl ConditionExpression {
    /// Appends the SQL text of the condition.
    pub fn push_text(&self, out: &mut String)
        ensures
            final(out)@ == old(out)@ + condition_expression_text(self.deep_view()),
        decreases self,
    {
        let ghost start = out@;
        match self {
            ConditionExpression::ComparisonOp(t) => t.push_text(out),
            ConditionExpression::LogicalOp(t) => t.push_text(out),
            ConditionExpression::NegationOp(e) => {
                out.append("NOT ");
                e.push_text(out);
            },
            ConditionExpression::Base(b) => b.push_text(out),
            ConditionExpression::Arithmetic(a) => a.push_text(out),
            ConditionExpression::Bracketed(e) => {
                out.append("(");
                e.push_text(out);
                out.append(")");
            },
        }
        assert(out@ =~= start + condition_expression_text(self.deep_view()));
    }

    /// The SQL text of the condition.
    pub fn to_string(&self) -> (r: String)
        ensures
            r@ == condition_expression_text(self.deep_view()),
    {
        let mut out = String::new();
        self.push_text(&mut out);
        assert(out@ =~= condition_expression_text(self.deep_view()));
        out
    }
}

} // verus!
