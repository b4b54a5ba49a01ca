//! Arithmetic over columns and integers: `+ - * /` with the usual precedence,
//! left associative, brackets and `CAST(... AS type)`.
use vstd::prelude::*;

use crate::base::column::{
    column_text, column_without_alias_at, spec_column_without_alias, Column, ColumnView,
};
use crate::base::common_parser::{as_alias_at, spec_as_alias};
use crate::base::data_type::{spec_type_identifier, type_identifier_at};
use crate::base::error::ParseSQLError;
use crate::base::input::{agrees, char_at, has_tag_nc, str_agrees, ws_end, Input, Parsed};
use crate::base::literal::{
    integer_literal_at, literal_text, spec_integer_literal, Literal, LiteralView,
};

verus! {

#[derive(Clone, Copy, Debug, Eq, Hash, PartialEq, Structural)]
pub enum ArithmeticOperator {
    Add,
    Subtract,
    Multiply,
    Divide,
}

impl DeepView for ArithmeticOperator {
    type V = ArithmeticOperator;

    open spec fn deep_view(&self) -> ArithmeticOperator {
        *self
    }
}

#[derive(Debug, Eq, Hash, PartialEq)]
pub enum ArithmeticBase {
    Column(Column),
    Scalar(Literal),
    Bracketed(Box<Arithmetic>),
}

#[derive(Debug, Eq, Hash, PartialEq)]
pub enum ArithmeticItem {
    Base(ArithmeticBase),
    Expr(Box<Arithmetic>),
}

#[derive(Debug, Eq, Hash, PartialEq)]
pub struct Arithmetic {
    pub op: ArithmeticOperator,
    pub left: ArithmeticItem,
    pub right: ArithmeticItem,
}

#[derive(Debug, Eq, Hash, PartialEq)]
pub struct ArithmeticExpression {
    pub ari: Arithmetic,
    pub alias: Option<String>,
}

pub enum ArithmeticBaseView {
    Column(ColumnView),
    Scalar(LiteralView),
    Bracketed(Box<ArithmeticView>),
}

pub enum ArithmeticItemView {
    Base(ArithmeticBaseView),
    Expr(Box<ArithmeticView>),
}

pub struct ArithmeticView {
    pub op: ArithmeticOperator,
    pub left: ArithmeticItemView,
    pub right: ArithmeticItemView,
}

pub struct ArithmeticExpressionView {
    pub ari: ArithmeticView,
    pub alias: Option<Seq<char>>,
}

impl DeepView for ArithmeticBase {
    type V = ArithmeticBaseView;

    open spec fn deep_view(&self) -> ArithmeticBaseView
        decreases self,
    {
        match self {
            ArithmeticBase::Column(c) => ArithmeticBaseView::Column(c.deep_view()),
            ArithmeticBase::Scalar(l) => ArithmeticBaseView::Scalar(l.deep_view()),
            ArithmeticBase::Bracketed(a) => ArithmeticBaseView::Bracketed(
                Box::new((**a).deep_view()),
            ),
        }
    }
}

impl DeepView for ArithmeticItem {
    type V = ArithmeticItemView;

    open spec fn deep_view(&self) -> ArithmeticItemView
        decreases self,
    {
        match self {
            ArithmeticItem::Base(b) => ArithmeticItemView::Base(b.deep_view()),
            ArithmeticItem::Expr(a) => ArithmeticItemView::Expr(Box::new((**a).deep_view())),
        }
    }
}

impl DeepView for Arithmetic {
    type V = ArithmeticView;

    open spec fn deep_view(&self) -> ArithmeticView
        decreases self,
    {
        ArithmeticView { op: self.op, left: self.left.deep_view(), right: self.right.deep_view() }
    }
}

impl DeepView for ArithmeticExpression {
    type V = ArithmeticExpressionView;

    open spec fn deep_view(&self) -> ArithmeticExpressionView
        decreases self,
    {
        ArithmeticExpressionView { ari: self.ari.deep_view(), alias: self.alias.deep_view() }
    }
}

pub open spec fn arithmetic_operator_text(o: ArithmeticOperator) -> Seq<char> {
    match o {
        ArithmeticOperator::Add => "+"@,
        ArithmeticOperator::Subtract => "-"@,
        ArithmeticOperator::Multiply => "*"@,
        ArithmeticOperator::Divide => "/"@,
    }
}

pub open spec fn arithmetic_base_text(b: ArithmeticBaseView) -> Seq<char>
    decreases b,
{
    match b {
        ArithmeticBaseView::Column(c) => column_text(c),
        ArithmeticBaseView::Scalar(l) => literal_text(l),
        ArithmeticBaseView::Bracketed(a) => "("@ + arithmetic_text(*a) + ")"@,
    }
}

pub open spec fn arithmetic_item_text(i: ArithmeticItemView) -> Seq<char>
    decreases i,
{
    match i {
        ArithmeticItemView::Base(b) => arithmetic_base_text(b),
        ArithmeticItemView::Expr(a) => arithmetic_text(*a),
    }
}

/// `left op right`
pub open spec fn arithmetic_text(a: ArithmeticView) -> Seq<char>
    decreases a,
{
    arithmetic_item_text(a.left) + " "@ + arithmetic_operator_text(a.op) + " "@
        + arithmetic_item_text(a.right)
}

/// `arithmetic[ AS alias]`
pub open spec fn arithmetic_expression_text(e: ArithmeticExpressionView) -> Seq<char>
    decreases e,
{
    arithmetic_text(e.ari) + match e.alias {
        Some(al) => " AS "@ + al,
        None => Seq::empty(),
    }
}


/// `+` or `-` at `p`.
pub open spec fn add_sub_operator(s: Seq<char>, p: int) -> Option<ArithmeticOperator> {
    if char_at(s, p, '+') {
        Some(ArithmeticOperator::Add)
    } else if char_at(s, p, '-') {
        Some(ArithmeticOperator::Subtract)
    } else {
        None
    }
}

/// `*` or `/` at `p`.
pub open spec fn mul_div_operator(s: Seq<char>, p: int) -> Option<ArithmeticOperator> {
    if char_at(s, p, '*') {
        Some(ArithmeticOperator::Multiply)
    } else if char_at(s, p, '/') {
        Some(ArithmeticOperator::Divide)
    } else {
        None
    }
}

/// `left op right` as an item.
pub open spec fn combine(
    op: ArithmeticOperator,
    left: ArithmeticItemView,
    right: ArithmeticItemView,
) -> ArithmeticItemView {
    ArithmeticItemView::Expr(Box::new(ArithmeticView { op, left, right }))
}

/// An arithmetic expression with an optional `[AS] alias`.
#[verifier::opaque]
pub open spec fn spec_arithmetic_expression(s: Seq<char>, p: int) -> Parsed<ArithmeticExpressionView>
    decreases s.len() - p, 21nat,
{
    match spec_arithmetic(s, p) {
        Parsed::Done(e, a) => match spec_as_alias(s, e) {
            Parsed::Done(g, (x, y)) => Parsed::Done(
                g,
                ArithmeticExpressionView { ari: a, alias: Some(s.subrange(x, y)) },
            ),
            _ => Parsed::Done(e, ArithmeticExpressionView { ari: a, alias: None }),
        },
        Parsed::NoMatch => Parsed::NoMatch,
        Parsed::Abort => Parsed::Abort,
    }
}

/// A sum of terms that applies at least one operator: a lone column or
/// integer does not match; a lone bracketed expression is that expression.
#[verifier::opaque]
pub open spec fn spec_arithmetic(s: Seq<char>, p: int) -> Parsed<ArithmeticView>
    decreases s.len() - p, 20nat,
{
    match spec_expr(s, p) {
        Parsed::Done(e, item) => match item {
            ArithmeticItemView::Base(ArithmeticBaseView::Bracketed(x)) => Parsed::Done(e, *x),
            ArithmeticItemView::Expr(x) => Parsed::Done(e, *x),
            _ => Parsed::NoMatch,
        },
        Parsed::NoMatch => Parsed::NoMatch,
        Parsed::Abort => Parsed::Abort,
    }
}

/// `term {[ws] (+|-) [ws] term}`, grouped to the left.
#[verifier::opaque]
pub open spec fn spec_expr(s: Seq<char>, p: int) -> Parsed<ArithmeticItemView>
    decreases s.len() - p, 19nat,
{
    match spec_term(s, p) {
        Parsed::Done(e, t) => if p <= e <= s.len() {
            spec_expr_tail(s, e, t)
        } else {
            Parsed::NoMatch
        },
        other => other,
    }
}

/// The `{[ws] (+|-) [ws] term}` part after `acc`.
#[verifier::opaque]
pub open spec fn spec_expr_tail(s: Seq<char>, p: int, acc: ArithmeticItemView) -> Parsed<
    ArithmeticItemView,
>
    decreases s.len() - p, 18nat,
{
    let a = ws_end(s, p);
    match add_sub_operator(s, a) {
        Some(op) => {
            let b = ws_end(s, a + 1);
            if p < b <= s.len() {
                match spec_term(s, b) {
                    Parsed::Done(g, t) => if p < g <= s.len() {
                        spec_expr_tail(s, g, combine(op, acc, t))
                    } else {
                        Parsed::NoMatch
                    },
                    Parsed::NoMatch => Parsed::Done(p, acc),
                    Parsed::Abort => Parsed::Abort,
                }
            } else {
                Parsed::NoMatch
            }
        },
        None => Parsed::Done(p, acc),
    }
}

/// `factor {[ws] (*|/) [ws] factor}`, grouped to the left.
#[verifier::opaque]
pub open spec fn spec_term(s: Seq<char>, p: int) -> Parsed<ArithmeticItemView>
    decreases s.len() - p, 17nat,
{
    match spec_arithmetic_cast(s, p) {
        Parsed::Done(e, b) => if p <= e <= s.len() {
            spec_term_tail(s, e, ArithmeticItemView::Base(b))
        } else {
            Parsed::NoMatch
        },
        Parsed::NoMatch => Parsed::NoMatch,
        Parsed::Abort => Parsed::Abort,
    }
}

/// The `{[ws] (*|/) [ws] factor}` part after `acc`.
#[verifier::opaque]
pub open spec fn spec_term_tail(s: Seq<char>, p: int, acc: ArithmeticItemView) -> Parsed<
    ArithmeticItemView,
>
    decreases s.len() - p, 16nat,
{
    let a = ws_end(s, p);
    match mul_div_operator(s, a) {
        Some(op) => {
            let b = ws_end(s, a + 1);
            if p < b <= s.len() {
                match spec_arithmetic_cast(s, b) {
                    Parsed::Done(g, f) => if p < g <= s.len() {
                        spec_term_tail(s, g, combine(op, acc, ArithmeticItemView::Base(f)))
                    } else {
                        Parsed::NoMatch
                    },
                    Parsed::NoMatch => Parsed::Done(p, acc),
                    Parsed::Abort => Parsed::Abort,
                }
            } else {
                Parsed::NoMatch
            }
        },
        None => Parsed::Done(p, acc),
    }
}

/// A factor: `CAST(base AS type)` (the type is read and dropped), or else a base.
#[verifier::opaque]
pub open spec fn spec_arithmetic_cast(s: Seq<char>, p: int) -> Parsed<ArithmeticBaseView>
    decreases s.len() - p, 15nat,
{
    match spec_cast(s, p) {
        Parsed::NoMatch => spec_arithmetic_base(s, p),
        other => other,
    }
}

/// `CAST [ws] ( [ws] base ws AS ws [SIGNED ws] type [ws] )`, keywords ignoring case.
#[verifier::opaque]
pub open spec fn spec_cast(s: Seq<char>, p: int) -> Parsed<ArithmeticBaseView>
    decreases s.len() - p, 14nat,
{
    let a = ws_end(s, p + "CAST"@.len());
    let b = ws_end(s, a + 1);
    if has_tag_nc(s, p, "CAST"@) && char_at(s, a, '(') && p < b <= s.len() {
        match spec_arithmetic_base(s, b) {
            Parsed::Done(e, v) => {
                let f = ws_end(s, e);
                let g = ws_end(s, f + "AS"@.len());
                let h = if has_tag_nc(s, g, "SIGNED"@) && ws_end(s, g + "SIGNED"@.len()) > g
                    + "SIGNED"@.len() {
                    ws_end(s, g + "SIGNED"@.len())
                } else {
                    g
                };
                if f > e && has_tag_nc(s, f, "AS"@) && g > f + "AS"@.len() {
                    match spec_type_identifier(s, h) {
                        Parsed::Done(i, _) => {
                            let j = ws_end(s, i);
                            if char_at(s, j, ')') {
                                Parsed::Done(j + 1, v)
                            } else {
                                Parsed::NoMatch
                            }
                        },
                        Parsed::NoMatch => Parsed::NoMatch,
                        Parsed::Abort => Parsed::Abort,
                    }
                } else {
                    Parsed::NoMatch
                }
            },
            other => other,
        }
    } else {
        Parsed::NoMatch
    }
}

/// A base, trying in order: an integer, a column without alias, and
/// `( [ws] arithmetic [ws] )`.
#[verifier::opaque]
pub open spec fn spec_arithmetic_base(s: Seq<char>, p: int) -> Parsed<ArithmeticBaseView>
    decreases s.len() - p, 13nat,
{
    match spec_integer_literal(s, p) {
        Parsed::Done(e, l) => Parsed::Done(e, ArithmeticBaseView::Scalar(l)),
        Parsed::Abort => Parsed::Abort,
        Parsed::NoMatch => match spec_column_without_alias(s, p) {
            Parsed::Done(e, c) => Parsed::Done(e, ArithmeticBaseView::Column(c)),
            Parsed::Abort => Parsed::Abort,
            Parsed::NoMatch => {
                let a = ws_end(s, p + 1);
                if char_at(s, p, '(') && p < a <= s.len() {
                    match spec_arithmetic(s, a) {
                        Parsed::Done(e, x) => {
                            let f = ws_end(s, e);
                            if char_at(s, f, ')') {
                                Parsed::Done(f + 1, ArithmeticBaseView::Bracketed(Box::new(x)))
                            } else {
                                Parsed::NoMatch
                            }
                        },
                        Parsed::NoMatch => Parsed::NoMatch,
                        Parsed::Abort => Parsed::Abort,
                    }
                } else {
                    Parsed::NoMatch
                }
            },
        },
    }
}

fn add_sub_at(src: &Input, p: usize) -> (r: Option<ArithmeticOperator>)
    ensures
        r == add_sub_operator(src@, p as int),
{
    if src.is_char(p, '+') {
        Some(ArithmeticOperator::Add)
    } else if src.is_char(p, '-') {
        Some(ArithmeticOperator::Subtract)
    } else {
        None
    }
}

fn mul_div_at(src: &Input, p: usize) -> (r: Option<ArithmeticOperator>)
    ensures
        r == mul_div_operator(src@, p as int),
{
    if src.is_char(p, '*') {
        Some(ArithmeticOperator::Multiply)
    } else if src.is_char(p, '/') {
        Some(ArithmeticOperator::Divide)
    } else {
        None
    }
}

fn combine_exec(op: ArithmeticOperator, left: ArithmeticItem, right: ArithmeticItem) -> (r:
    ArithmeticItem)
    ensures
        r.deep_view() == combine(op, left.deep_view(), right.deep_view()),
{
    let a = Arithmetic { op, left, right };
    assert(a.deep_view() == ArithmeticView {
        op,
        left: left.deep_view(),
        right: right.deep_view(),
    });
    ArithmeticItem::Expr(Box::new(a))
}

pub fn arithmetic_expression_at(src: &Input, p: usize) -> (r: Option<(usize, ArithmeticExpression)>)
    requires
        p <= src@.len(),
        !(spec_arithmetic_expression(src@, p as int) is Abort),
    ensures
        agrees(r, spec_arithmetic_expression(src@, p as int)),
        r matches Some((e, _)) ==> p <= e <= src@.len(),
    decreases src@.len() - p, 21nat,
{
    proof {
        reveal_with_fuel(spec_arithmetic_expression, 1);
        reveal_with_fuel(spec_arithmetic, 1);
    }
    match arithmetic_at(src, p) {
        Some((e, a)) => match as_alias_at(src, e) {
            Some((g, sp)) => Some(
                (g, ArithmeticExpression { ari: a, alias: Some(src.string(sp.start, sp.end)) }),
            ),
            None => Some((e, ArithmeticExpression { ari: a, alias: None })),
        },
        None => None,
    }
}

pub fn arithmetic_at(src: &Input, p: usize) -> (r: Option<(usize, Arithmetic)>)
    requires
        p <= src@.len(),
        !(spec_arithmetic(src@, p as int) is Abort),
    ensures
        agrees(r, spec_arithmetic(src@, p as int)),
        r matches Some((e, _)) ==> p <= e <= src@.len(),
    decreases src@.len() - p, 20nat,
{
    proof {
        reveal_with_fuel(spec_arithmetic, 1);
        reveal_with_fuel(spec_expr, 1);
    }
    match expr_at(src, p) {
        Some((e, item)) => {
            let ghost iv = item.deep_view();
            match item {
                ArithmeticItem::Base(b) => {
                    assert(iv == ArithmeticItemView::Base(b.deep_view()));
                    let ghost bv = b.deep_view();
                    match b {
                        ArithmeticBase::Bracketed(x) => {
                            assert(bv == ArithmeticBaseView::Bracketed(Box::new((*x).deep_view())));
                            Some((e, *x))
                        },
                        ArithmeticBase::Column(c) => {
                            assert(bv == ArithmeticBaseView::Column(c.deep_view()));
                            None
                        },
                        ArithmeticBase::Scalar(l) => {
                            assert(bv == ArithmeticBaseView::Scalar(l.deep_view()));
                            None
                        },
                    }
                },
                ArithmeticItem::Expr(x) => {
                    assert(iv == ArithmeticItemView::Expr(Box::new((*x).deep_view())));
                    Some((e, *x))
                },
            }
        },
        None => None,
    }
}

fn expr_at(src: &Input, p: usize) -> (r: Option<(usize, ArithmeticItem)>)
    requires
        p <= src@.len(),
        !(spec_expr(src@, p as int) is Abort),
    ensures
        agrees(r, spec_expr(src@, p as int)),
        r matches Some((e, _)) ==> p <= e <= src@.len(),
    decreases src@.len() - p, 19nat,
{
    proof {
        reveal_with_fuel(spec_expr, 1);
        reveal_with_fuel(spec_expr_tail, 1);
        reveal_with_fuel(spec_term, 1);
    }
    let (e, t) = match term_at(src, p) {
        Some(x) => x,
        None => return None,
    };
    let mut acc = t;
    let mut k = e;
    loop
        invariant
            p <= k <= src@.len(),
            spec_expr(src@, p as int) == spec_expr_tail(src@, k as int, acc.deep_view()),
            !(spec_expr(src@, p as int) is Abort),
        decreases src@.len() - k,
    {
        proof {
            reveal_with_fuel(spec_expr_tail, 1);
            reveal_with_fuel(spec_term, 1);
        }
        let a = src.skip_ws(k);
        let op = match add_sub_at(src, a) {
            Some(o) => o,
            None => return Some((k, acc)),
        };
        let b = src.skip_ws(a + 1);
        match term_at(src, b) {
            Some((g, t2)) => {
                acc = combine_exec(op, acc, t2);
                k = g;
            },
            None => return Some((k, acc)),
        }
    }
}

fn term_at(src: &Input, p: usize) -> (r: Option<(usize, ArithmeticItem)>)
    requires
        p <= src@.len(),
        !(spec_term(src@, p as int) is Abort),
    ensures
        agrees(r, spec_term(src@, p as int)),
        r matches Some((e, _)) ==> p <= e <= src@.len(),
    decreases src@.len() - p, 17nat,
{
    proof {
        reveal_with_fuel(spec_term, 1);
        reveal_with_fuel(spec_term_tail, 1);
        reveal_with_fuel(spec_arithmetic_cast, 1);
    }
    let (e, f) = match arithmetic_cast_at(src, p) {
        Some(x) => x,
        None => return None,
    };
    let mut acc = ArithmeticItem::Base(f);
    let mut k = e;
    loop
        invariant
            p <= k <= src@.len(),
            spec_term(src@, p as int) == spec_term_tail(src@, k as int, acc.deep_view()),
            !(spec_term(src@, p as int) is Abort),
        decreases src@.len() - k,
    {
        proof {
            reveal_with_fuel(spec_term_tail, 1);
            reveal_with_fuel(spec_arithmetic_cast, 1);
        }
        let a = src.skip_ws(k);
        let op = match mul_div_at(src, a) {
            Some(o) => o,
            None => return Some((k, acc)),
        };
        let b = src.skip_ws(a + 1);
        match arithmetic_cast_at(src, b) {
            Some((g, f2)) => {
                acc = combine_exec(op, acc, ArithmeticItem::Base(f2));
                k = g;
            },
            None => return Some((k, acc)),
        }
    }
}

fn arithmetic_cast_at(src: &Input, p: usize) -> (r: Option<(usize, ArithmeticBase)>)
    requires
        p <= src@.len(),
        !(spec_arithmetic_cast(src@, p as int) is Abort),
    ensures
        agrees(r, spec_arithmetic_cast(src@, p as int)),
        r matches Some((e, _)) ==> p <= e <= src@.len(),
    decreases src@.len() - p, 15nat,
{
    proof {
        reveal_with_fuel(spec_arithmetic_cast, 1);
        reveal_with_fuel(spec_cast, 1);
        reveal_with_fuel(spec_arithmetic_base, 1);
    }
    match cast_at(src, p) {
        Some(x) => Some(x),
        None => arithmetic_base_at(src, p),
    }
}

fn cast_at(src: &Input, p: usize) -> (r: Option<(usize, ArithmeticBase)>)
    requires
        p <= src@.len(),
        !(spec_cast(src@, p as int) is Abort),
    ensures
        agrees(r, spec_cast(src@, p as int)),
        r matches Some((e, _)) ==> p <= e <= src@.len(),
    decreases src@.len() - p, 14nat,
{
    proof {
        reveal_with_fuel(spec_cast, 1);
        reveal_with_fuel(spec_arithmetic_base, 1);
    }
    if !src.tag_nc(p, "CAST") {
        return None;
    }
    let a = src.skip_ws(p + "CAST".unicode_len());
    if !src.is_char(a, '(') {
        return None;
    }
    let b = src.skip_ws(a + 1);
    let (e, v) = match arithmetic_base_at(src, b) {
        Some(x) => x,
        None => return None,
    };
    let f = src.skip_ws(e);
    if f == e || !src.tag_nc(f, "AS") {
        return None;
    }
    let g = src.skip_ws(f + "AS".unicode_len());
    if g == f + "AS".unicode_len() {
        return None;
    }
    let mut h = g;
    if src.tag_nc(g, "SIGNED") {
        let g2 = src.skip_ws(g + "SIGNED".unicode_len());
        if g2 > g + "SIGNED".unicode_len() {
            h = g2;
        }
    }
    let (i, _t) = match type_identifier_at(src, h) {
        Some(x) => x,
        None => return None,
    };
    let j = src.skip_ws(i);
    if src.is_char(j, ')') {
        Some((j + 1, v))
    } else {
        None
    }
}

fn arithmetic_base_at(src: &Input, p: usize) -> (r: Option<(usize, ArithmeticBase)>)
    requires
        p <= src@.len(),
        !(spec_arithmetic_base(src@, p as int) is Abort),
    ensures
        agrees(r, spec_arithmetic_base(src@, p as int)),
        r matches Some((e, _)) ==> p <= e <= src@.len(),
    decreases src@.len() - p, 13nat,
{
    proof {
        reveal_with_fuel(spec_arithmetic_base, 1);
        reveal_with_fuel(spec_arithmetic, 1);
        reveal_with_fuel(spec_column_without_alias, 1);
    }
    if let Some((e, l)) = integer_literal_at(src, p) {
        return Some((e, ArithmeticBase::Scalar(l)));
    }
    if let Some((e, c)) = column_without_alias_at(src, p) {
        return Some((e, ArithmeticBase::Column(c)));
    }
    if !src.is_char(p, '(') {
        return None;
    }
    let a = src.skip_ws(p + 1);
    match arithmetic_at(src, a) {
        Some((e, x)) => {
            let f = src.skip_ws(e);
            if src.is_char(f, ')') {
                Some((f + 1, ArithmeticBase::Bracketed(Box::new(x))))
            } else {
                None
            }
        },
        None => None,
    }
}

impl ArithmeticOperator {
    pub fn to_string(&self) -> (r: String)
        ensures
            r@ == arithmetic_operator_text(*self),
    {
        match self {
            ArithmeticOperator::Add => "+".to_owned(),
            ArithmeticOperator::Subtract => "-".to_owned(),
            ArithmeticOperator::Multiply => "*".to_owned(),
            ArithmeticOperator::Divide => "/".to_owned(),
        }
    }
}

impl ArithmeticBase {
    pub fn push_text(&self, out: &mut String)
        ensures
            final(out)@ == old(out)@ + arithmetic_base_text(self.deep_view()),
        decreases self,
    {
        let ghost start = out@;
        match self {
            ArithmeticBase::Column(c) => c.push_text(out),
            ArithmeticBase::Scalar(l) => l.push_text(out),
            ArithmeticBase::Bracketed(a) => {
                out.append("(");
                a.push_text(out);
                out.append(")");
            },
        }
        assert(out@ =~= start + arithmetic_base_text(self.deep_view()));
    }

    pub fn to_string(&self) -> (r: String)
        ensures
            r@ == arithmetic_base_text(self.deep_view()),
    {
        let mut out = String::new();
        self.push_text(&mut out);
        assert(out@ =~= arithmetic_base_text(self.deep_view()));
        out
    }
}

impl ArithmeticItem {
    pub fn push_text(&self, out: &mut String)
        ensures
            final(out)@ == old(out)@ + arithmetic_item_text(self.deep_view()),
        decreases self,
    {
        match self {
            ArithmeticItem::Base(b) => b.push_text(out),
            ArithmeticItem::Expr(a) => a.push_text(out),
        }
    }

    pub fn to_string(&self) -> (r: String)
        ensures
            r@ == arithmetic_item_text(self.deep_view()),
    {
        let mut out = String::new();
        self.push_text(&mut out);
        assert(out@ =~= arithmetic_item_text(self.deep_view()));
        out
    }
}

impl Arithmetic {
    pub fn push_text(&self, out: &mut String)
        ensures
            final(out)@ == old(out)@ + arithmetic_text(self.deep_view()),
        decreases self,
    {
        let ghost start = out@;
        self.left.push_text(out);
        out.append(" ");
        out.append(self.op.to_string().as_str());
        out.append(" ");
        self.right.push_text(out);
        assert(out@ =~= start + arithmetic_text(self.deep_view()));
    }

    pub fn to_string(&self) -> (r: String)
        ensures
            r@ == arithmetic_text(self.deep_view()),
    {
        let mut out = String::new();
        self.push_text(&mut out);
        assert(out@ =~= arithmetic_text(self.deep_view()));
        out
    }
}

impl Arithmetic {
    /// An arithmetic expression with at least one operator (a bracketed one is unwrapped).
    pub fn parse(i: &str) -> (r: Result<(&str, Arithmetic), ParseSQLError>)
        requires
            !(spec_arithmetic(i@, 0) is Abort),
        ensures
            str_agrees(i@, r, spec_arithmetic(i@, 0)),
    {
        let src = Input::new(i);
        match arithmetic_at(&src, 0) {
            Some((q, v)) => Ok((src.rest(q), v)),
            None => Err(ParseSQLError::grammar(i)),
        }
    }

    /// `left op right` over two bases.
    pub fn new(op: ArithmeticOperator, left: ArithmeticBase, right: ArithmeticBase) -> (r: Self)
        ensures
            r.deep_view() == (ArithmeticView {
                op,
                left: ArithmeticItemView::Base(left.deep_view()),
                right: ArithmeticItemView::Base(right.deep_view()),
            }),
    {
        let l = ArithmeticItem::Base(left);
        let r = ArithmeticItem::Base(right);
        assert(l.deep_view() == ArithmeticItemView::Base(left.deep_view()));
        assert(r.deep_view() == ArithmeticItemView::Base(right.deep_view()));
        Arithmetic { op, left: l, right: r }
    }
}

impl ArithmeticExpression {
    /// An arithmetic expression with an optional `[AS] alias`.
    pub fn parse(i: &str) -> (r: Result<(&str, ArithmeticExpression), ParseSQLError>)
        requires
            !(spec_arithmetic_expression(i@, 0) is Abort),
        ensures
            str_agrees(i@, r, spec_arithmetic_expression(i@, 0)),
    {
        let src = Input::new(i);
        match arithmetic_expression_at(&src, 0) {
            Some((q, v)) => Ok((src.rest(q), v)),
            None => Err(ParseSQLError::grammar(i)),
        }
    }

    /// `left op right` over two bases, with an optional alias.
    pub fn new(
        op: ArithmeticOperator,
        left: ArithmeticBase,
        right: ArithmeticBase,
        alias: Option<String>,
    ) -> (r: Self)
        ensures
            r.deep_view() == (ArithmeticExpressionView {
                ari: ArithmeticView {
                    op,
                    left: ArithmeticItemView::Base(left.deep_view()),
                    right: ArithmeticItemView::Base(right.deep_view()),
                },
                alias: alias.deep_view(),
            }),
    {
        ArithmeticExpression { ari: Arithmetic::new(op, left, right), alias }
    }

    pub fn push_text(&self, out: &mut String)
        ensures
            final(out)@ == old(out)@ + arithmetic_expression_text(self.deep_view()),
        decreases self,
    {
        let ghost start = out@;
        self.ari.push_text(out);
        match &self.alias {
            Some(al) => {
                out.append(" AS ");
                out.append(al.as_str());
            },
            None => {},
        }
        assert(out@ =~= start + arithmetic_expression_text(self.deep_view()));
    }

    /// The SQL text of the expression: `left op right[ AS alias]`.
    pub fn to_string(&self) -> (r: String)
        ensures
            r@ == arithmetic_expression_text(self.deep_view()),
    {
        let mut out = String::new();
        self.push_text(&mut out);
        assert(out@ =~= arithmetic_expression_text(self.deep_view()));
        out
    }
}

} // verus!
