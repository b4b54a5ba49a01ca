//! Equality of expression trees, decided by comparing their views.
use vstd::prelude::*;

use crate::base::arithmetic::{Arithmetic, ArithmeticBase, ArithmeticExpression, ArithmeticItem};
use crate::base::case::{CaseWhenExpression, ColumnOrLiteral};
use crate::base::column::{
    arguments_view, lemma_arguments_view_len, lemma_arguments_view_step, Column, FunctionArgument,
    FunctionArguments, FunctionExpression,
};
use crate::base::condition::{ConditionBase, ConditionExpression, ConditionTree};
use crate::base::literal::Literal;

verus! {

fn same_text(a: &String, b: &String) -> (r: bool)
    ensures
        r == (a@ == b@),
{
    a.eq(b)
}

fn same_opt_text(a: &Option<String>, b: &Option<String>) -> (r: bool)
    ensures
        r == (a.deep_view() == b.deep_view()),
{
    match (a, b) {
        (Some(x), Some(y)) => same_text(x, y),
        (None, None) => true,
        _ => false,
    }
}

fn same_bytes(a: &Vec<u8>, b: &Vec<u8>) -> (r: bool)
    ensures
        r == (a@ == b@),
{
    if a.len() != b.len() {
        return false;
    }
    let mut i: usize = 0;
    while i < a.len()
        invariant
            i <= a.len(),
            a.len() == b.len(),
            a@.subrange(0, i as int) == b@.subrange(0, i as int),
        decreases a.len() - i,
    {
        if a[i] != b[i] {
            assert(a@[i as int] != b@[i as int]);
            return false;
        }
        assert(a@.subrange(0, i + 1) =~= a@.subrange(0, i as int).push(a@[i as int]));
        assert(b@.subrange(0, i + 1) =~= b@.subrange(0, i as int).push(b@[i as int]));
        i = i + 1;
    }
    assert(a@ =~= a@.subrange(0, a.len() as int));
    assert(b@ =~= b@.subrange(0, b.len() as int));
    true
}

/// Whether two literals have the same view.
pub fn same_literal(a: &Literal, b: &Literal) -> (r: bool)
    ensures
        r == (a.deep_view() == b.deep_view()),
{
    match (a, b) {
        (Literal::Bool(x), Literal::Bool(y)) => *x == *y,
        (Literal::Null, Literal::Null) => true,
        (Literal::Integer(x), Literal::Integer(y)) => *x == *y,
        (Literal::UnsignedInteger(x), Literal::UnsignedInteger(y)) => *x == *y,
        (Literal::FixedPoint(x), Literal::FixedPoint(y)) => x.integral == y.integral
            && x.fractional == y.fractional,
        (Literal::String(x), Literal::String(y)) => same_text(x, y),
        (Literal::Blob(x), Literal::Blob(y)) => same_bytes(x, y),
        (Literal::CurrentTime, Literal::CurrentTime) => true,
        (Literal::CurrentDate, Literal::CurrentDate) => true,
        (Literal::CurrentTimestamp, Literal::CurrentTimestamp) => true,
        (Literal::Placeholder(x), Literal::Placeholder(y)) => *x == *y,
        _ => false,
    }
}

fn same_literals(a: &Vec<Literal>, b: &Vec<Literal>) -> (r: bool)
    ensures
        r == (a.deep_view() == b.deep_view()),
{
    if a.len() != b.len() {
        assert(a.deep_view().len() != b.deep_view().len());
        return false;
    }
    let mut i: usize = 0;
    while i < a.len()
        invariant
            i <= a.len(),
            a.len() == b.len(),
            forall|j: int| 0 <= j < i ==> #[trigger] a[j].deep_view() == b[j].deep_view(),
        decreases a.len() - i,
    {
        if !same_literal(&a[i], &b[i]) {
            assert(a.deep_view()[i as int] != b.deep_view()[i as int]);
            return false;
        }
        i = i + 1;
    }
    assert(a.deep_view() =~= b.deep_view());
    true
}

/// Whether two columns have the same view.
pub fn same_column(a: &Column, b: &Column) -> (r: bool)
    ensures
        r == (a.deep_view() == b.deep_view()),
    decreases a,
{
    let f = match (&a.function, &b.function) {
        (Some(x), Some(y)) => same_function_expression(&**x, &**y),
        (None, None) => true,
        _ => false,
    };
    f && same_text(&a.name, &b.name) && same_opt_text(&a.alias, &b.alias) && same_opt_text(
        &a.table,
        &b.table,
    )
}

fn same_function_expression(a: &FunctionExpression, b: &FunctionExpression) -> (r: bool)
    ensures
        r == (a.deep_view() == b.deep_view()),
    decreases a,
{
    match (a, b) {
        (FunctionExpression::Avg(x, d), FunctionExpression::Avg(y, e)) => *d == *e
            && same_function_argument(x, y),
        (FunctionExpression::Count(x, d), FunctionExpression::Count(y, e)) => *d == *e
            && same_function_argument(x, y),
        (FunctionExpression::CountStar, FunctionExpression::CountStar) => true,
        (FunctionExpression::Sum(x, d), FunctionExpression::Sum(y, e)) => *d == *e
            && same_function_argument(x, y),
        (FunctionExpression::Max(x), FunctionExpression::Max(y)) => same_function_argument(x, y),
        (FunctionExpression::Min(x), FunctionExpression::Min(y)) => same_function_argument(x, y),
        (FunctionExpression::GroupConcat(x, s), FunctionExpression::GroupConcat(y, t)) =>
            same_text(s, t) && same_function_argument(x, y),
        (FunctionExpression::Generic(n, x), FunctionExpression::Generic(m, y)) => same_text(n, m)
            && same_function_arguments(x, y),
        _ => false,
    }
}

fn same_function_arguments(a: &FunctionArguments, b: &FunctionArguments) -> (r: bool)
    ensures
        r == (a.deep_view() == b.deep_view()),
    decreases a,
{
    let u = &a.arguments;
    let v = &b.arguments;
    proof {
        lemma_arguments_view_len(u@);
        lemma_arguments_view_len(v@);
    }
    if u.len() != v.len() {
        return false;
    }
    let mut i: usize = 0;
    assert(u@.subrange(0, 0) =~= Seq::<FunctionArgument>::empty());
    assert(v@.subrange(0, 0) =~= Seq::<FunctionArgument>::empty());
    while i < u.len()
        invariant
            i <= u.len(),
            u.len() == v.len(),
            u == &a.arguments,
            v == &b.arguments,
            arguments_view(u@.subrange(0, i as int)) == arguments_view(v@.subrange(0, i as int)),
        decreases u.len() - i,
    {
        proof {
            lemma_arguments_view_step(u@, i as int);
            lemma_arguments_view_step(v@, i as int);
            lemma_arguments_view_at(u@, i as int);
            lemma_arguments_view_at(v@, i as int);
        }
        if !same_function_argument(&u[i], &v[i]) {
            return false;
        }
        i = i + 1;
    }
    assert(u@.subrange(0, u.len() as int) =~= u@);
    assert(v@.subrange(0, v.len() as int) =~= v@);
    true
}

/// The view of the `k`th argument is the `k`th view.
proof fn lemma_arguments_view_at(s: Seq<FunctionArgument>, k: int)
    requires
        0 <= k < s.len(),
    ensures
        arguments_view(s)[k] == s[k].deep_view(),
        arguments_view(s).len() == s.len(),
    decreases s.len(),
{
    lemma_arguments_view_len(s);
    lemma_arguments_view_len(s.drop_last());
    assert(arguments_view(s) == arguments_view(s.drop_last()).push(s.last().deep_view()));
    if k < s.len() - 1 {
        lemma_arguments_view_at(s.drop_last(), k);
        assert(s.drop_last()[k] == s[k]);
    }
}

fn same_function_argument(a: &FunctionArgument, b: &FunctionArgument) -> (r: bool)
    ensures
        r == (a.deep_view() == b.deep_view()),
    decreases a,
{
    match (a, b) {
        (FunctionArgument::Column(x), FunctionArgument::Column(y)) => same_column(x, y),
        (FunctionArgument::Conditional(x), FunctionArgument::Conditional(y)) => same_case_when(
            x,
            y,
        ),
        _ => false,
    }
}

fn same_case_when(a: &CaseWhenExpression, b: &CaseWhenExpression) -> (r: bool)
    ensures
        r == (a.deep_view() == b.deep_view()),
    decreases a,
{
    let e = match (&a.else_expr, &b.else_expr) {
        (Some(x), Some(y)) => same_column_or_literal(x, y),
        (None, None) => true,
        _ => false,
    };
    e && same_condition(&a.condition, &b.condition) && same_column_or_literal(
        &a.then_expr,
        &b.then_expr,
    )
}

fn same_column_or_literal(a: &ColumnOrLiteral, b: &ColumnOrLiteral) -> (r: bool)
    ensures
        r == (a.deep_view() == b.deep_view()),
    decreases a,
{
    match (a, b) {
        (ColumnOrLiteral::Column(x), ColumnOrLiteral::Column(y)) => same_column(x, y),
        (ColumnOrLiteral::Literal(x), ColumnOrLiteral::Literal(y)) => same_literal(x, y),
        _ => false,
    }
}

fn same_condition_base(a: &ConditionBase, b: &ConditionBase) -> (r: bool)
    ensures
        r == (a.deep_view() == b.deep_view()),
    decreases a,
{
    match (a, b) {
        (ConditionBase::Field(x), ConditionBase::Field(y)) => same_column(x, y),
        (ConditionBase::Literal(x), ConditionBase::Literal(y)) => same_literal(x, y),
        (ConditionBase::LiteralList(x), ConditionBase::LiteralList(y)) => same_literals(x, y),
        _ => false,
    }
}

fn same_condition_tree(a: &ConditionTree, b: &ConditionTree) -> (r: bool)
    ensures
        r == (a.deep_view() == b.deep_view()),
    decreases a,
{
    a.operator == b.operator && same_condition(&*a.left, &*b.left) && same_condition(
        &*a.right,
        &*b.right,
    )
}

fn same_condition(a: &ConditionExpression, b: &ConditionExpression) -> (r: bool)
    ensures
        r == (a.deep_view() == b.deep_view()),
    decreases a,
{
    match (a, b) {
        (ConditionExpression::ComparisonOp(x), ConditionExpression::ComparisonOp(y)) =>
            same_condition_tree(x, y),
        (ConditionExpression::LogicalOp(x), ConditionExpression::LogicalOp(y)) =>
            same_condition_tree(x, y),
        (ConditionExpression::NegationOp(x), ConditionExpression::NegationOp(y)) => same_condition(
            &**x,
            &**y,
        ),
        (ConditionExpression::Base(x), ConditionExpression::Base(y)) => same_condition_base(x, y),
        (ConditionExpression::Arithmetic(x), ConditionExpression::Arithmetic(y)) =>
            same_arithmetic_expression(&**x, &**y),
        (ConditionExpression::Bracketed(x), ConditionExpression::Bracketed(y)) => same_condition(
            &**x,
            &**y,
        ),
        _ => false,
    }
}

fn same_arithmetic_base(a: &ArithmeticBase, b: &ArithmeticBase) -> (r: bool)
    ensures
        r == (a.deep_view() == b.deep_view()),
    decreases a,
{
    match (a, b) {
        (ArithmeticBase::Column(x), ArithmeticBase::Column(y)) => same_column(x, y),
        (ArithmeticBase::Scalar(x), ArithmeticBase::Scalar(y)) => same_literal(x, y),
        (ArithmeticBase::Bracketed(x), ArithmeticBase::Bracketed(y)) => same_arithmetic(
            &**x,
            &**y,
        ),
        _ => false,
    }
}

fn same_arithmetic_item(a: &ArithmeticItem, b: &ArithmeticItem) -> (r: bool)
    ensures
        r == (a.deep_view() == b.deep_view()),
    decreases a,
{
    match (a, b) {
        (ArithmeticItem::Base(x), ArithmeticItem::Base(y)) => same_arithmetic_base(x, y),
        (ArithmeticItem::Expr(x), ArithmeticItem::Expr(y)) => same_arithmetic(&**x, &**y),
        _ => false,
    }
}

fn same_arithmetic(a: &Arithmetic, b: &Arithmetic) -> (r: bool)
    ensures
        r == (a.deep_view() == b.deep_view()),
    decreases a,
{
    a.op == b.op && same_arithmetic_item(&a.left, &b.left) && same_arithmetic_item(
        &a.right,
        &b.right,
    )
}

fn same_arithmetic_expression(a: &ArithmeticExpression, b: &ArithmeticExpression) -> (r: bool)
    ensures
        r == (a.deep_view() == b.deep_view()),
    decreases a,
{
    same_arithmetic(&a.ari, &b.ari) && same_opt_text(&a.alias, &b.alias)
}

} // verus!
