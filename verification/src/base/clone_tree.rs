//! Copies of expression trees: every copy has the view of what it copies.
use vstd::prelude::*;

use crate::base::arithmetic::{Arithmetic, ArithmeticBase, ArithmeticExpression, ArithmeticItem};
use crate::base::case::{CaseWhenExpression, ColumnOrLiteral};
use crate::base::column::{
    arguments_view, lemma_arguments_view_step, Column, FunctionArgument, FunctionArguments,
    FunctionExpression,
};
use crate::base::condition::{ConditionBase, ConditionExpression, ConditionTree};
use crate::base::join::{JoinClause, JoinConstraint, JoinRightSide};
use crate::base::literal::Literal;
use crate::base::table::Table;

verus! {

fn copy_text(s: &String) -> (r: String)
    ensures
        r@ == s@,
{
    s.clone()
}

fn copy_opt_text(s: &Option<String>) -> (r: Option<String>)
    ensures
        r.deep_view() == s.deep_view(),
{
    match s {
        Some(t) => Some(t.clone()),
        None => None,
    }
}

fn copy_literal(l: &Literal) -> (r: Literal)
    ensures
        r.deep_view() == l.deep_view(),
{
    match l {
        Literal::Bool(b) => Literal::Bool(*b),
        Literal::Null => Literal::Null,
        Literal::Integer(i) => Literal::Integer(*i),
        Literal::UnsignedInteger(u) => Literal::UnsignedInteger(*u),
        Literal::FixedPoint(x) => Literal::FixedPoint(*x),
        Literal::String(s) => Literal::String(copy_text(s)),
        Literal::Blob(b) => {
            let mut out: Vec<u8> = Vec::new();
            let mut i: usize = 0;
            while i < b.len()
                invariant
                    i <= b.len(),
                    out@ == b@.subrange(0, i as int),
                decreases b.len() - i,
            {
                out.push(b[i]);
                i = i + 1;
            }
            assert(out@ =~= b@);
            Literal::Blob(out)
        },
        Literal::CurrentTime => Literal::CurrentTime,
        Literal::CurrentDate => Literal::CurrentDate,
        Literal::CurrentTimestamp => Literal::CurrentTimestamp,
        Literal::Placeholder(p) => Literal::Placeholder(*p),
    }
}

fn copy_literals(v: &Vec<Literal>) -> (r: Vec<Literal>)
    ensures
        r.deep_view() == v.deep_view(),
{
    let mut out: Vec<Literal> = Vec::new();
    let mut i: usize = 0;
    while i < v.len()
        invariant
            i <= v.len(),
            out.len() == i,
            forall|j: int| 0 <= j < i ==> #[trigger] out[j].deep_view() == v[j].deep_view(),
        decreases v.len() - i,
    {
        out.push(copy_literal(&v[i]));
        i = i + 1;
    }
    assert(out.deep_view() =~= v.deep_view());
    out
}

fn copy_table(t: &Table) -> (r: Table)
    ensures
        r.deep_view() == t.deep_view(),
{
    Table { name: copy_text(&t.name), alias: copy_opt_text(&t.alias), schema: copy_opt_text(&t.schema) }
}

fn copy_tables(v: &Vec<Table>) -> (r: Vec<Table>)
    ensures
        r.deep_view() == v.deep_view(),
{
    let mut out: Vec<Table> = Vec::new();
    let mut i: usize = 0;
    while i < v.len()
        invariant
            i <= v.len(),
            out.len() == i,
            forall|j: int| 0 <= j < i ==> #[trigger] out[j].deep_view() == v[j].deep_view(),
        decreases v.len() - i,
    {
        out.push(copy_table(&v[i]));
        i = i + 1;
    }
    assert(out.deep_view() =~= v.deep_view());
    out
}

fn copy_column(c: &Column) -> (r: Column)
    ensures
        r.deep_view() == c.deep_view(),
    decreases c,
{
    let function = match &c.function {
        Some(f) => Some(Box::new(copy_function_expression(&**f))),
        None => None,
    };
    Column {
        name: copy_text(&c.name),
        alias: copy_opt_text(&c.alias),
        table: copy_opt_text(&c.table),
        function,
    }
}

fn copy_columns(v: &Vec<Column>) -> (r: Vec<Column>)
    ensures
        r.deep_view() == v.deep_view(),
{
    let mut out: Vec<Column> = Vec::new();
    let mut i: usize = 0;
    while i < v.len()
        invariant
            i <= v.len(),
            out.len() == i,
            forall|j: int| 0 <= j < i ==> #[trigger] out[j].deep_view() == v[j].deep_view(),
        decreases v.len() - i,
    {
        out.push(copy_column(&v[i]));
        i = i + 1;
    }
    assert(out.deep_view() =~= v.deep_view());
    out
}

fn copy_function_expression(f: &FunctionExpression) -> (r: FunctionExpression)
    ensures
        r.deep_view() == f.deep_view(),
    decreases f,
{
    match f {
        FunctionExpression::Avg(a, d) => FunctionExpression::Avg(copy_function_argument(a), *d),
        FunctionExpression::Count(a, d) => FunctionExpression::Count(
            copy_function_argument(a),
            *d,
        ),
        FunctionExpression::CountStar => FunctionExpression::CountStar,
        FunctionExpression::Sum(a, d) => FunctionExpression::Sum(copy_function_argument(a), *d),
        FunctionExpression::Max(a) => FunctionExpression::Max(copy_function_argument(a)),
        FunctionExpression::Min(a) => FunctionExpression::Min(copy_function_argument(a)),
        FunctionExpression::GroupConcat(a, sep) => FunctionExpression::GroupConcat(
            copy_function_argument(a),
            copy_text(sep),
        ),
        FunctionExpression::Generic(name, args) => FunctionExpression::Generic(
            copy_text(name),
            copy_function_arguments(args),
        ),
    }
}

fn copy_function_arguments(a: &FunctionArguments) -> (r: FunctionArguments)
    ensures
        r.deep_view() == a.deep_view(),
    decreases a,
{
    let v = &a.arguments;
    let mut out: Vec<FunctionArgument> = Vec::new();
    let mut i: usize = 0;
    assert(v@.subrange(0, 0) =~= Seq::<FunctionArgument>::empty());
    assert(out@ =~= Seq::<FunctionArgument>::empty());
    while i < v.len()
        invariant
            i <= v.len(),
            v == &a.arguments,
            arguments_view(out@) == arguments_view(v@.subrange(0, i as int)),
        decreases v.len() - i,
    {
        proof {
            lemma_arguments_view_step(v@, i as int);
        }
        let x = copy_function_argument(&v[i]);
        let ghost before = out@;
        out.push(x);
        proof {
            assert(out@.drop_last() =~= before);
        }
        i = i + 1;
    }
    assert(v@.subrange(0, v.len() as int) =~= v@);
    FunctionArguments { arguments: out }
}

fn copy_function_argument(a: &FunctionArgument) -> (r: FunctionArgument)
    ensures
        r.deep_view() == a.deep_view(),
    decreases a,
{
    match a {
        FunctionArgument::Column(c) => FunctionArgument::Column(copy_column(c)),
        FunctionArgument::Conditional(e) => FunctionArgument::Conditional(copy_case_when(e)),
    }
}

fn copy_case_when(e: &CaseWhenExpression) -> (r: CaseWhenExpression)
    ensures
        r.deep_view() == e.deep_view(),
    decreases e,
{
    let else_expr = match &e.else_expr {
        Some(x) => Some(copy_column_or_literal(x)),
        None => None,
    };
    CaseWhenExpression {
        condition: copy_condition(&e.condition),
        then_expr: copy_column_or_literal(&e.then_expr),
        else_expr,
    }
}

fn copy_column_or_literal(x: &ColumnOrLiteral) -> (r: ColumnOrLiteral)
    ensures
        r.deep_view() == x.deep_view(),
    decreases x,
{
    match x {
        ColumnOrLiteral::Column(c) => ColumnOrLiteral::Column(copy_column(c)),
        ColumnOrLiteral::Literal(l) => ColumnOrLiteral::Literal(copy_literal(l)),
    }
}

fn copy_condition_base(b: &ConditionBase) -> (r: ConditionBase)
    ensures
        r.deep_view() == b.deep_view(),
    decreases b,
{
    match b {
        ConditionBase::Field(c) => ConditionBase::Field(copy_column(c)),
        ConditionBase::Literal(l) => ConditionBase::Literal(copy_literal(l)),
        ConditionBase::LiteralList(v) => ConditionBase::LiteralList(copy_literals(v)),
    }
}

fn copy_condition_tree(t: &ConditionTree) -> (r: ConditionTree)
    ensures
        r.deep_view() == t.deep_view(),
    decreases t,
{
    ConditionTree {
        operator: t.operator,
        left: Box::new(copy_condition(&*t.left)),
        right: Box::new(copy_condition(&*t.right)),
    }
}

fn copy_condition(e: &ConditionExpression) -> (r: ConditionExpression)
    ensures
        r.deep_view() == e.deep_view(),
    decreases e,
{
    match e {
        ConditionExpression::ComparisonOp(t) => ConditionExpression::ComparisonOp(
            copy_condition_tree(t),
        ),
        ConditionExpression::LogicalOp(t) => ConditionExpression::LogicalOp(copy_condition_tree(t)),
        ConditionExpression::NegationOp(x) => ConditionExpression::NegationOp(
            Box::new(copy_condition(&**x)),
        ),
        ConditionExpression::Base(b) => ConditionExpression::Base(copy_condition_base(b)),
        ConditionExpression::Arithmetic(a) => ConditionExpression::Arithmetic(
            Box::new(copy_arithmetic_expression(&**a)),
        ),
        ConditionExpression::Bracketed(x) => ConditionExpression::Bracketed(
            Box::new(copy_condition(&**x)),
        ),
    }
}

fn copy_arithmetic_base(b: &ArithmeticBase) -> (r: ArithmeticBase)
    ensures
        r.deep_view() == b.deep_view(),
    decreases b,
{
    match b {
        ArithmeticBase::Column(c) => ArithmeticBase::Column(copy_column(c)),
        ArithmeticBase::Scalar(l) => ArithmeticBase::Scalar(copy_literal(l)),
        ArithmeticBase::Bracketed(a) => ArithmeticBase::Bracketed(
            Box::new(copy_arithmetic(&**a)),
        ),
    }
}

fn copy_arithmetic_item(i: &ArithmeticItem) -> (r: ArithmeticItem)
    ensures
        r.deep_view() == i.deep_view(),
    decreases i,
{
    match i {
        ArithmeticItem::Base(b) => ArithmeticItem::Base(copy_arithmetic_base(b)),
        ArithmeticItem::Expr(a) => ArithmeticItem::Expr(Box::new(copy_arithmetic(&**a))),
    }
}

fn copy_arithmetic(a: &Arithmetic) -> (r: Arithmetic)
    ensures
        r.deep_view() == a.deep_view(),
    decreases a,
{
    Arithmetic {
        op: a.op,
        left: copy_arithmetic_item(&a.left),
        right: copy_arithmetic_item(&a.right),
    }
}

fn copy_arithmetic_expression(e: &ArithmeticExpression) -> (r: ArithmeticExpression)
    ensures
        r.deep_view() == e.deep_view(),
    decreases e,
{
    ArithmeticExpression { ari: copy_arithmetic(&e.ari), alias: copy_opt_text(&e.alias) }
}

fn copy_join_clause(j: &JoinClause) -> (r: JoinClause)
    ensures
        r.deep_view() == j.deep_view(),
    decreases j,
{
    JoinClause {
        operator: j.operator,
        right: copy_join_right_side(&j.right),
        constraint: copy_join_constraint(&j.constraint),
    }
}

fn copy_join_right_side(s: &JoinRightSide) -> (r: JoinRightSide)
    ensures
        r.deep_view() == s.deep_view(),
    decreases s,
{
    match s {
        JoinRightSide::Table(t) => JoinRightSide::Table(copy_table(t)),
        JoinRightSide::Tables(ts) => JoinRightSide::Tables(copy_tables(ts)),
        JoinRightSide::NestedJoin(j) => JoinRightSide::NestedJoin(Box::new(copy_join_clause(&**j))),
    }
}

fn copy_join_constraint(c: &JoinConstraint) -> (r: JoinConstraint)
    ensures
        r.deep_view() == c.deep_view(),
{
    match c {
        JoinConstraint::On(e) => JoinConstraint::On(copy_condition(e)),
        JoinConstraint::Using(cs) => JoinConstraint::Using(copy_columns(cs)),
    }
}

impl Clone for Literal {
    fn clone(&self) -> (r: Self)
        ensures
            r.deep_view() == self.deep_view(),
    {
        copy_literal(self)
    }
}

impl Clone for Table {
    fn clone(&self) -> (r: Self)
        ensures
            r.deep_view() == self.deep_view(),
    {
        copy_table(self)
    }
}

impl Clone for Column {
    fn clone(&self) -> (r: Self)
        ensures
            r.deep_view() == self.deep_view(),
    {
        copy_column(self)
    }
}

impl Clone for FunctionExpression {
    fn clone(&self) -> (r: Self)
        ensures
            r.deep_view() == self.deep_view(),
    {
        copy_function_expression(self)
    }
}

impl Clone for FunctionArguments {
    fn clone(&self) -> (r: Self)
        ensures
            r.deep_view() == self.deep_view(),
    {
        copy_function_arguments(self)
    }
}

impl Clone for FunctionArgument {
    fn clone(&self) -> (r: Self)
        ensures
            r.deep_view() == self.deep_view(),
    {
        copy_function_argument(self)
    }
}

impl Clone for CaseWhenExpression {
    fn clone(&self) -> (r: Self)
        ensures
            r.deep_view() == self.deep_view(),
    {
        copy_case_when(self)
    }
}

impl Clone for ColumnOrLiteral {
    fn clone(&self) -> (r: Self)
        ensures
            r.deep_view() == self.deep_view(),
    {
        copy_column_or_literal(self)
    }
}

impl Clone for ConditionBase {
    fn clone(&self) -> (r: Self)
        ensures
            r.deep_view() == self.deep_view(),
    {
        copy_condition_base(self)
    }
}

impl Clone for ConditionTree {
    fn clone(&self) -> (r: Self)
        ensures
            r.deep_view() == self.deep_view(),
    {
        copy_condition_tree(self)
    }
}

impl Clone for ConditionExpression {
    fn clone(&self) -> (r: Self)
        ensures
            r.deep_view() == self.deep_view(),
    {
        copy_condition(self)
    }
}

impl Clone for ArithmeticBase {
    fn clone(&self) -> (r: Self)
        ensures
            r.deep_view() == self.deep_view(),
    {
        copy_arithmetic_base(self)
    }
}

impl Clone for ArithmeticItem {
    fn clone(&self) -> (r: Self)
        ensures
            r.deep_view() == self.deep_view(),
    {
        copy_arithmetic_item(self)
    }
}

impl Clone for Arithmetic {
    fn clone(&self) -> (r: Self)
        ensures
            r.deep_view() == self.deep_view(),
    {
        copy_arithmetic(self)
    }
}

impl Clone for ArithmeticExpression {
    fn clone(&self) -> (r: Self)
        ensures
            r.deep_view() == self.deep_view(),
    {
        copy_arithmetic_expression(self)
    }
}

impl Clone for JoinClause {
    fn clone(&self) -> (r: Self)
        ensures
            r.deep_view() == self.deep_view(),
    {
        copy_join_clause(self)
    }
}

impl Clone for JoinRightSide {
    fn clone(&self) -> (r: Self)
        ensures
            r.deep_view() == self.deep_view(),
    {
        copy_join_right_side(self)
    }
}

impl Clone for JoinConstraint {
    fn clone(&self) -> (r: Self)
        ensures
            r.deep_view() == self.deep_view(),
    {
        copy_join_constraint(self)
    }
}

} // verus!
