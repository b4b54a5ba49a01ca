//! Selected fields (`*`, `table.*`, values, columns) and `column = value`
//! assignments.
use vstd::prelude::*;

use crate::base::arithmetic::{
    arithmetic_expression_at, arithmetic_expression_text, spec_arithmetic_expression,
    ArithmeticExpression, ArithmeticExpressionView,
};
use crate::base::column::{
    column_at, column_text, column_without_alias_at, spec_column, spec_column_without_alias, Column,
    ColumnView,
};
use crate::base::display_util::{escaped_name, DisplayUtil};
use crate::base::error::ParseSQLError;
use crate::base::input::{agrees, char_at, has_tag, str_agrees, ws_end, Input, Parsed};
use crate::base::literal::{
    literal_at, literal_expression_at, literal_expression_text, opt_comma_end, opt_comma_end_at,
    prepend, spec_literal, spec_literal_expression, LiteralExpression, LiteralExpressionView,
};
use crate::base::table::{spec_table_reference, table_reference_at};

verus! {

#[derive(Clone, Debug, Eq, Hash, PartialEq)]
pub enum FieldDefinitionExpression {
    All,
    AllInTable(String),
    Col(Column),
    Value(FieldValueExpression),
}

#[derive(Clone, Debug, Eq, Hash, PartialEq)]
pub enum FieldValueExpression {
    Arithmetic(ArithmeticExpression),
    Literal(LiteralExpression),
}

pub enum FieldDefinitionExpressionView {
    All,
    AllInTable(Seq<char>),
    Col(ColumnView),
    Value(FieldValueExpressionView),
}

pub enum FieldValueExpressionView {
    Arithmetic(ArithmeticExpressionView),
    Literal(LiteralExpressionView),
}

impl DeepView for FieldValueExpression {
    type V = FieldValueExpressionView;

    open spec fn deep_view(&self) -> FieldValueExpressionView {
        match self {
            FieldValueExpression::Arithmetic(a) => FieldValueExpressionView::Arithmetic(
                a.deep_view(),
            ),
            FieldValueExpression::Literal(l) => FieldValueExpressionView::Literal(l.deep_view()),
        }
    }
}

impl DeepView for FieldDefinitionExpression {
    type V = FieldDefinitionExpressionView;

    open spec fn deep_view(&self) -> FieldDefinitionExpressionView {
        match self {
            FieldDefinitionExpression::All => FieldDefinitionExpressionView::All,
            FieldDefinitionExpression::AllInTable(t) => FieldDefinitionExpressionView::AllInTable(
                t@,
            ),
            FieldDefinitionExpression::Col(c) => FieldDefinitionExpressionView::Col(c.deep_view()),
            FieldDefinitionExpression::Value(v) => FieldDefinitionExpressionView::Value(
                v.deep_view(),
            ),
        }
    }
}

impl Default for FieldDefinitionExpression {
    fn default() -> (r: Self)
        ensures
            r == FieldDefinitionExpression::All,
    {
        FieldDefinitionExpression::All
    }
}

pub open spec fn field_value_text(v: FieldValueExpressionView) -> Seq<char> {
    match v {
        FieldValueExpressionView::Arithmetic(a) => arithmetic_expression_text(a),
        FieldValueExpressionView::Literal(l) => literal_expression_text(l),
    }
}

/// `*`, `table.*` (the table in back quotes when it reads as a keyword), the
/// column, or the value.
pub open spec fn field_definition_text(f: FieldDefinitionExpressionView) -> Seq<char> {
    match f {
        FieldDefinitionExpressionView::All => "*"@,
        FieldDefinitionExpressionView::AllInTable(t) => escaped_name(t) + ".*"@,
        FieldDefinitionExpressionView::Col(c) => column_text(c),
        FieldDefinitionExpressionView::Value(v) => field_value_text(v),
    }
}

/// One selected field, trying in order: `*`, `table.*`, an arithmetic
/// expression, a literal expression and a column.
pub open spec fn spec_field_definition(s: Seq<char>, p: int) -> Parsed<FieldDefinitionExpressionView> {
    if char_at(s, p, '*') {
        Parsed::Done(p + 1, FieldDefinitionExpressionView::All)
    } else {
        let all_in_table = match spec_table_reference(s, p) {
            Parsed::Done(e, t) => if has_tag(s, e, ".*"@) {
                Parsed::Done(e + 2, FieldDefinitionExpressionView::AllInTable(t.name))
            } else {
                Parsed::NoMatch
            },
            _ => Parsed::NoMatch,
        };
        match all_in_table {
            Parsed::NoMatch => match spec_arithmetic_expression(s, p) {
                Parsed::Done(e, a) => Parsed::Done(
                    e,
                    FieldDefinitionExpressionView::Value(FieldValueExpressionView::Arithmetic(a)),
                ),
                Parsed::Abort => Parsed::Abort,
                Parsed::NoMatch => match spec_literal_expression(s, p) {
                    Parsed::Done(e, l) => Parsed::Done(
                        e,
                        FieldDefinitionExpressionView::Value(FieldValueExpressionView::Literal(l)),
                    ),
                    Parsed::Abort => Parsed::Abort,
                    Parsed::NoMatch => match spec_column(s, p) {
                        Parsed::Done(e, c) => Parsed::Done(e, FieldDefinitionExpressionView::Col(c)),
                        Parsed::NoMatch => Parsed::NoMatch,
                        Parsed::Abort => Parsed::Abort,
                    },
                },
            },
            other => other,
        }
    }
}

/// Selected fields, each followed by an optional comma, as many as match.
pub open spec fn spec_field_definitions(s: Seq<char>, p: int) -> Parsed<
    Seq<FieldDefinitionExpressionView>,
>
    decreases s.len() - p,
{
    match spec_field_definition(s, p) {
        Parsed::Done(e, f) => {
            let g = opt_comma_end(s, e);
            if p < g <= s.len() {
                prepend(seq![f], spec_field_definitions(s, g))
            } else {
                Parsed::NoMatch
            }
        },
        Parsed::NoMatch => Parsed::Done(p, Seq::empty()),
        Parsed::Abort => Parsed::Abort,
    }
}

/// A value: a literal (without alias), or else an arithmetic expression.
pub open spec fn spec_field_value(s: Seq<char>, p: int) -> Parsed<FieldValueExpressionView> {
    match spec_literal(s, p) {
        Parsed::Done(e, l) => Parsed::Done(
            e,
            FieldValueExpressionView::Literal(LiteralExpressionView { value: l, alias: None }),
        ),
        Parsed::Abort => Parsed::Abort,
        Parsed::NoMatch => match spec_arithmetic_expression(s, p) {
            Parsed::Done(e, a) => Parsed::Done(e, FieldValueExpressionView::Arithmetic(a)),
            Parsed::NoMatch => Parsed::NoMatch,
            Parsed::Abort => Parsed::Abort,
        },
    }
}

/// `column [ws] = [ws] value`
pub open spec fn spec_assignment_expr(s: Seq<char>, p: int) -> Parsed<
    (ColumnView, FieldValueExpressionView),
> {
    match spec_column_without_alias(s, p) {
        Parsed::Done(e, c) => {
            let a = ws_end(s, e);
            if char_at(s, a, '=') {
                match spec_field_value(s, ws_end(s, a + 1)) {
                    Parsed::Done(f, v) => Parsed::Done(f, (c, v)),
                    Parsed::NoMatch => Parsed::NoMatch,
                    Parsed::Abort => Parsed::Abort,
                }
            } else {
                Parsed::NoMatch
            }
        },
        Parsed::NoMatch => Parsed::NoMatch,
        Parsed::Abort => Parsed::Abort,
    }
}

/// Further assignments, each followed by an optional comma, as many as match.
pub open spec fn spec_assignment_tail(s: Seq<char>, p: int) -> Parsed<
    Seq<(ColumnView, FieldValueExpressionView)>,
>
    decreases s.len() - p,
{
    match spec_assignment_expr(s, p) {
        Parsed::Done(e, a) => {
            let g = opt_comma_end(s, e);
            if p < g <= s.len() {
                prepend(seq![a], spec_assignment_tail(s, g))
            } else {
                Parsed::NoMatch
            }
        },
        Parsed::NoMatch => Parsed::Done(p, Seq::empty()),
        Parsed::Abort => Parsed::Abort,
    }
}

/// At least one assignment, each followed by an optional comma.
pub open spec fn spec_assignment_expr_list(s: Seq<char>, p: int) -> Parsed<
    Seq<(ColumnView, FieldValueExpressionView)>,
> {
    match spec_assignment_expr(s, p) {
        Parsed::Done(e, a) => {
            let g = opt_comma_end(s, e);
            if p <= g <= s.len() {
                prepend(seq![a], spec_assignment_tail(s, g))
            } else {
                Parsed::NoMatch
            }
        },
        Parsed::NoMatch => Parsed::NoMatch,
        Parsed::Abort => Parsed::Abort,
    }
}

fn field_definition_at(src: &Input, p: usize) -> (r: Option<(usize, FieldDefinitionExpression)>)
    requires
        p <= src@.len(),
        !(spec_field_definition(src@, p as int) is Abort),
    ensures
        agrees(r, spec_field_definition(src@, p as int)),
        r matches Some((e, _)) ==> p <= e <= src@.len(),
{
    if src.is_char(p, '*') {
        return Some((p + 1, FieldDefinitionExpression::All));
    }
    if let Some((e, t)) = table_reference_at(src, p) {
        if src.tag(e, ".*") {
            proof {
                reveal_strlit(".*");
            }
            return Some((e + 2, FieldDefinitionExpression::AllInTable(t.name)));
        }
    }
    if let Some((e, a)) = arithmetic_expression_at(src, p) {
        return Some((e, FieldDefinitionExpression::Value(FieldValueExpression::Arithmetic(a))));
    }
    if let Some((e, l)) = literal_expression_at(src, p) {
        return Some((e, FieldDefinitionExpression::Value(FieldValueExpression::Literal(l))));
    }
    match column_at(src, p) {
        Some((e, c)) => Some((e, FieldDefinitionExpression::Col(c))),
        None => None,
    }
}

fn field_definitions_at(src: &Input, p: usize) -> (r: Option<
    (usize, Vec<FieldDefinitionExpression>),
>)
    requires
        p <= src@.len(),
        !(spec_field_definitions(src@, p as int) is Abort),
    ensures
        agrees(r, spec_field_definitions(src@, p as int)),
        r matches Some((e, _)) ==> p <= e <= src@.len(),
{
    let mut acc: Vec<FieldDefinitionExpression> = Vec::new();
    let mut k = p;
    loop
        invariant
            p <= k <= src@.len(),
            spec_field_definitions(src@, p as int) == prepend(
                acc.deep_view(),
                spec_field_definitions(src@, k as int),
            ),
            !(spec_field_definitions(src@, p as int) is Abort),
        decreases src@.len() - k,
    {
        match field_definition_at(src, k) {
            Some((e, f)) => {
                let g = opt_comma_end_at(src, e);
                if g == k {
                    return None;
                }
                let ghost old_acc = acc.deep_view();
                acc.push(f);
                assert(acc.deep_view() =~= old_acc + seq![f.deep_view()]);
                proof {
                    match spec_field_definitions(src@, g as int) {
                        Parsed::Done(h, ys) => assert(old_acc + (seq![f.deep_view()] + ys)
                            =~= acc.deep_view() + ys),
                        _ => {},
                    }
                }
                k = g;
            },
            None => {
                assert(acc.deep_view() + Seq::<FieldDefinitionExpressionView>::empty()
                    =~= acc.deep_view());
                return Some((k, acc));
            },
        }
    }
}

fn field_value_at(src: &Input, p: usize) -> (r: Option<(usize, FieldValueExpression)>)
    requires
        p <= src@.len(),
        !(spec_field_value(src@, p as int) is Abort),
    ensures
        agrees(r, spec_field_value(src@, p as int)),
        r matches Some((e, _)) ==> p <= e <= src@.len(),
{
    if let Some((e, l)) = literal_at(src, p) {
        return Some(
            (e, FieldValueExpression::Literal(LiteralExpression { value: l, alias: None })),
        );
    }
    match arithmetic_expression_at(src, p) {
        Some((e, a)) => Some((e, FieldValueExpression::Arithmetic(a))),
        None => None,
    }
}

fn assignment_expr_at(src: &Input, p: usize) -> (r: Option<(usize, (Column, FieldValueExpression))>)
    requires
        p <= src@.len(),
        !(spec_assignment_expr(src@, p as int) is Abort),
    ensures
        agrees(r, spec_assignment_expr(src@, p as int)),
        r matches Some((e, _)) ==> p < e <= src@.len(),
{
    let (e, c) = match column_without_alias_at(src, p) {
        Some(x) => x,
        None => return None,
    };
    let a = src.skip_ws(e);
    if !src.is_char(a, '=') {
        return None;
    }
    match field_value_at(src, src.skip_ws(a + 1)) {
        Some((f, v)) => Some((f, (c, v))),
        None => None,
    }
}

fn assignment_expr_list_at(src: &Input, p: usize) -> (r: Option<
    (usize, Vec<(Column, FieldValueExpression)>),
>)
    requires
        p <= src@.len(),
        !(spec_assignment_expr_list(src@, p as int) is Abort),
    ensures
        agrees(r, spec_assignment_expr_list(src@, p as int)),
        r matches Some((e, _)) ==> p <= e <= src@.len(),
{
    let (e, a) = match assignment_expr_at(src, p) {
        Some(x) => x,
        None => return None,
    };
    let mut k = opt_comma_end_at(src, e);
    let mut acc: Vec<(Column, FieldValueExpression)> = Vec::new();
    acc.push(a);
    assert(acc.deep_view() =~= seq![a.deep_view()]);
    loop
        invariant
            p <= k <= src@.len(),
            spec_assignment_expr_list(src@, p as int) == prepend(
                acc.deep_view(),
                spec_assignment_tail(src@, k as int),
            ),
            !(spec_assignment_expr_list(src@, p as int) is Abort),
        decreases src@.len() - k,
    {
        match assignment_expr_at(src, k) {
            Some((e, a)) => {
                let g = opt_comma_end_at(src, e);
                let ghost old_acc = acc.deep_view();
                acc.push(a);
                assert(acc.deep_view() =~= old_acc + seq![a.deep_view()]);
                proof {
                    match spec_assignment_tail(src@, g as int) {
                        Parsed::Done(h, ys) => assert(old_acc + (seq![a.deep_view()] + ys)
                            =~= acc.deep_view() + ys),
                        _ => {},
                    }
                }
                k = g;
            },
            None => {
                assert(acc.deep_view() + Seq::<(ColumnView, FieldValueExpressionView)>::empty()
                    =~= acc.deep_view());
                return Some((k, acc));
            },
        }
    }
}

impl FieldValueExpression {
    pub fn push_text(&self, out: &mut String)
        ensures
            final(out)@ == old(out)@ + field_value_text(self.deep_view()),
    {
        match self {
            FieldValueExpression::Arithmetic(a) => a.push_text(out),
            FieldValueExpression::Literal(l) => {
                let t = l.to_string();
                out.append(t.as_str());
            },
        }
    }

    /// The SQL text of the value.
    pub fn to_string(&self) -> (r: String)
        ensures
            r@ == field_value_text(self.deep_view()),
    {
        let mut out = String::new();
        self.push_text(&mut out);
        assert(out@ =~= field_value_text(self.deep_view()));
        out
    }

    /// At least one `column = value`, each followed by an optional comma.
    pub fn assignment_expr_list(i: &str) -> (r: Result<
        (&str, Vec<(Column, FieldValueExpression)>),
        ParseSQLError,
    >)
        requires
            !(spec_assignment_expr_list(i@, 0) is Abort),
        ensures
            str_agrees(i@, r, spec_assignment_expr_list(i@, 0)),
    {
        let src = Input::new(i);
        match assignment_expr_list_at(&src, 0) {
            Some((q, v)) => Ok((src.rest(q), v)),
            None => Err(ParseSQLError::grammar(i)),
        }
    }
}

impl FieldDefinitionExpression {
    /// The selected fields, each followed by an optional comma.
    pub fn parse(i: &str) -> (r: Result<(&str, Vec<FieldDefinitionExpression>), ParseSQLError>)
        requires
            !(spec_field_definitions(i@, 0) is Abort),
        ensures
            str_agrees(i@, r, spec_field_definitions(i@, 0)),
    {
        let src = Input::new(i);
        match field_definitions_at(&src, 0) {
            Some((q, v)) => Ok((src.rest(q), v)),
            None => Err(ParseSQLError::grammar(i)),
        }
    }

    /// The SQL text of the field.
    pub fn to_string(&self) -> (r: String)
        ensures
            r@ == field_definition_text(self.deep_view()),
    {
        let mut out = String::new();
        match self {
            FieldDefinitionExpression::All => out.append("*"),
            FieldDefinitionExpression::AllInTable(t) => {
                out.append(DisplayUtil::escape_if_keyword(t.as_str()).as_str());
                out.append(".*");
            },
            FieldDefinitionExpression::Col(c) => c.push_text(&mut out),
            FieldDefinitionExpression::Value(v) => v.push_text(&mut out),
        }
        assert(out@ =~= field_definition_text(self.deep_view()));
        out
    }
}

} // verus!
