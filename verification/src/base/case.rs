//! `CASE WHEN condition THEN column [ELSE literal] END`.
use vstd::prelude::*;

use crate::base::column::{
    column_text, column_without_alias_at, spec_column_without_alias, Column, ColumnView,
};
use crate::base::condition::{
    condition_expr_at, condition_expression_text, spec_condition_expr, ConditionExpression,
    ConditionExpressionView,
};
use crate::base::error::ParseSQLError;
use crate::base::input::{agrees, has_tag_nc, str_agrees, ws_end, Input, Parsed};
use crate::base::literal::{literal_at, literal_text, spec_literal, Literal, LiteralView};

verus! {

/// ```sql
/// CASE expression
///     WHEN {value1 | condition1} THEN result1
///     ...
///     ELSE resultN
/// END
/// ```
#[derive(Debug, Eq, Hash, PartialEq)]
pub struct CaseWhenExpression {
    pub condition: ConditionExpression,
    pub then_expr: ColumnOrLiteral,
    pub else_expr: Option<ColumnOrLiteral>,
}

#[derive(Debug, Eq, Hash, PartialEq)]
pub enum ColumnOrLiteral {
    Column(Column),
    Literal(Literal),
}

pub struct CaseWhenExpressionView {
    pub condition: ConditionExpressionView,
    pub then_expr: ColumnOrLiteralView,
    pub else_expr: Option<ColumnOrLiteralView>,
}

pub enum ColumnOrLiteralView {
    Column(ColumnView),
    Literal(LiteralView),
}

impl DeepView for CaseWhenExpression {
    type V = CaseWhenExpressionView;

    open spec fn deep_view(&self) -> CaseWhenExpressionView
        decreases self,
    {
        CaseWhenExpressionView {
            condition: self.condition.deep_view(),
            then_expr: self.then_expr.deep_view(),
            else_expr: match &self.else_expr {
                Some(e) => Some(e.deep_view()),
                None => None,
            },
        }
    }
}

impl DeepView for ColumnOrLiteral {
    type V = ColumnOrLiteralView;

    open spec fn deep_view(&self) -> ColumnOrLiteralView
        decreases self,
    {
        match self {
            ColumnOrLiteral::Column(c) => ColumnOrLiteralView::Column(c.deep_view()),
            ColumnOrLiteral::Literal(l) => ColumnOrLiteralView::Literal(l.deep_view()),
        }
    }
}

pub open spec fn column_or_literal_text(v: ColumnOrLiteralView) -> Seq<char>
    decreases v,
{
    match v {
        ColumnOrLiteralView::Column(c) => column_text(c),
        ColumnOrLiteralView::Literal(l) => literal_text(l),
    }
}

/// `CASE WHEN condition THEN then[ ELSE else]` (the text has no `END`).
pub open spec fn case_when_text(e: CaseWhenExpressionView) -> Seq<char>
    decreases e,
{
    "CASE WHEN "@ + condition_expression_text(e.condition) + " THEN "@ + column_or_literal_text(
        e.then_expr,
    ) + match e.else_expr {
        Some(x) => " ELSE "@ + column_or_literal_text(x),
        None => Seq::empty(),
    }
}


/// The optional `ELSE [ws] literal [ws]` part at `h`: where it ends and the
/// literal; `None` for the literal when there is none.
pub open spec fn spec_case_else(s: Seq<char>, h: int) -> Parsed<Option<LiteralView>> {
    let i = ws_end(s, h + "ELSE"@.len());
    if has_tag_nc(s, h, "ELSE"@) {
        match spec_literal(s, i) {
            Parsed::Done(e, l) => Parsed::Done(ws_end(s, e), Some(l)),
            Parsed::NoMatch => Parsed::Done(h, None),
            Parsed::Abort => Parsed::Abort,
        }
    } else {
        Parsed::Done(h, None)
    }
}

/// `CASE ws WHEN [ws] condition [ws] THEN [ws] column [ws] [ELSE [ws] literal [ws]] END`,
/// keywords ignoring case.
#[verifier::opaque]
pub open spec fn spec_case_when(s: Seq<char>, p: int) -> Parsed<CaseWhenExpressionView>
    decreases s.len() - p, 6nat,
{
    let a = p + "CASE"@.len();
    let b = ws_end(s, a);
    let d = ws_end(s, b + "WHEN"@.len());
    if has_tag_nc(s, p, "CASE"@) && b > a && has_tag_nc(s, b, "WHEN"@) && p < d <= s.len() {
        match spec_condition_expr(s, d) {
            Parsed::Done(e1, cond) => {
                let f = ws_end(s, e1);
                let g = ws_end(s, f + "THEN"@.len());
                if has_tag_nc(s, f, "THEN"@) && p < g <= s.len() {
                    match spec_column_without_alias(s, g) {
                        Parsed::Done(e2, col) => {
                            let h = ws_end(s, e2);
                            match spec_case_else(s, h) {
                                Parsed::Done(k, el) => if has_tag_nc(s, k, "END"@) {
                                    Parsed::Done(
                                        k + "END"@.len(),
                                        CaseWhenExpressionView {
                                            condition: cond,
                                            then_expr: ColumnOrLiteralView::Column(col),
                                            else_expr: match el {
                                                Some(l) => Some(ColumnOrLiteralView::Literal(l)),
                                                None => None,
                                            },
                                        },
                                    )
                                } else {
                                    Parsed::NoMatch
                                },
                                Parsed::NoMatch => Parsed::NoMatch,
                                Parsed::Abort => Parsed::Abort,
                            }
                        },
                        Parsed::NoMatch => Parsed::NoMatch,
                        Parsed::Abort => Parsed::Abort,
                    }
                } else {
                    Parsed::NoMatch
                }
            },
            Parsed::NoMatch => Parsed::NoMatch,
            Parsed::Abort => Parsed::Abort,
        }
    } else {
        Parsed::NoMatch
    }
}

fn case_else_at(src: &Input, h: usize) -> (r: Option<(usize, Option<Literal>)>)
    requires
        h <= src@.len(),
        !(spec_case_else(src@, h as int) is Abort),
    ensures
        agrees(r, spec_case_else(src@, h as int)),
        r matches Some((e, _)) ==> h <= e <= src@.len(),
{
    if src.tag_nc(h, "ELSE") {
        let i = src.skip_ws(h + "ELSE".unicode_len());
        match literal_at(src, i) {
            Some((e, l)) => Some((src.skip_ws(e), Some(l))),
            None => Some((h, None)),
        }
    } else {
        Some((h, None))
    }
}

pub fn case_when_at(src: &Input, p: usize) -> (r: Option<(usize, CaseWhenExpression)>)
    requires
        p <= src@.len(),
        !(spec_case_when(src@, p as int) is Abort),
    ensures
        agrees(r, spec_case_when(src@, p as int)),
        r matches Some((e, _)) ==> p < e <= src@.len(),
    decreases src@.len() - p, 6nat,
{
    proof {
        reveal_with_fuel(spec_case_when, 1);
        reveal_with_fuel(spec_column_without_alias, 1);
        reveal_with_fuel(spec_condition_expr, 1);
    }
    if !src.tag_nc(p, "CASE") {
        return None;
    }
    let a = p + "CASE".unicode_len();
    let b = src.skip_ws(a);
    if b == a || !src.tag_nc(b, "WHEN") {
        return None;
    }
    let d = src.skip_ws(b + "WHEN".unicode_len());
    let (e1, cond) = match condition_expr_at(src, d) {
        Some(x) => x,
        None => return None,
    };
    let f = src.skip_ws(e1);
    if !src.tag_nc(f, "THEN") {
        return None;
    }
    let g = src.skip_ws(f + "THEN".unicode_len());
    let (e2, col) = match column_without_alias_at(src, g) {
        Some(x) => x,
        None => return None,
    };
    let h = src.skip_ws(e2);
    let (k, el) = match case_else_at(src, h) {
        Some(x) => x,
        None => return None,
    };
    if !src.tag_nc(k, "END") {
        return None;
    }
    proof {
        reveal_strlit("END");
    }
    let else_expr = match el {
        Some(l) => Some(ColumnOrLiteral::Literal(l)),
        None => None,
    };
    Some(
        (
            k + "END".unicode_len(),
            CaseWhenExpression {
                condition: cond,
                then_expr: ColumnOrLiteral::Column(col),
                else_expr,
            },
        ),
    )
}

impl ColumnOrLiteral {
    pub fn push_text(&self, out: &mut String)
        ensures
            final(out)@ == old(out)@ + column_or_literal_text(self.deep_view()),
        decreases self,
    {
        match self {
            ColumnOrLiteral::Column(c) => c.push_text(out),
            ColumnOrLiteral::Literal(l) => l.push_text(out),
        }
    }

    pub fn to_string(&self) -> (r: String)
        ensures
            r@ == column_or_literal_text(self.deep_view()),
    {
        let mut out = String::new();
        self.push_text(&mut out);
        assert(out@ =~= column_or_literal_text(self.deep_view()));
        out
    }
}

impl CaseWhenExpression {
    /// `CASE WHEN condition THEN column [ELSE literal] END`, keywords ignoring case.
    pub fn parse(i: &str) -> (r: Result<(&str, CaseWhenExpression), ParseSQLError>)
        requires
            !(spec_case_when(i@, 0) is Abort),
        ensures
            str_agrees(i@, r, spec_case_when(i@, 0)),
    {
        let src = Input::new(i);
        match case_when_at(&src, 0) {
            Some((q, v)) => Ok((src.rest(q), v)),
            None => Err(ParseSQLError::grammar(i)),
        }
    }

    /// Appends the SQL text of the expression.
    pub fn push_text(&self, out: &mut String)
        ensures
            final(out)@ == old(out)@ + case_when_text(self.deep_view()),
        decreases self,
    {
        let ghost start = out@;
        out.append("CASE WHEN ");
        self.condition.push_text(out);
        out.append(" THEN ");
        self.then_expr.push_text(out);
        match &self.else_expr {
            Some(e) => {
                out.append(" ELSE ");
                e.push_text(out);
            },
            None => {},
        }
        assert(out@ =~= start + case_when_text(self.deep_view()));
    }

    /// The SQL text of the expression.
    pub fn to_string(&self) -> (r: String)
        ensures
            r@ == case_when_text(self.deep_view()),
    {
        let mut out = String::new();
        self.push_text(&mut out);
        assert(out@ =~= case_when_text(self.deep_view()));
        out
    }
}

} // verus!
