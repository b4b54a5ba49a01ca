//! `[NATURAL] join_operator table_or_nested_join {ON condition | USING (columns)}`.
use vstd::prelude::*;

use crate::base::column::{column_text, spec_field_list, Column, ColumnView};
use crate::base::condition::{
    condition_expr_at, condition_expression_text, spec_condition_expr, ConditionExpression,
    ConditionExpressionView,
};
use crate::base::error::ParseSQLError;
use crate::base::input::{
    agrees, blanks, char_at, eq_no_case, has_tag_nc, lemma_blanks_end, lemma_spelled_tag,
    lemma_tag_nc_mismatch, lemma_tag_nc_of_eq, spelled, str_agrees, ws_end, Input, Parsed,
};
use crate::base::reference_type::{two_words, two_words_at};
use crate::base::table::{
    spec_table_list, spec_table_reference, table_list_at, table_reference_at, table_text, Table,
    TableView,
};

verus! {

#[derive(Debug, Eq, Hash, PartialEq)]
pub struct JoinClause {
    pub operator: JoinOperator,
    pub right: JoinRightSide,
    pub constraint: JoinConstraint,
}

#[derive(Debug, Eq, Hash, PartialEq)]
pub enum JoinRightSide {
    Table(Table),
    Tables(Vec<Table>),
    NestedJoin(Box<JoinClause>),
}

#[derive(Clone, Copy, Debug, Eq, Hash, PartialEq, Structural)]
pub enum JoinOperator {
    Join,
    LeftJoin,
    LeftOuterJoin,
    RightJoin,
    InnerJoin,
    CrossJoin,
    StraightJoin,
}

#[derive(Debug, Eq, Hash, PartialEq)]
pub enum JoinConstraint {
    On(ConditionExpression),
    Using(Vec<Column>),
}

pub struct JoinClauseView {
    pub operator: JoinOperator,
    pub right: JoinRightSideView,
    pub constraint: JoinConstraintView,
}

pub enum JoinRightSideView {
    Table(TableView),
    Tables(Seq<TableView>),
    NestedJoin(Box<JoinClauseView>),
}

pub enum JoinConstraintView {
    On(ConditionExpressionView),
    Using(Seq<ColumnView>),
}

impl DeepView for JoinOperator {
    type V = JoinOperator;

    open spec fn deep_view(&self) -> JoinOperator {
        *self
    }
}

impl DeepView for JoinConstraint {
    type V = JoinConstraintView;

    open spec fn deep_view(&self) -> JoinConstraintView {
        match self {
            JoinConstraint::On(c) => JoinConstraintView::On(c.deep_view()),
            JoinConstraint::Using(cs) => JoinConstraintView::Using(cs.deep_view()),
        }
    }
}

impl DeepView for JoinClause {
    type V = JoinClauseView;

    open spec fn deep_view(&self) -> JoinClauseView
        decreases self,
    {
        JoinClauseView {
            operator: self.operator,
            right: self.right.deep_view(),
            constraint: self.constraint.deep_view(),
        }
    }
}

impl DeepView for JoinRightSide {
    type V = JoinRightSideView;

    open spec fn deep_view(&self) -> JoinRightSideView
        decreases self,
    {
        match self {
            JoinRightSide::Table(t) => JoinRightSideView::Table(t.deep_view()),
            JoinRightSide::Tables(ts) => JoinRightSideView::Tables(ts.deep_view()),
            JoinRightSide::NestedJoin(j) => JoinRightSideView::NestedJoin(
                Box::new((**j).deep_view()),
            ),
        }
    }
}

/// `JOIN`, `LEFT ws JOIN`, `LEFT ws OUTER ws JOIN`, `RIGHT ws JOIN`,
/// `INNER ws JOIN`, `CROSS ws JOIN` or `STRAIGHT_JOIN`, ignoring case, tried in
/// this order.
pub open spec fn spec_join_operator(s: Seq<char>, p: int) -> Parsed<JoinOperator> {
    if has_tag_nc(s, p, "JOIN"@) {
        Parsed::Done(p + 4, JoinOperator::Join)
    } else if let Some(e) = two_words(s, p, "LEFT"@, "JOIN"@) {
        Parsed::Done(e, JoinOperator::LeftJoin)
    } else if let Some(e) = left_outer_join(s, p) {
        Parsed::Done(e, JoinOperator::LeftOuterJoin)
    } else if let Some(e) = two_words(s, p, "RIGHT"@, "JOIN"@) {
        Parsed::Done(e, JoinOperator::RightJoin)
    } else if let Some(e) = two_words(s, p, "INNER"@, "JOIN"@) {
        Parsed::Done(e, JoinOperator::InnerJoin)
    } else if let Some(e) = two_words(s, p, "CROSS"@, "JOIN"@) {
        Parsed::Done(e, JoinOperator::CrossJoin)
    } else if has_tag_nc(s, p, "STRAIGHT_JOIN"@) {
        Parsed::Done(p + 13, JoinOperator::StraightJoin)
    } else {
        Parsed::NoMatch
    }
}

/// `LEFT ws OUTER ws JOIN`, ignoring case: where it ends.
pub open spec fn left_outer_join(s: Seq<char>, p: int) -> Option<int> {
    let e = ws_end(s, p + 4);
    let f = ws_end(s, e + 5);
    if has_tag_nc(s, p, "LEFT"@) && e > p + 4 && has_tag_nc(s, e, "OUTER"@) && f > e + 5
        && has_tag_nc(s, f, "JOIN"@) {
        Some(f + 4)
    } else {
        None
    }
}

pub open spec fn join_operator_text(o: JoinOperator) -> Seq<char> {
    match o {
        JoinOperator::Join => "JOIN"@,
        JoinOperator::LeftJoin => "LEFT JOIN"@,
        JoinOperator::LeftOuterJoin => "LEFT OUTER JOIN"@,
        JoinOperator::RightJoin => "RIGHT JOIN"@,
        JoinOperator::InnerJoin => "INNER JOIN"@,
        JoinOperator::CrossJoin => "CROSS JOIN"@,
        JoinOperator::StraightJoin => "STRAIGHT_JOIN"@,
    }
}

/// `USING ws ( [ws] columns [ws] )` or `ON ws condition`, the condition
/// possibly in brackets; keywords ignoring case.
pub open spec fn spec_join_constraint(s: Seq<char>, p: int) -> Parsed<JoinConstraintView> {
    let a = ws_end(s, p + "USING"@.len());
    let b = ws_end(s, a + 1);
    let using = if has_tag_nc(s, p, "USING"@) && a > p + "USING"@.len() && char_at(s, a, '(') {
        match spec_field_list(s, b) {
            Parsed::Done(e, cs) => if char_at(s, ws_end(s, e), ')') {
                Parsed::Done(ws_end(s, e) + 1, JoinConstraintView::Using(cs))
            } else {
                Parsed::NoMatch
            },
            Parsed::NoMatch => Parsed::NoMatch,
            Parsed::Abort => Parsed::Abort,
        }
    } else {
        Parsed::NoMatch
    };
    match using {
        Parsed::NoMatch => {
            let c = ws_end(s, p + "ON"@.len());
            if has_tag_nc(s, p, "ON"@) && c > p + "ON"@.len() {
                match spec_on_condition(s, c) {
                    Parsed::Done(e, ce) => Parsed::Done(e, JoinConstraintView::On(ce)),
                    Parsed::NoMatch => Parsed::NoMatch,
                    Parsed::Abort => Parsed::Abort,
                }
            } else {
                Parsed::NoMatch
            }
        },
        other => other,
    }
}

/// `( [ws] condition [ws] )`, or else a condition.
pub open spec fn spec_on_condition(s: Seq<char>, p: int) -> Parsed<ConditionExpressionView> {
    let bracketed = if char_at(s, p, '(') {
        match spec_condition_expr(s, ws_end(s, p + 1)) {
            Parsed::Done(e, c) => if char_at(s, ws_end(s, e), ')') {
                Parsed::Done(ws_end(s, e) + 1, c)
            } else {
                Parsed::NoMatch
            },
            other => other,
        }
    } else {
        Parsed::NoMatch
    };
    match bracketed {
        Parsed::NoMatch => spec_condition_expr(s, p),
        other => other,
    }
}

/// `[ws] [NATURAL ws] operator ws right_side ws constraint`
pub open spec fn spec_join_clause(s: Seq<char>, p: int) -> Parsed<JoinClauseView>
    decreases s.len() - p,
{
    let a = ws_end(s, p);
    let n = ws_end(s, a + "NATURAL"@.len());
    let b = if has_tag_nc(s, a, "NATURAL"@) && n > a + "NATURAL"@.len() {
        n
    } else {
        a
    };
    match spec_join_operator(s, b) {
        Parsed::Done(e, op) => {
            let c = ws_end(s, e);
            if e < c && p < c <= s.len() {
                match spec_join_right_side(s, c) {
                    Parsed::Done(f, right) => {
                        let g = ws_end(s, f);
                        if f < g {
                            match spec_join_constraint(s, g) {
                                Parsed::Done(h, constraint) => Parsed::Done(
                                    h,
                                    JoinClauseView { operator: op, right, constraint },
                                ),
                                Parsed::NoMatch => Parsed::NoMatch,
                                Parsed::Abort => Parsed::Abort,
                            }
                        } else {
                            Parsed::NoMatch
                        }
                    },
                    Parsed::NoMatch => Parsed::NoMatch,
                    Parsed::Abort => Parsed::Abort,
                }
            } else {
                Parsed::NoMatch
            }
        },
        _ => Parsed::NoMatch,
    }
}

/// `(join_clause)`, a table reference, or `(tables)`, tried in this order.
pub open spec fn spec_join_right_side(s: Seq<char>, p: int) -> Parsed<JoinRightSideView>
    decreases s.len() - p,
{
    let nested = if char_at(s, p, '(') {
        match spec_join_clause(s, p + 1) {
            Parsed::Done(e, j) => if char_at(s, e, ')') {
                Parsed::Done(e + 1, JoinRightSideView::NestedJoin(Box::new(j)))
            } else {
                Parsed::NoMatch
            },
            Parsed::NoMatch => Parsed::NoMatch,
            Parsed::Abort => Parsed::Abort,
        }
    } else {
        Parsed::NoMatch
    };
    match nested {
        Parsed::NoMatch => match spec_table_reference(s, p) {
            Parsed::Done(e, t) => Parsed::Done(e, JoinRightSideView::Table(t)),
            _ => if char_at(s, p, '(') {
                match spec_table_list(s, p + 1) {
                    Parsed::Done(e, ts) => if char_at(s, e, ')') {
                        Parsed::Done(e + 1, JoinRightSideView::Tables(ts))
                    } else {
                        Parsed::NoMatch
                    },
                    _ => Parsed::NoMatch,
                }
            } else {
                Parsed::NoMatch
            },
        },
        other => other,
    }
}

/// Columns separated by `, `.
pub open spec fn column_list_text(s: Seq<ColumnView>) -> Seq<char>
    decreases s.len(),
{
    if s.len() == 0 {
        Seq::empty()
    } else if s.len() == 1 {
        column_text(s[0])
    } else {
        column_list_text(s.drop_last()) + ", "@ + column_text(s.last())
    }
}

pub open spec fn join_constraint_text(c: JoinConstraintView) -> Seq<char> {
    match c {
        JoinConstraintView::On(ce) => "ON "@ + condition_expression_text(ce),
        JoinConstraintView::Using(cs) => "USING ("@ + column_list_text(cs) + ")"@,
    }
}

/// A join whose right side is, at every level of nesting, not a bracketed
/// list of tables (such a side has no text).
pub open spec fn join_has_text(j: JoinClauseView) -> bool
    decreases j,
{
    match j.right {
        JoinRightSideView::Table(_) => true,
        JoinRightSideView::Tables(_) => false,
        JoinRightSideView::NestedJoin(n) => join_has_text(*n),
    }
}

/// `operator right constraint`, separated by single spaces.
pub open spec fn join_clause_text(j: JoinClauseView) -> Seq<char>
    decreases j,
{
    join_operator_text(j.operator) + " "@ + match j.right {
        JoinRightSideView::Table(t) => table_text(t),
        JoinRightSideView::NestedJoin(n) => "("@ + join_clause_text(*n) + ")"@,
        JoinRightSideView::Tables(_) => Seq::empty(),
    } + " "@ + join_constraint_text(j.constraint)
}

fn join_operator_at(src: &Input, p: usize) -> (r: Option<(usize, JoinOperator)>)
    requires
        p <= src@.len(),
    ensures
        agrees(r, spec_join_operator(src@, p as int)),
        r matches Some((e, _)) ==> p < e <= src@.len(),
{
    proof {
        reveal_strlit("JOIN");
        reveal_strlit("STRAIGHT_JOIN");
        reveal_strlit("LEFT");
        reveal_strlit("OUTER");
    }
    if src.tag_nc(p, "JOIN") {
        return Some((p + 4, JoinOperator::Join));
    }
    if let Some(e) = two_words_at(src, p, "LEFT", "JOIN") {
        return Some((e, JoinOperator::LeftJoin));
    }
    if src.tag_nc(p, "LEFT") {
        let e = src.skip_ws(p + 4);
        if e > p + 4 && src.tag_nc(e, "OUTER") {
            let f = src.skip_ws(e + 5);
            if f > e + 5 && src.tag_nc(f, "JOIN") {
                return Some((f + 4, JoinOperator::LeftOuterJoin));
            }
        }
    }
    if let Some(e) = two_words_at(src, p, "RIGHT", "JOIN") {
        return Some((e, JoinOperator::RightJoin));
    }
    if let Some(e) = two_words_at(src, p, "INNER", "JOIN") {
        return Some((e, JoinOperator::InnerJoin));
    }
    if let Some(e) = two_words_at(src, p, "CROSS", "JOIN") {
        return Some((e, JoinOperator::CrossJoin));
    }
    if src.tag_nc(p, "STRAIGHT_JOIN") {
        return Some((p + 13, JoinOperator::StraightJoin));
    }
    None
}

fn on_condition_at(src: &Input, p: usize) -> (r: Option<(usize, ConditionExpression)>)
    requires
        p <= src@.len(),
        !(spec_on_condition(src@, p as int) is Abort),
    ensures
        agrees(r, spec_on_condition(src@, p as int)),
        r matches Some((e, _)) ==> p <= e <= src@.len(),
{
    if src.is_char(p, '(') {
        if let Some((e, c)) = condition_expr_at(src, src.skip_ws(p + 1)) {
            let f = src.skip_ws(e);
            if src.is_char(f, ')') {
                return Some((f + 1, c));
            }
        }
    }
    condition_expr_at(src, p)
}

fn join_constraint_at(src: &Input, p: usize) -> (r: Option<(usize, JoinConstraint)>)
    requires
        p <= src@.len(),
        !(spec_join_constraint(src@, p as int) is Abort),
    ensures
        agrees(r, spec_join_constraint(src@, p as int)),
        r matches Some((e, _)) ==> p <= e <= src@.len(),
{
    if src.tag_nc(p, "USING") {
        let a = src.skip_ws(p + "USING".unicode_len());
        if a > p + "USING".unicode_len() && src.is_char(a, '(') {
            if let Some((e, cs)) = crate::base::column::field_list_at(src, src.skip_ws(a + 1)) {
                let f = src.skip_ws(e);
                if src.is_char(f, ')') {
                    return Some((f + 1, JoinConstraint::Using(cs)));
                }
            }
        }
    }
    if src.tag_nc(p, "ON") {
        let c = src.skip_ws(p + "ON".unicode_len());
        if c > p + "ON".unicode_len() {
            return match on_condition_at(src, c) {
                Some((e, ce)) => Some((e, JoinConstraint::On(ce))),
                None => None,
            };
        }
    }
    None
}

fn join_clause_at(src: &Input, p: usize) -> (r: Option<(usize, JoinClause)>)
    requires
        p <= src@.len(),
        !(spec_join_clause(src@, p as int) is Abort),
    ensures
        agrees(r, spec_join_clause(src@, p as int)),
        r matches Some((e, _)) ==> p < e <= src@.len(),
    decreases src@.len() - p,
{
    let a = src.skip_ws(p);
    let mut b = a;
    if src.tag_nc(a, "NATURAL") {
        let n = src.skip_ws(a + "NATURAL".unicode_len());
        if n > a + "NATURAL".unicode_len() {
            b = n;
        }
    }
    let (e, op) = match join_operator_at(src, b) {
        Some(x) => x,
        None => return None,
    };
    let c = src.skip_ws(e);
    if c == e {
        return None;
    }
    let (f, right) = match join_right_side_at(src, c) {
        Some(x) => x,
        None => return None,
    };
    let g = src.skip_ws(f);
    if g == f {
        return None;
    }
    match join_constraint_at(src, g) {
        Some((h, constraint)) => Some((h, JoinClause { operator: op, right, constraint })),
        None => None,
    }
}

fn join_right_side_at(src: &Input, p: usize) -> (r: Option<(usize, JoinRightSide)>)
    requires
        p <= src@.len(),
        !(spec_join_right_side(src@, p as int) is Abort),
    ensures
        agrees(r, spec_join_right_side(src@, p as int)),
        r matches Some((e, _)) ==> p < e <= src@.len(),
    decreases src@.len() - p,
{
    if src.is_char(p, '(') {
        if let Some((e, j)) = join_clause_at(src, p + 1) {
            if src.is_char(e, ')') {
                return Some((e + 1, JoinRightSide::NestedJoin(Box::new(j))));
            }
        }
    }
    if let Some((e, t)) = table_reference_at(src, p) {
        return Some((e, JoinRightSide::Table(t)));
    }
    if src.is_char(p, '(') {
        if let Some((e, ts)) = table_list_at(src, p + 1) {
            if src.is_char(e, ')') {
                return Some((e + 1, JoinRightSide::Tables(ts)));
            }
        }
    }
    None
}

impl JoinOperator {
    pub fn parse(i: &str) -> (r: Result<(&str, JoinOperator), ParseSQLError>)
        ensures
            str_agrees(i@, r, spec_join_operator(i@, 0)),
    {
        let src = Input::new(i);
        match join_operator_at(&src, 0) {
            Some((q, v)) => Ok((src.rest(q), v)),
            None => Err(ParseSQLError::grammar(i)),
        }
    }

    pub fn to_string(&self) -> (r: String)
        ensures
            r@ == join_operator_text(*self),
    {
        match self {
            JoinOperator::Join => "JOIN".to_owned(),
            JoinOperator::LeftJoin => "LEFT JOIN".to_owned(),
            JoinOperator::LeftOuterJoin => "LEFT OUTER JOIN".to_owned(),
            JoinOperator::RightJoin => "RIGHT JOIN".to_owned(),
            JoinOperator::InnerJoin => "INNER JOIN".to_owned(),
            JoinOperator::CrossJoin => "CROSS JOIN".to_owned(),
            JoinOperator::StraightJoin => "STRAIGHT_JOIN".to_owned(),
        }
    }
}

impl JoinConstraint {
    pub fn parse(i: &str) -> (r: Result<(&str, JoinConstraint), ParseSQLError>)
        requires
            !(spec_join_constraint(i@, 0) is Abort),
        ensures
            str_agrees(i@, r, spec_join_constraint(i@, 0)),
    {
        let src = Input::new(i);
        match join_constraint_at(&src, 0) {
            Some((q, v)) => Ok((src.rest(q), v)),
            None => Err(ParseSQLError::grammar(i)),
        }
    }

    pub fn push_text(&self, out: &mut String)
        ensures
            final(out)@ == old(out)@ + join_constraint_text(self.deep_view()),
    {
        let ghost start = out@;
        match self {
            JoinConstraint::On(ce) => {
                out.append("ON ");
                ce.push_text(out);
            },
            JoinConstraint::Using(cs) => {
                out.append("USING (");
                let n = cs.len();
                let mut k: usize = 0;
                assert(cs.deep_view().subrange(0, 0) =~= Seq::<ColumnView>::empty());
                while k < n
                    invariant
                        k <= n,
                        n == cs@.len(),
                        out@ == start + "USING ("@ + column_list_text(
                            cs.deep_view().subrange(0, k as int),
                        ),
                    decreases n - k,
                {
                    let ghost prev = cs.deep_view().subrange(0, k as int);
                    let ghost next = cs.deep_view().subrange(0, k + 1);
                    if k > 0 {
                        out.append(", ");
                    }
                    cs[k].push_text(out);
                    proof {
                        reveal_strlit(", ");
                        assert(next.drop_last() =~= prev);
                        assert(next.last() == cs@[k as int].deep_view());
                    }
                    assert(out@ =~= start + "USING ("@ + column_list_text(next));
                    k = k + 1;
                }
                assert(cs.deep_view().subrange(0, n as int) =~= cs.deep_view());
                out.append(")");
            },
        }
        assert(out@ =~= start + join_constraint_text(self.deep_view()));
    }

    pub fn to_string(&self) -> (r: String)
        ensures
            r@ == join_constraint_text(self.deep_view()),
    {
        let mut out = String::new();
        self.push_text(&mut out);
        assert(out@ =~= join_constraint_text(self.deep_view()));
        out
    }
}

impl JoinRightSide {
    pub fn parse(i: &str) -> (r: Result<(&str, JoinRightSide), ParseSQLError>)
        requires
            !(spec_join_right_side(i@, 0) is Abort),
        ensures
            str_agrees(i@, r, spec_join_right_side(i@, 0)),
    {
        let src = Input::new(i);
        match join_right_side_at(&src, 0) {
            Some((q, v)) => Ok((src.rest(q), v)),
            None => Err(ParseSQLError::grammar(i)),
        }
    }
}

impl JoinClause {
    pub fn parse(i: &str) -> (r: Result<(&str, JoinClause), ParseSQLError>)
        requires
            !(spec_join_clause(i@, 0) is Abort),
        ensures
            str_agrees(i@, r, spec_join_clause(i@, 0)),
    {
        let src = Input::new(i);
        match join_clause_at(&src, 0) {
            Some((q, v)) => Ok((src.rest(q), v)),
            None => Err(ParseSQLError::grammar(i)),
        }
    }

    pub fn push_text(&self, out: &mut String)
        requires
            join_has_text(self.deep_view()),
        ensures
            final(out)@ == old(out)@ + join_clause_text(self.deep_view()),
        decreases self,
    {
        let ghost start = out@;
        out.append(self.operator.to_string().as_str());
        out.append(" ");
        match &self.right {
            JoinRightSide::Table(t) => {
                out.append(t.to_string().as_str());
            },
            JoinRightSide::NestedJoin(j) => {
                out.append("(");
                j.push_text(out);
                out.append(")");
            },
            JoinRightSide::Tables(_) => {},
        }
        out.append(" ");
        self.constraint.push_text(out);
        assert(out@ =~= start + join_clause_text(self.deep_view()));
    }

    /// The SQL text of the join; a bracketed list of tables on the right has
    /// no text.
    pub fn to_string(&self) -> (r: String)
        requires
            join_has_text(self.deep_view()),
        ensures
            r@ == join_clause_text(self.deep_view()),
    {
        let mut out = String::new();
        self.push_text(&mut out);
        assert(out@ =~= join_clause_text(self.deep_view()));
        out
    }
}

/// Parsing the text of a join operator gives back that operator and reads the
/// whole text.
pub proof fn lemma_join_operator_round_trip(op: JoinOperator)
    ensures
        spec_join_operator(join_operator_text(op), 0) == Parsed::Done(
            join_operator_text(op).len() as int,
            op,
        ),
{
    reveal_strlit("JOIN");
    reveal_strlit("LEFT");
    reveal_strlit("OUTER");
    reveal_strlit("RIGHT");
    reveal_strlit("INNER");
    reveal_strlit("CROSS");
    reveal_strlit("LEFT JOIN");
    reveal_strlit("LEFT OUTER JOIN");
    reveal_strlit("RIGHT JOIN");
    reveal_strlit("INNER JOIN");
    reveal_strlit("CROSS JOIN");
    reveal_strlit("STRAIGHT_JOIN");
    let s = join_operator_text(op);
    reveal_with_fuel(crate::base::input::run_end, 3);
    match op {
        JoinOperator::Join => {
            lemma_tag_nc_of_eq(s, 0, "JOIN"@);
        },
        JoinOperator::LeftJoin => {
            lemma_tag_nc_mismatch(s, 0, "JOIN"@, 0);
            lemma_tag_nc_of_eq(s, 0, "LEFT"@);
            lemma_tag_nc_of_eq(s, 5, "JOIN"@);
        },
        JoinOperator::LeftOuterJoin => {
            lemma_tag_nc_mismatch(s, 0, "JOIN"@, 0);
            lemma_tag_nc_of_eq(s, 0, "LEFT"@);
            lemma_tag_nc_mismatch(s, 5, "JOIN"@, 0);
            lemma_tag_nc_of_eq(s, 5, "OUTER"@);
            lemma_tag_nc_of_eq(s, 11, "JOIN"@);
        },
        JoinOperator::RightJoin => {
            lemma_tag_nc_mismatch(s, 0, "JOIN"@, 0);
            lemma_tag_nc_mismatch(s, 0, "LEFT"@, 0);
            lemma_tag_nc_of_eq(s, 0, "RIGHT"@);
            lemma_tag_nc_of_eq(s, 6, "JOIN"@);
        },
        JoinOperator::InnerJoin => {
            lemma_tag_nc_mismatch(s, 0, "JOIN"@, 0);
            lemma_tag_nc_mismatch(s, 0, "LEFT"@, 0);
            lemma_tag_nc_mismatch(s, 0, "RIGHT"@, 0);
            lemma_tag_nc_of_eq(s, 0, "INNER"@);
            lemma_tag_nc_of_eq(s, 6, "JOIN"@);
        },
        JoinOperator::CrossJoin => {
            lemma_tag_nc_mismatch(s, 0, "JOIN"@, 0);
            lemma_tag_nc_mismatch(s, 0, "LEFT"@, 0);
            lemma_tag_nc_mismatch(s, 0, "RIGHT"@, 0);
            lemma_tag_nc_mismatch(s, 0, "INNER"@, 0);
            lemma_tag_nc_of_eq(s, 0, "CROSS"@);
            lemma_tag_nc_of_eq(s, 6, "JOIN"@);
        },
        JoinOperator::StraightJoin => {
            lemma_tag_nc_mismatch(s, 0, "JOIN"@, 0);
            lemma_tag_nc_mismatch(s, 0, "LEFT"@, 0);
            lemma_tag_nc_mismatch(s, 0, "RIGHT"@, 0);
            lemma_tag_nc_mismatch(s, 0, "INNER"@, 0);
            lemma_tag_nc_mismatch(s, 0, "CROSS"@, 0);
            lemma_tag_nc_of_eq(s, 0, "STRAIGHT_JOIN"@);
        },
    }
}


/// A two-word join operator is read from its words written in any case and
/// separated by any white space: `LEFT JOIN`, `RIGHT JOIN`, `INNER JOIN` and
/// `CROSS JOIN` each give the operator they name.
pub proof fn lemma_join_operator_two_words(w1: Seq<char>, b: Seq<char>, w2: Seq<char>)
    requires
        blanks(b),
        spelled(w2, "JOIN"@),
    ensures
        spelled(w1, "LEFT"@) ==> spec_join_operator(w1 + b + w2, 0) == Parsed::Done(
            (w1 + b + w2).len() as int,
            JoinOperator::LeftJoin,
        ),
        spelled(w1, "RIGHT"@) ==> spec_join_operator(w1 + b + w2, 0) == Parsed::Done(
            (w1 + b + w2).len() as int,
            JoinOperator::RightJoin,
        ),
        spelled(w1, "INNER"@) ==> spec_join_operator(w1 + b + w2, 0) == Parsed::Done(
            (w1 + b + w2).len() as int,
            JoinOperator::InnerJoin,
        ),
        spelled(w1, "CROSS"@) ==> spec_join_operator(w1 + b + w2, 0) == Parsed::Done(
            (w1 + b + w2).len() as int,
            JoinOperator::CrossJoin,
        ),
{
    reveal_strlit("JOIN");
    reveal_strlit("LEFT");
    reveal_strlit("RIGHT");
    reveal_strlit("INNER");
    reveal_strlit("CROSS");
    let s = w1 + b + w2;
    let a = w1.len() as int;
    let c = a + b.len();
    assert(s.subrange(0, a) =~= w1);
    assert(s.subrange(a, c) =~= b);
    assert(s.subrange(c, s.len() as int) =~= w2);
    assert(eq_no_case(w2[0], "JOIN"@[0]));
    assert(s[c] == w2[0]);
    lemma_blanks_end(s, a, b);
    lemma_spelled_tag(s, c, w2, "JOIN"@);
    if w1.len() > 0 {
        assert(s[0] == w1[0]);
    }
    if spelled(w1, "LEFT"@) {
        assert(eq_no_case(w1[0], "LEFT"@[0]));
        lemma_tag_nc_mismatch(s, 0, "JOIN"@, 0);
        lemma_spelled_tag(s, 0, w1, "LEFT"@);
    }
    if spelled(w1, "RIGHT"@) {
        assert(eq_no_case(w1[0], "RIGHT"@[0]));
        lemma_tag_nc_mismatch(s, 0, "JOIN"@, 0);
        lemma_tag_nc_mismatch(s, 0, "LEFT"@, 0);
        lemma_spelled_tag(s, 0, w1, "RIGHT"@);
    }
    if spelled(w1, "INNER"@) {
        assert(eq_no_case(w1[0], "INNER"@[0]));
        lemma_tag_nc_mismatch(s, 0, "JOIN"@, 0);
        lemma_tag_nc_mismatch(s, 0, "LEFT"@, 0);
        lemma_tag_nc_mismatch(s, 0, "RIGHT"@, 0);
        lemma_spelled_tag(s, 0, w1, "INNER"@);
    }
    if spelled(w1, "CROSS"@) {
        assert(eq_no_case(w1[0], "CROSS"@[0]));
        lemma_tag_nc_mismatch(s, 0, "JOIN"@, 0);
        lemma_tag_nc_mismatch(s, 0, "LEFT"@, 0);
        lemma_tag_nc_mismatch(s, 0, "RIGHT"@, 0);
        lemma_tag_nc_mismatch(s, 0, "INNER"@, 0);
        lemma_spelled_tag(s, 0, w1, "CROSS"@);
    }
}

/// `LEFT OUTER JOIN`, in any case and with any white space between the
/// words, gives the left outer join.
pub proof fn lemma_left_outer_join_words(
    w1: Seq<char>,
    b1: Seq<char>,
    w2: Seq<char>,
    b2: Seq<char>,
    w3: Seq<char>,
)
    requires
        spelled(w1, "LEFT"@),
        blanks(b1),
        spelled(w2, "OUTER"@),
        blanks(b2),
        spelled(w3, "JOIN"@),
    ensures
        spec_join_operator(w1 + b1 + w2 + b2 + w3, 0) == Parsed::Done(
            (w1 + b1 + w2 + b2 + w3).len() as int,
            JoinOperator::LeftOuterJoin,
        ),
{
    reveal_strlit("JOIN");
    reveal_strlit("LEFT");
    reveal_strlit("OUTER");
    let s = w1 + b1 + w2 + b2 + w3;
    let a = 4int;
    let c = a + b1.len();
    let d = c + 5;
    let f = d + b2.len();
    assert(s.subrange(0, a) =~= w1);
    assert(s.subrange(a, c) =~= b1);
    assert(s.subrange(c, d) =~= w2);
    assert(s.subrange(d, f) =~= b2);
    assert(s.subrange(f, s.len() as int) =~= w3);
    assert(eq_no_case(w2[0], "OUTER"@[0]));
    assert(eq_no_case(w3[0], "JOIN"@[0]));
    assert(eq_no_case(w1[0], "LEFT"@[0]));
    assert(s[c] == w2[0] && s[f] == w3[0] && s[0] == w1[0]);
    lemma_blanks_end(s, a, b1);
    lemma_blanks_end(s, d, b2);
    lemma_spelled_tag(s, 0, w1, "LEFT"@);
    lemma_spelled_tag(s, c, w2, "OUTER"@);
    lemma_spelled_tag(s, f, w3, "JOIN"@);
    lemma_tag_nc_mismatch(s, 0, "JOIN"@, 0);
    lemma_tag_nc_mismatch(s, c, "JOIN"@, 0);
}

/// `JOIN` and `STRAIGHT_JOIN`, in any case, give the plain join and the
/// straight join.
pub proof fn lemma_join_operator_one_word(w: Seq<char>)
    ensures
        spelled(w, "JOIN"@) ==> spec_join_operator(w, 0) == Parsed::Done(4, JoinOperator::Join),
        spelled(w, "STRAIGHT_JOIN"@) ==> spec_join_operator(w, 0) == Parsed::Done(
            13,
            JoinOperator::StraightJoin,
        ),
{
    reveal_strlit("JOIN");
    reveal_strlit("LEFT");
    reveal_strlit("RIGHT");
    reveal_strlit("INNER");
    reveal_strlit("CROSS");
    reveal_strlit("STRAIGHT_JOIN");
    assert(w.subrange(0, w.len() as int) =~= w);
    if spelled(w, "JOIN"@) {
        lemma_spelled_tag(w, 0, w, "JOIN"@);
    }
    if spelled(w, "STRAIGHT_JOIN"@) {
        assert(eq_no_case(w[0], "STRAIGHT_JOIN"@[0]));
        lemma_tag_nc_mismatch(w, 0, "JOIN"@, 0);
        lemma_tag_nc_mismatch(w, 0, "LEFT"@, 0);
        lemma_tag_nc_mismatch(w, 0, "RIGHT"@, 0);
        lemma_tag_nc_mismatch(w, 0, "INNER"@, 0);
        lemma_tag_nc_mismatch(w, 0, "CROSS"@, 0);
        lemma_spelled_tag(w, 0, w, "STRAIGHT_JOIN"@);
    }
}

} // verus!
