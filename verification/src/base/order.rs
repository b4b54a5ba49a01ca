//! [ASC | DESC]
use vstd::prelude::*;

use crate::base::column::{column_without_alias_at, spec_column_without_alias, Column, ColumnView};
use crate::base::display_util::{escaped_name, DisplayUtil};
use crate::base::error::ParseSQLError;
use crate::base::literal::{opt_comma_end, opt_comma_end_at, prepend};
use crate::base::input::{
    agrees, alt, char_at, has_tag_nc, lemma_tag_nc_mismatch, lemma_tag_nc_of_eq, run_end, str_agrees, ws_end, Input, Parsed, eq_no_case, lemma_spelled_tag, spelled,
};

verus! {

/// [ASC | DESC]
#[derive(Clone, Copy, Debug, Eq, Hash, PartialEq, Structural)]
pub enum OrderType {
    Asc,
    Desc,
}

impl DeepView for OrderType {
    type V = OrderType;

    open spec fn deep_view(&self) -> OrderType {
        *self
    }
}

/// `{DESC | ASC}`, ignoring case, tried in this order.
pub open spec fn spec_order_type(s: Seq<char>, p: int) -> Parsed<OrderType> {
    if has_tag_nc(s, p, "DESC"@) {
        Parsed::Done(p + "DESC"@.len(), OrderType::Desc)
    } else if has_tag_nc(s, p, "ASC"@) {
        Parsed::Done(p + "ASC"@.len(), OrderType::Asc)
    } else {
        Parsed::NoMatch
    }
}

pub fn order_type_at(src: &Input, p: usize) -> (r: Option<(usize, OrderType)>)
    requires
        p <= src@.len(),
    ensures
        agrees(r, spec_order_type(src@, p as int)),
        r matches Some((q, _)) ==> p <= q <= src@.len(),
{
    if src.tag_nc(p, "DESC") {
        Some((p + "DESC".unicode_len(), OrderType::Desc))
    } else if src.tag_nc(p, "ASC") {
        Some((p + "ASC".unicode_len(), OrderType::Asc))
    } else {
        None
    }
}

/// The text `to_string` gives for each value.
pub open spec fn order_type_text(v: OrderType) -> Seq<char> {
    match v {
        OrderType::Asc => "ASC"@,
        OrderType::Desc => "DESC"@,
    }
}

impl OrderType {
    /// parse `{DESC | ASC}`
    pub fn parse(i: &str) -> (r: Result<(&str, OrderType), ParseSQLError>)
        ensures
            str_agrees(i@, r, spec_order_type(i@, 0)),
    {
        let src = Input::new(i);
        match order_type_at(&src, 0) {
            Some((q, v)) => Ok((src.rest(q), v)),
            None => Err(ParseSQLError::grammar(i)),
        }
    }

    /// The SQL text of the value.
    pub fn to_string(&self) -> (r: String)
        ensures
            r@ == order_type_text(*self),
    {
        match self {
            OrderType::Asc => "ASC".to_owned(),
            OrderType::Desc => "DESC".to_owned(),
        }
    }
}

/// Parsing the text of a value gives back that value and reads the whole text.
pub proof fn lemma_order_type_round_trip(v: OrderType)
    ensures
        spec_order_type(order_type_text(v), 0) == Parsed::Done(order_type_text(v).len() as int, v),
{
    reveal_strlit("ASC");
    reveal_strlit("DESC");
    let s = order_type_text(v);
    reveal_with_fuel(run_end, 3);
    match v {
        OrderType::Asc => {
            lemma_tag_nc_of_eq(s, 0, "ASC"@);
        },
        OrderType::Desc => {
            lemma_tag_nc_of_eq(s, 0, "DESC"@);
        },
    }
}


#[derive(Clone, Debug, Eq, Hash, PartialEq)]
pub struct OrderClause {
    pub columns: Vec<(Column, OrderType)>,
}

pub struct OrderClauseView {
    pub columns: Seq<(ColumnView, OrderType)>,
}

impl DeepView for OrderClause {
    type V = OrderClauseView;

    open spec fn deep_view(&self) -> OrderClauseView {
        OrderClauseView { columns: self.columns.deep_view() }
    }
}

/// `column [[ws] ASC | DESC] [ws , ws]`; without an order it is `ASC`.
pub open spec fn spec_order_expr(s: Seq<char>, p: int) -> Parsed<(ColumnView, OrderType)> {
    match spec_column_without_alias(s, p) {
        Parsed::Done(e, c) => match spec_order_type(s, ws_end(s, e)) {
            Parsed::Done(f, o) => Parsed::Done(opt_comma_end(s, f), (c, o)),
            _ => Parsed::Done(opt_comma_end(s, e), (c, OrderType::Asc)),
        },
        Parsed::NoMatch => Parsed::NoMatch,
        Parsed::Abort => Parsed::Abort,
    }
}

/// Ordering columns, as many as match.
pub open spec fn spec_order_list(s: Seq<char>, p: int) -> Parsed<Seq<(ColumnView, OrderType)>>
    decreases s.len() - p,
{
    match spec_order_expr(s, p) {
        Parsed::Done(e, x) => if p < e <= s.len() {
            prepend(seq![x], spec_order_list(s, e))
        } else {
            Parsed::NoMatch
        },
        Parsed::NoMatch => Parsed::Done(p, Seq::empty()),
        Parsed::Abort => Parsed::Abort,
    }
}

/// `[ws] ORDER ws BY ws columns`, keywords ignoring case.
pub open spec fn spec_order_clause(s: Seq<char>, p: int) -> Parsed<OrderClauseView> {
    let a = ws_end(s, p);
    let c = ws_end(s, a + "ORDER"@.len());
    let e = ws_end(s, c + "BY"@.len());
    if has_tag_nc(s, a, "ORDER"@) && c > a + "ORDER"@.len() && has_tag_nc(s, c, "BY"@) && e > c
        + "BY"@.len() {
        match spec_order_list(s, e) {
            Parsed::Done(f, cols) => Parsed::Done(f, OrderClauseView { columns: cols }),
            Parsed::NoMatch => Parsed::NoMatch,
            Parsed::Abort => Parsed::Abort,
        }
    } else {
        Parsed::NoMatch
    }
}

/// `name order` items separated by `, `, each name in back quotes when it
/// reads as a keyword.
pub open spec fn order_items_text(s: Seq<(ColumnView, OrderType)>) -> Seq<char>
    decreases s.len(),
{
    let item = |x: (ColumnView, OrderType)| escaped_name(x.0.name) + " "@ + order_type_text(x.1);
    if s.len() == 0 {
        Seq::empty()
    } else if s.len() == 1 {
        item(s[0])
    } else {
        order_items_text(s.drop_last()) + ", "@ + item(s.last())
    }
}

pub open spec fn order_clause_text(o: OrderClauseView) -> Seq<char> {
    "ORDER BY "@ + order_items_text(o.columns)
}

fn order_expr_at(src: &Input, p: usize) -> (r: Option<(usize, (Column, OrderType))>)
    requires
        p <= src@.len(),
        !(spec_order_expr(src@, p as int) is Abort),
    ensures
        agrees(r, spec_order_expr(src@, p as int)),
        r matches Some((e, _)) ==> p <= e <= src@.len(),
{
    let (e, c) = match column_without_alias_at(src, p) {
        Some(x) => x,
        None => return None,
    };
    match order_type_at(src, src.skip_ws(e)) {
        Some((f, o)) => Some((opt_comma_end_at(src, f), (c, o))),
        None => Some((opt_comma_end_at(src, e), (c, OrderType::Asc))),
    }
}

fn order_list_at(src: &Input, p: usize) -> (r: Option<(usize, Vec<(Column, OrderType)>)>)
    requires
        p <= src@.len(),
        !(spec_order_list(src@, p as int) is Abort),
    ensures
        agrees(r, spec_order_list(src@, p as int)),
        r matches Some((e, _)) ==> p <= e <= src@.len(),
{
    let mut acc: Vec<(Column, OrderType)> = Vec::new();
    let mut k = p;
    loop
        invariant
            p <= k <= src@.len(),
            spec_order_list(src@, p as int) == prepend(acc.deep_view(), spec_order_list(src@, k as int)),
            !(spec_order_list(src@, p as int) is Abort),
        decreases src@.len() - k,
    {
        match order_expr_at(src, k) {
            Some((e, x)) => {
                if e == k {
                    return None;
                }
                let ghost old_acc = acc.deep_view();
                acc.push(x);
                assert(acc.deep_view() =~= old_acc + seq![x.deep_view()]);
                proof {
                    match spec_order_list(src@, e as int) {
                        Parsed::Done(h, ys) => assert(old_acc + (seq![x.deep_view()] + ys)
                            =~= acc.deep_view() + ys),
                        _ => {},
                    }
                }
                k = e;
            },
            None => {
                assert(acc.deep_view() + Seq::<(ColumnView, OrderType)>::empty() =~= acc.deep_view());
                return Some((k, acc));
            },
        }
    }
}

impl OrderClause {
    /// `ORDER BY column [ASC | DESC], ...`
    pub fn parse(i: &str) -> (r: Result<(&str, OrderClause), ParseSQLError>)
        requires
            !(spec_order_clause(i@, 0) is Abort),
        ensures
            str_agrees(i@, r, spec_order_clause(i@, 0)),
    {
        let src = Input::new(i);
        let a = src.skip_ws(0);
        if !src.tag_nc(a, "ORDER") {
            return Err(ParseSQLError::grammar(i));
        }
        let c = src.skip_ws(a + "ORDER".unicode_len());
        if c == a + "ORDER".unicode_len() || !src.tag_nc(c, "BY") {
            return Err(ParseSQLError::grammar(i));
        }
        let e = src.skip_ws(c + "BY".unicode_len());
        if e == c + "BY".unicode_len() {
            return Err(ParseSQLError::grammar(i));
        }
        match order_list_at(&src, e) {
            Some((f, cols)) => Ok((src.rest(f), OrderClause { columns: cols })),
            None => Err(ParseSQLError::grammar(i)),
        }
    }

    /// `ORDER BY name order, ...`
    pub fn to_string(&self) -> (r: String)
        ensures
            r@ == order_clause_text(self.deep_view()),
    {
        let mut out = "ORDER BY ".to_owned();
        let n = self.columns.len();
        let mut k: usize = 0;
        let ghost cols = self.columns.deep_view();
        assert(cols.subrange(0, 0) =~= Seq::<(ColumnView, OrderType)>::empty());
        while k < n
            invariant
                k <= n,
                n == self.columns@.len(),
                cols == self.columns.deep_view(),
                out@ == "ORDER BY "@ + order_items_text(cols.subrange(0, k as int)),
            decreases n - k,
        {
            let ghost prev = cols.subrange(0, k as int);
            let ghost next = cols.subrange(0, k + 1);
            if k > 0 {
                out.append(", ");
            }
            let (c, o) = &self.columns[k];
            out.append(DisplayUtil::escape_if_keyword(c.name.as_str()).as_str());
            out.append(" ");
            out.append(o.to_string().as_str());
            proof {
                reveal_strlit(", ");
                assert(next.drop_last() =~= prev);
                assert(next.last() == self.columns@[k as int].deep_view());
            }
            assert(out@ =~= "ORDER BY "@ + order_items_text(next));
            k = k + 1;
        }
        assert(cols.subrange(0, n as int) =~= cols);
        out
    }
}


/// Each word of the rule, written in any case (`DESC`, `ASC`), is read as the
/// value it names, the whole word being read.
pub proof fn lemma_order_words(w: Seq<char>)
    ensures
        spelled(w, "DESC"@) ==> spec_order_type(w, 0) == Parsed::Done(w.len() as int, OrderType::Desc),
        spelled(w, "ASC"@) ==> spec_order_type(w, 0) == Parsed::Done(w.len() as int, OrderType::Asc),
{
    reveal_strlit("DESC");
    reveal_strlit("ASC");
    assert(w.subrange(0, w.len() as int) =~= w);
    if spelled(w, "DESC"@) {
        lemma_spelled_tag(w, 0, w, "DESC"@);
    }
    if spelled(w, "ASC"@) {
        assert(eq_no_case(w[0], "ASC"@[0]));
        lemma_tag_nc_mismatch(w, 0, "DESC"@, 0);
        lemma_spelled_tag(w, 0, w, "ASC"@);
    }
}

} // verus!
