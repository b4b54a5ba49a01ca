//! Key parts of an index: `({col_name [(length)] | (expr)} [ASC | DESC], ...)`.
use vstd::prelude::*;

use crate::base::common_parser::{spec_delim_digit, delim_digit_at, spec_sql_identifier, sql_identifier_at};
use crate::base::error::ParseSQLError;
use crate::base::input::{
    agrees, digits_value, is_digit, lemma_run_end_bounds, str_agrees, ws_end, char_at, Input, Parsed,
};
use crate::base::literal::{opt_comma_end, opt_comma_end_at, prepend};
use crate::base::order::{order_type_at, spec_order_type, OrderType};

verus! {

#[derive(Clone, Debug, Eq, Hash, PartialEq)]
pub struct KeyPart {
    pub key_part_type: KeyPartType,
    pub order: Option<OrderType>,
}

#[derive(Clone, Debug, Eq, Hash, PartialEq)]
pub enum KeyPartType {
    ColumnNameWithLength { col_name: String, length: Option<usize> },
    Expr { expr: String },
}

pub struct KeyPartView {
    pub key_part_type: KeyPartTypeView,
    pub order: Option<OrderType>,
}

pub enum KeyPartTypeView {
    ColumnNameWithLength { col_name: Seq<char>, length: Option<usize> },
    Expr { expr: Seq<char> },
}

impl DeepView for KeyPartType {
    type V = KeyPartTypeView;

    open spec fn deep_view(&self) -> KeyPartTypeView {
        match self {
            KeyPartType::ColumnNameWithLength { col_name, length } =>
                KeyPartTypeView::ColumnNameWithLength { col_name: col_name@, length: *length },
            KeyPartType::Expr { expr } => KeyPartTypeView::Expr { expr: expr@ },
        }
    }
}

impl DeepView for KeyPart {
    type V = KeyPartView;

    open spec fn deep_view(&self) -> KeyPartView {
        KeyPartView { key_part_type: self.key_part_type.deep_view(), order: self.order }
    }
}

/// Position of the `)` that closes the brackets open at `p`, `depth` of them
/// being open already; the end of the input where none does.
pub open spec fn closing_bracket(s: Seq<char>, p: int, depth: nat) -> int
    decreases s.len() - p,
{
    if p < 0 || p >= s.len() {
        s.len() as int
    } else if s[p] == ')' {
        if depth == 0 {
            p
        } else {
            closing_bracket(s, p + 1, (depth - 1) as nat)
        }
    } else if s[p] == '(' {
        closing_bracket(s, p + 1, depth + 1)
    } else {
        closing_bracket(s, p + 1, depth)
    }
}

/// `[ws] ( expr )`: a non-empty expression in brackets, which may hold
/// brackets of its own in pairs; the value is its text.
pub open spec fn spec_key_part_expr(s: Seq<char>, p: int) -> Parsed<KeyPartTypeView> {
    let a = ws_end(s, p);
    let e = closing_bracket(s, a + 1, 0);
    if char_at(s, a, '(') && a + 1 < e < s.len() {
        Parsed::Done(e + 1, KeyPartTypeView::Expr { expr: s.subrange(a + 1, e) })
    } else {
        Parsed::NoMatch
    }
}

/// `col_name [ws] [(digits)]`, else `[ws] (expr)`. A length above
/// `usize::MAX` aborts.
pub open spec fn spec_key_part_type(s: Seq<char>, p: int) -> Parsed<KeyPartTypeView> {
    match spec_sql_identifier(s, p) {
        Parsed::Done(e, (a, b)) => {
            let c = ws_end(s, e);
            match spec_delim_digit(s, c) {
                Parsed::Done(f, (x, y)) => if digits_value(s.subrange(x, y)) <= usize::MAX {
                    Parsed::Done(
                        f,
                        KeyPartTypeView::ColumnNameWithLength {
                            col_name: s.subrange(a, b),
                            length: Some(digits_value(s.subrange(x, y)) as usize),
                        },
                    )
                } else {
                    Parsed::Abort
                },
                _ => Parsed::Done(
                    c,
                    KeyPartTypeView::ColumnNameWithLength { col_name: s.subrange(a, b), length: None },
                ),
            }
        },
        _ => spec_key_part_expr(s, p),
    }
}

/// `type [ws order [ws]] [ws , ws]`
pub open spec fn spec_key_part_item(s: Seq<char>, p: int) -> Parsed<KeyPartView> {
    match spec_key_part_type(s, p) {
        Parsed::Done(e, t) => {
            let a = ws_end(s, e);
            match spec_order_type(s, a) {
                Parsed::Done(f, o) => if a > e {
                    Parsed::Done(
                        opt_comma_end(s, ws_end(s, f)),
                        KeyPartView { key_part_type: t, order: Some(o) },
                    )
                } else {
                    Parsed::Done(opt_comma_end(s, e), KeyPartView { key_part_type: t, order: None })
                },
                _ => Parsed::Done(opt_comma_end(s, e), KeyPartView { key_part_type: t, order: None }),
            }
        },
        Parsed::NoMatch => Parsed::NoMatch,
        Parsed::Abort => Parsed::Abort,
    }
}

/// Further key parts, as many as match.
pub open spec fn spec_key_part_tail(s: Seq<char>, p: int) -> Parsed<Seq<KeyPartView>>
    decreases s.len() - p,
{
    match spec_key_part_item(s, p) {
        Parsed::Done(e, k) => if p < e <= s.len() {
            prepend(seq![k], spec_key_part_tail(s, e))
        } else {
            Parsed::NoMatch
        },
        Parsed::NoMatch => Parsed::Done(p, Seq::empty()),
        Parsed::Abort => Parsed::Abort,
    }
}

/// `[ws] ( [ws] key_part {key_part} [ws] )`
pub open spec fn spec_key_parts(s: Seq<char>, p: int) -> Parsed<Seq<KeyPartView>> {
    let a = ws_end(s, p);
    if char_at(s, a, '(') {
        match spec_key_part_item(s, ws_end(s, a + 1)) {
            Parsed::Done(e, k) => match spec_key_part_tail(s, e) {
                Parsed::Done(f, ks) => if char_at(s, ws_end(s, f), ')') {
                    Parsed::Done(ws_end(s, f) + 1, seq![k] + ks)
                } else {
                    Parsed::NoMatch
                },
                Parsed::NoMatch => Parsed::NoMatch,
                Parsed::Abort => Parsed::Abort,
            },
            Parsed::NoMatch => Parsed::NoMatch,
            Parsed::Abort => Parsed::Abort,
        }
    } else {
        Parsed::NoMatch
    }
}

/// Executable form of [`closing_bracket`] with no bracket open yet.
fn closing_bracket_at(src: &Input, p: usize) -> (q: usize)
    requires
        p <= src@.len(),
    ensures
        q == closing_bracket(src@, p as int, 0),
        p <= q <= src@.len(),
{
    let mut q = p;
    let mut depth: usize = 0;
    while q < src.len()
        invariant
            p <= q <= src@.len(),
            depth <= q - p,
            closing_bracket(src@, q as int, depth as nat) == closing_bracket(src@, p as int, 0),
        decreases src@.len() - q,
    {
        let c = src.at(q);
        if c == ')' {
            if depth == 0 {
                return q;
            }
            depth = depth - 1;
        } else if c == '(' {
            depth = depth + 1;
        }
        q = q + 1;
    }
    q
}

fn key_part_expr_at(src: &Input, p: usize) -> (r: Option<(usize, KeyPartType)>)
    requires
        p <= src@.len(),
    ensures
        agrees(r, spec_key_part_expr(src@, p as int)),
        r matches Some((e, _)) ==> p < e <= src@.len(),
{
    let a = src.skip_ws(p);
    if !src.is_char(a, '(') {
        return None;
    }
    let e = closing_bracket_at(src, a + 1);
    if a + 1 < e && e < src.len() {
        Some((e + 1, KeyPartType::Expr { expr: src.string(a + 1, e) }))
    } else {
        None
    }
}

fn key_part_type_at(src: &Input, p: usize) -> (r: Option<(usize, KeyPartType)>)
    requires
        p <= src@.len(),
        !(spec_key_part_type(src@, p as int) is Abort),
    ensures
        agrees(r, spec_key_part_type(src@, p as int)),
        r matches Some((e, _)) ==> p < e <= src@.len(),
{
    let (e, sp) = match sql_identifier_at(src, p) {
        Some(x) => x,
        None => return key_part_expr_at(src, p),
    };
    let c = src.skip_ws(e);
    let col_name = src.string(sp.start, sp.end);
    match delim_digit_at(src, c) {
        Some((f, d)) => {
            proof {
                lemma_run_end_bounds(src@, c + 1, |x: char| is_digit(x));
            }
            match src.digits_upto(d.start, d.end, usize::MAX as u64) {
                Some(v) => Some(
                    (f, KeyPartType::ColumnNameWithLength { col_name, length: Some(v as usize) }),
                ),
                None => None,
            }
        },
        None => Some((c, KeyPartType::ColumnNameWithLength { col_name, length: None })),
    }
}

fn key_part_item_at(src: &Input, p: usize) -> (r: Option<(usize, KeyPart)>)
    requires
        p <= src@.len(),
        !(spec_key_part_item(src@, p as int) is Abort),
    ensures
        agrees(r, spec_key_part_item(src@, p as int)),
        r matches Some((e, _)) ==> p < e <= src@.len(),
{
    let (e, t) = match key_part_type_at(src, p) {
        Some(x) => x,
        None => return None,
    };
    let a = src.skip_ws(e);
    if a > e {
        if let Some((f, o)) = order_type_at(src, a) {
            return Some(
                (opt_comma_end_at(src, src.skip_ws(f)), KeyPart { key_part_type: t, order: Some(o) }),
            );
        }
    }
    Some((opt_comma_end_at(src, e), KeyPart { key_part_type: t, order: None }))
}

fn key_part_tail_at(src: &Input, p: usize) -> (r: Option<(usize, Vec<KeyPart>)>)
    requires
        p <= src@.len(),
        !(spec_key_part_tail(src@, p as int) is Abort),
    ensures
        agrees(r, spec_key_part_tail(src@, p as int)),
        r matches Some((e, _)) ==> p <= e <= src@.len(),
{
    let mut acc: Vec<KeyPart> = Vec::new();
    let mut k = p;
    loop
        invariant
            p <= k <= src@.len(),
            spec_key_part_tail(src@, p as int) == prepend(
                acc.deep_view(),
                spec_key_part_tail(src@, k as int),
            ),
            !(spec_key_part_tail(src@, p as int) is Abort),
        decreases src@.len() - k,
    {
        match key_part_item_at(src, k) {
            Some((e, x)) => {
                let ghost old_acc = acc.deep_view();
                acc.push(x);
                assert(acc.deep_view() =~= old_acc + seq![x.deep_view()]);
                proof {
                    match spec_key_part_tail(src@, e as int) {
                        Parsed::Done(h, ys) => assert(old_acc + (seq![x.deep_view()] + ys)
                            =~= acc.deep_view() + ys),
                        _ => {},
                    }
                }
                k = e;
            },
            None => {
                assert(acc.deep_view() + Seq::<KeyPartView>::empty() =~= acc.deep_view());
                return Some((k, acc));
            },
        }
    }
}

pub fn key_parts_at(src: &Input, p: usize) -> (r: Option<(usize, Vec<KeyPart>)>)
    requires
        p <= src@.len(),
        !(spec_key_parts(src@, p as int) is Abort),
    ensures
        agrees(r, spec_key_parts(src@, p as int)),
        r matches Some((e, _)) ==> p < e <= src@.len(),
{
    let a = src.skip_ws(p);
    if !src.is_char(a, '(') {
        return None;
    }
    let (e, k) = match key_part_item_at(src, src.skip_ws(a + 1)) {
        Some(x) => x,
        None => return None,
    };
    let (f, mut ks) = match key_part_tail_at(src, e) {
        Some(x) => x,
        None => return None,
    };
    let g = src.skip_ws(f);
    if !src.is_char(g, ')') {
        return None;
    }
    let ghost tail = ks.deep_view();
    ks.insert(0, k);
    assert(ks.deep_view() =~= seq![k.deep_view()] + tail);
    Some((g + 1, ks))
}

impl KeyPartType {
    /// `col_name [(length)] | (expr)`
    pub fn parse(i: &str) -> (r: Result<(&str, KeyPartType), ParseSQLError>)
        requires
            !(spec_key_part_type(i@, 0) is Abort),
        ensures
            str_agrees(i@, r, spec_key_part_type(i@, 0)),
    {
        let src = Input::new(i);
        match key_part_type_at(&src, 0) {
            Some((q, v)) => Ok((src.rest(q), v)),
            None => Err(ParseSQLError::grammar(i)),
        }
    }
}

impl KeyPart {
    /// `(key_part, ...)`
    pub fn parse(i: &str) -> (r: Result<(&str, Vec<KeyPart>), ParseSQLError>)
        requires
            !(spec_key_parts(i@, 0) is Abort),
        ensures
            str_agrees(i@, r, spec_key_parts(i@, 0)),
    {
        let src = Input::new(i);
        match key_parts_at(&src, 0) {
            Some((q, v)) => Ok((src.rest(q), v)),
            None => Err(ParseSQLError::grammar(i)),
        }
    }
}

} // verus!
