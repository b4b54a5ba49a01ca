//! Literal values: numbers, strings, `NULL`, current time values and placeholders.
use vstd::prelude::*;

use crate::base::common_parser::{as_alias_at, spec_as_alias, spec_ws_sep, ws_sep_at, Span};
use crate::base::display_util::{digit_char, hex_char};
use crate::base::display_util::{hex_text, int_text, nat_text, push_hex, push_int, push_nat};
use crate::base::error::ParseSQLError;
use crate::base::input::{
    agrees, alt, char_at, digits_end, digits_value, has_tag, has_tag_nc, is_digit,
    lemma_digits_value_push, lemma_run_end_bounds, lemma_run_end_stops, run_end, str_agrees, ws_end, Input, Parsed,
    eq_no_case, lemma_spelled_tag, lemma_tag_nc_mismatch, spelled,
};
use crate::base::item_placeholder::{item_placeholder_text, ItemPlaceholder};

verus! {

#[derive(Clone, Copy, Debug, Eq, Hash, PartialEq, Structural)]
pub struct Real {
    pub integral: i32,
    pub fractional: i32,
}

impl DeepView for Real {
    type V = Real;

    open spec fn deep_view(&self) -> Real {
        *self
    }
}

/// `integral.fractional`
pub open spec fn real_text(r: Real) -> Seq<char> {
    int_text(r.integral as int) + seq!['.'] + int_text(r.fractional as int)
}

impl Real {
    /// The text of the number.
    pub fn to_string(&self) -> (r: String)
        ensures
            r@ == real_text(*self),
    {
        let mut out = String::new();
        push_int(&mut out, self.integral as i64);
        out.append(".");
        proof {
            reveal_strlit(".");
        }
        push_int(&mut out, self.fractional as i64);
        assert(out@ =~= real_text(*self));
        out
    }
}

#[derive(Debug, Eq, Hash, PartialEq)]
pub enum Literal {
    Bool(bool),
    Null,
    Integer(i64),
    UnsignedInteger(u64),
    FixedPoint(Real),
    String(String),
    Blob(Vec<u8>),
    CurrentTime,
    CurrentDate,
    CurrentTimestamp,
    Placeholder(ItemPlaceholder),
}

/// A literal as a mathematical value.
pub enum LiteralView {
    Bool(bool),
    Null,
    Integer(i64),
    UnsignedInteger(u64),
    FixedPoint(Real),
    String(Seq<char>),
    Blob(Seq<u8>),
    CurrentTime,
    CurrentDate,
    CurrentTimestamp,
    Placeholder(ItemPlaceholder),
}

impl DeepView for Literal {
    type V = LiteralView;

    open spec fn deep_view(&self) -> LiteralView {
        match self {
            Literal::Bool(b) => LiteralView::Bool(*b),
            Literal::Null => LiteralView::Null,
            Literal::Integer(i) => LiteralView::Integer(*i),
            Literal::UnsignedInteger(u) => LiteralView::UnsignedInteger(*u),
            Literal::FixedPoint(r) => LiteralView::FixedPoint(*r),
            Literal::String(s) => LiteralView::String(s@),
            Literal::Blob(b) => LiteralView::Blob(b@),
            Literal::CurrentTime => LiteralView::CurrentTime,
            Literal::CurrentDate => LiteralView::CurrentDate,
            Literal::CurrentTimestamp => LiteralView::CurrentTimestamp,
            Literal::Placeholder(p) => LiteralView::Placeholder(*p),
        }
    }
}

/// Start of the digits after an optional `-` at `p`.
pub open spec fn after_minus(s: Seq<char>, p: int) -> int {
    if char_at(s, p, '-') {
        p + 1
    } else {
        p
    }
}

/// `[-]digits`; numbers above `i64::MAX` abort.
#[verifier::opaque]
pub open spec fn spec_integer_literal(s: Seq<char>, p: int) -> Parsed<LiteralView> {
    let a = after_minus(s, p);
    let e = digits_end(s, a);
    if e > a {
        let v = digits_value(s.subrange(a, e));
        if v <= i64::MAX {
            Parsed::Done(
                e,
                LiteralView::Integer(
                    if a > p {
                        (-v) as i64
                    } else {
                        v as i64
                    },
                ),
            )
        } else {
            Parsed::Abort
        }
    } else {
        Parsed::NoMatch
    }
}

/// `[-]digits.digits`; parts above `i32::MAX` abort.
pub open spec fn spec_float_literal(s: Seq<char>, p: int) -> Parsed<LiteralView> {
    let a = after_minus(s, p);
    let e1 = digits_end(s, a);
    let e2 = digits_end(s, e1 + 1);
    if e1 > a && char_at(s, e1, '.') && e2 > e1 + 1 {
        let i = digits_value(s.subrange(a, e1));
        let f = digits_value(s.subrange(e1 + 1, e2));
        if i <= i32::MAX && f <= i32::MAX {
            Parsed::Done(
                e2,
                LiteralView::FixedPoint(
                    Real {
                        integral: if a > p {
                            (-i) as i32
                        } else {
                            i as i32
                        },
                        fractional: f as i32,
                    },
                ),
            )
        } else {
            Parsed::Abort
        }
    } else {
        Parsed::NoMatch
    }
}

/// The value of text in the form `i32::from_str` accepts: an optional sign
/// and at least one digit, within the range of `i32`.
pub open spec fn i32_of_text(v: Seq<char>) -> Option<i32> {
    let neg = v.len() > 0 && v[0] == '-';
    let d = v.subrange(sign_len(v), v.len() as int);
    if d.len() > 0 && all_digits(d) {
        if neg && digits_value(d) <= 0x8000_0000 {
            Some((-digits_value(d)) as i32)
        } else if !neg && digits_value(d) <= i32::MAX {
            Some(digits_value(d) as i32)
        } else {
            None
        }
    } else {
        None
    }
}

/// Length of an optional leading sign.
pub open spec fn sign_len(v: Seq<char>) -> int {
    if v.len() > 0 && (v[0] == '-' || v[0] == '+') {
        1
    } else {
        0
    }
}

pub open spec fn all_digits(d: Seq<char>) -> bool {
    forall|j: int| 0 <= j < d.len() ==> is_digit(#[trigger] d[j])
}

/// End of the run, from `p`, of characters other than `\\` and `q`.
pub open spec fn plain_end(s: Seq<char>, p: int, q: char) -> int {
    run_end(s, p, |c: char| c != '\\' && c != q)
}

/// One step of a quoted string's body, with `q` the quote character: a run
/// of characters other than `\` and `q`; a doubled quote, standing for one
/// quote; or a backslash escape (`\\`, `\b` for DEL, `\r`, `\n`, `\t`, `\0`,
/// `\Z` for SUB, and otherwise the escaped character itself).
pub open spec fn string_piece(s: Seq<char>, p: int, q: char) -> Option<(int, Seq<char>)> {
    let r = plain_end(s, p, q);
    if 0 <= p < s.len() && r > p {
        Some((r, s.subrange(p, r)))
    } else if char_at(s, p, q) && char_at(s, p + 1, q) {
        Some((p + 2, seq![q]))
    } else if char_at(s, p, '\\') && p + 1 < s.len() {
        let c = s[p + 1];
        Some(
            (
                p + 2,
                if c == 'b' {
                    seq!['\x7F']
                } else if c == 'r' {
                    seq!['\r']
                } else if c == 'n' {
                    seq!['\n']
                } else if c == 't' {
                    seq!['\t']
                } else if c == '0' {
                    seq!['\0']
                } else if c == 'Z' {
                    seq!['\x1A']
                } else {
                    seq![c]
                },
            ),
        )
    } else {
        None
    }
}

/// The body of a quoted string: as many pieces as match, with the end and
/// the text they stand for.
pub open spec fn string_body(s: Seq<char>, p: int, q: char) -> (int, Seq<char>)
    decreases s.len() - p,
{
    match string_piece(s, p, q) {
        Some((e, t)) => if p < e <= s.len() {
            (string_body(s, e, q).0, t + string_body(s, e, q).1)
        } else {
            (p, Seq::empty())
        },
        None => (p, Seq::empty()),
    }
}

/// `q body q` where the body is [`string_body`].
pub open spec fn spec_raw_string_quoted(s: Seq<char>, p: int, q: char) -> Parsed<Seq<char>> {
    if char_at(s, p, q) && char_at(s, string_body(s, p + 1, q).0, q) {
        Parsed::Done(string_body(s, p + 1, q).0 + 1, string_body(s, p + 1, q).1)
    } else {
        Parsed::NoMatch
    }
}

/// A string in single or else double quotes.
pub open spec fn spec_string_literal(s: Seq<char>, p: int) -> Parsed<LiteralView> {
    match alt(spec_raw_string_quoted(s, p, '\''), spec_raw_string_quoted(s, p, '"')) {
        Parsed::Done(e, t) => Parsed::Done(e, LiteralView::String(t)),
        Parsed::NoMatch => Parsed::NoMatch,
        Parsed::Abort => Parsed::Abort,
    }
}

/// `c digits` as a placeholder number; numbers above `i32::MAX` abort.
pub open spec fn spec_placeholder_number(s: Seq<char>, p: int, c: char) -> Parsed<i32> {
    let e = digits_end(s, p + 1);
    if char_at(s, p, c) && e > p + 1 {
        if digits_value(s.subrange(p + 1, e)) <= i32::MAX {
            Parsed::Done(e, digits_value(s.subrange(p + 1, e)) as i32)
        } else {
            Parsed::Abort
        }
    } else {
        Parsed::NoMatch
    }
}

/// Any literal value, trying in order: a fixed point number, an integer, a
/// quoted string, `NULL`, `CURRENT_TIMESTAMP`, `CURRENT_DATE`, `CURRENT_TIME`
/// (ignoring case), `?`, `:digits`, `$digits`.
#[verifier::opaque]
pub open spec fn spec_literal(s: Seq<char>, p: int) -> Parsed<LiteralView> {
    alt(
        spec_float_literal(s, p),
        alt(
            spec_integer_literal(s, p),
            alt(
                spec_string_literal(s, p),
                if has_tag_nc(s, p, "NULL"@) {
                    Parsed::Done(p + "NULL"@.len(), LiteralView::Null)
                } else if has_tag_nc(s, p, "CURRENT_TIMESTAMP"@) {
                    Parsed::Done(p + "CURRENT_TIMESTAMP"@.len(), LiteralView::CurrentTimestamp)
                } else if has_tag_nc(s, p, "CURRENT_DATE"@) {
                    Parsed::Done(p + "CURRENT_DATE"@.len(), LiteralView::CurrentDate)
                } else if has_tag_nc(s, p, "CURRENT_TIME"@) {
                    Parsed::Done(p + "CURRENT_TIME"@.len(), LiteralView::CurrentTime)
                } else if char_at(s, p, '?') {
                    Parsed::Done(p + 1, LiteralView::Placeholder(ItemPlaceholder::QuestionMark))
                } else {
                    match spec_placeholder_number(s, p, ':') {
                        Parsed::Done(e, n) => Parsed::Done(
                            e,
                            LiteralView::Placeholder(ItemPlaceholder::ColonNumber(n)),
                        ),
                        Parsed::Abort => Parsed::Abort,
                        Parsed::NoMatch => match spec_placeholder_number(s, p, '$') {
                            Parsed::Done(e, n) => Parsed::Done(
                                e,
                                LiteralView::Placeholder(ItemPlaceholder::DollarNumber(n)),
                            ),
                            Parsed::Abort => Parsed::Abort,
                            Parsed::NoMatch => Parsed::NoMatch,
                        },
                    }
                },
            ),
        ),
    )
}

/// Prepends `xs` to the values of an outcome over sequences.
pub open spec fn prepend<T>(xs: Seq<T>, r: Parsed<Seq<T>>) -> Parsed<Seq<T>> {
    match r {
        Parsed::Done(e, ys) => Parsed::Done(e, xs + ys),
        Parsed::NoMatch => Parsed::NoMatch,
        Parsed::Abort => Parsed::Abort,
    }
}

/// End of an optional comma with white space around it.
pub open spec fn opt_comma_end(s: Seq<char>, e: int) -> int {
    match spec_ws_sep(s, e, ',') {
        Parsed::Done(g, _) => g,
        _ => e,
    }
}

/// A list of values: as many `[ws] literal [ws , ws]` as match.
pub open spec fn spec_value_list(s: Seq<char>, p: int) -> Parsed<Seq<LiteralView>>
    decreases s.len() - p,
{
    match spec_literal(s, ws_end(s, p)) {
        Parsed::Done(e, v) => {
            let f = opt_comma_end(s, e);
            if p < f <= s.len() {
                prepend(seq![v], spec_value_list(s, f))
            } else {
                Parsed::NoMatch
            }
        },
        Parsed::NoMatch => Parsed::Done(p, Seq::empty()),
        Parsed::Abort => Parsed::Abort,
    }
}

fn skip_plain(src: &Input, p: usize, q: char) -> (r: usize)
    requires
        p <= src@.len(),
    ensures
        r == plain_end(src@, p as int, q),
        p <= r <= src@.len(),
{
    let mut r = p;
    while r < src.len() && src.at(r) != '\\' && src.at(r) != q
        invariant
            p <= r <= src@.len(),
            plain_end(src@, r as int, q) == plain_end(src@, p as int, q),
        decreases src@.len() - r,
    {
        r = r + 1;
    }
    r
}

/// Appends the text of the body of a quoted string starting at `p`.
fn string_body_at(src: &Input, p: usize, q: char, out: &mut String) -> (e: usize)
    requires
        p <= src@.len(),
    ensures
        e == string_body(src@, p as int, q).0,
        final(out)@ == old(out)@ + string_body(src@, p as int, q).1,
        p <= e <= src@.len(),
{
    let n = src.len();
    let mut k = p;
    loop
        invariant
            p <= k <= n,
            n == src@.len(),
            string_body(src@, p as int, q).0 == string_body(src@, k as int, q).0,
            old(out)@ + string_body(src@, p as int, q).1 == out@ + string_body(src@, k as int, q).1,
        decreases n - k,
    {
        let ghost prev = out@;
        let r = skip_plain(src, k, q);
        if k < n && r > k {
            out.append(src.slice(k, r));
            assert(prev + string_body(src@, k as int, q).1 =~= out@ + string_body(src@, r as int, q).1);
            k = r;
        } else if src.is_char(k, q) && src.is_char(k + 1, q) {
            out.append(src.slice(k, k + 1));
            assert(src@.subrange(k as int, k + 1) =~= seq![q]);
            assert(prev + string_body(src@, k as int, q).1 =~= out@ + string_body(src@, k + 2, q).1);
            k = k + 2;
        } else if src.is_char(k, '\\') && n - k > 1 {
            let c = src.at(k + 1);
            proof {
                reveal_strlit("\x7F");
                reveal_strlit("\r");
                reveal_strlit("\n");
                reveal_strlit("\t");
                reveal_strlit("\0");
                reveal_strlit("\x1A");
            }
            if c == 'b' {
                out.append("\x7F");
            } else if c == 'r' {
                out.append("\r");
            } else if c == 'n' {
                out.append("\n");
            } else if c == 't' {
                out.append("\t");
            } else if c == '0' {
                out.append("\0");
            } else if c == 'Z' {
                out.append("\x1A");
            } else {
                out.append(src.slice(k + 1, k + 2));
                assert(src@.subrange(k + 1, k + 2) =~= seq![c]);
            }
            let ghost pr = string_piece(src@, k as int, q)->0;
            let ghost t = pr.1;
            assert(out@ =~= prev + t);
            assert(prev + string_body(src@, k as int, q).1 =~= out@ + string_body(src@, k + 2, q).1);
            k = k + 2;
        } else {
            assert(string_piece(src@, k as int, q) is None);
            assert(out@ + string_body(src@, k as int, q).1 =~= out@);
            return k;
        }
    }
}

fn raw_string_quoted_at(src: &Input, p: usize, q: char) -> (r: Option<(usize, String)>)
    requires
        p <= src@.len(),
    ensures
        agrees(r, spec_raw_string_quoted(src@, p as int, q)),
        r matches Some((e, _)) ==> p < e <= src@.len(),
{
    if !src.is_char(p, q) {
        return None;
    }
    let mut out = String::new();
    let e = string_body_at(src, p + 1, q, &mut out);
    assert(out@ =~= string_body(src@, p + 1, q).1);
    if src.is_char(e, q) {
        Some((e + 1, out))
    } else {
        None
    }
}

pub fn string_literal_at(src: &Input, p: usize) -> (r: Option<(usize, Literal)>)
    requires
        p <= src@.len(),
    ensures
        agrees(r, spec_string_literal(src@, p as int)),
        r matches Some((e, _)) ==> p < e <= src@.len(),
{
    match raw_string_quoted_at(src, p, '\'') {
        Some((e, t)) => Some((e, Literal::String(t))),
        None => match raw_string_quoted_at(src, p, '"') {
            Some((e, t)) => Some((e, Literal::String(t))),
            None => None,
        },
    }
}

pub fn integer_literal_at(src: &Input, p: usize) -> (r: Option<(usize, Literal)>)
    requires
        p <= src@.len(),
        !(spec_integer_literal(src@, p as int) is Abort),
    ensures
        agrees(r, spec_integer_literal(src@, p as int)),
        r matches Some((e, _)) ==> p < e <= src@.len(),
{
    proof {
        reveal(spec_integer_literal);
    }
    let a = if src.is_char(p, '-') {
        p + 1
    } else {
        p
    };
    let e = src.skip_digits(a);
    if e == a {
        return None;
    }
    proof {
        lemma_run_end_bounds(src@, a as int, |c: char| is_digit(c));
    }
    match src.digits_upto(a, e, 0x7fff_ffff_ffff_ffff) {
        Some(v) => {
            let i = v as i64;
            Some((
                e,
                Literal::Integer(
                    if a > p {
                        -i
                    } else {
                        i
                    },
                ),
            ))
        },
        None => None,
    }
}

pub fn float_literal_at(src: &Input, p: usize) -> (r: Option<(usize, Literal)>)
    requires
        p <= src@.len(),
        !(spec_float_literal(src@, p as int) is Abort),
    ensures
        agrees(r, spec_float_literal(src@, p as int)),
        r matches Some((e, _)) ==> p < e <= src@.len(),
{
    let a = if src.is_char(p, '-') {
        p + 1
    } else {
        p
    };
    let e1 = src.skip_digits(a);
    if e1 == a || !src.is_char(e1, '.') {
        return None;
    }
    let e2 = src.skip_digits(e1 + 1);
    if e2 == e1 + 1 {
        return None;
    }
    proof {
        lemma_run_end_bounds(src@, a as int, |c: char| is_digit(c));
        lemma_run_end_bounds(src@, e1 + 1, |c: char| is_digit(c));
    }
    let i = match src.digits_upto(a, e1, 0x7fff_ffff) {
        Some(v) => v as i32,
        None => return None,
    };
    let f = match src.digits_upto(e1 + 1, e2, 0x7fff_ffff) {
        Some(v) => v as i32,
        None => return None,
    };
    Some((
        e2,
        Literal::FixedPoint(
            Real {
                integral: if a > p {
                    -i
                } else {
                    i
                },
                fractional: f,
            },
        ),
    ))
}

fn placeholder_number_at(src: &Input, p: usize, c: char) -> (r: Option<(usize, i32)>)
    requires
        p <= src@.len(),
        !(spec_placeholder_number(src@, p as int, c) is Abort),
    ensures
        agrees(r, spec_placeholder_number(src@, p as int, c)),
        r matches Some((e, _)) ==> p < e <= src@.len(),
{
    if !src.is_char(p, c) {
        return None;
    }
    let e = src.skip_digits(p + 1);
    if e == p + 1 {
        return None;
    }
    proof {
        lemma_run_end_bounds(src@, p + 1, |c: char| is_digit(c));
    }
    match src.digits_upto(p + 1, e, 0x7fff_ffff) {
        Some(v) => Some((e, v as i32)),
        None => None,
    }
}

pub fn literal_at(src: &Input, p: usize) -> (r: Option<(usize, Literal)>)
    requires
        p <= src@.len(),
        !(spec_literal(src@, p as int) is Abort),
    ensures
        agrees(r, spec_literal(src@, p as int)),
        r matches Some((e, _)) ==> p < e <= src@.len(),
{
    proof {
        reveal(spec_literal);
    }
    if let Some(x) = float_literal_at(src, p) {
        return Some(x);
    }
    if let Some(x) = integer_literal_at(src, p) {
        return Some(x);
    }
    if let Some(x) = string_literal_at(src, p) {
        return Some(x);
    }
    proof {
        reveal_strlit("NULL");
        reveal_strlit("CURRENT_TIMESTAMP");
        reveal_strlit("CURRENT_DATE");
        reveal_strlit("CURRENT_TIME");
    }
    if src.tag_nc(p, "NULL") {
        Some((p + 4, Literal::Null))
    } else if src.tag_nc(p, "CURRENT_TIMESTAMP") {
        Some((p + 17, Literal::CurrentTimestamp))
    } else if src.tag_nc(p, "CURRENT_DATE") {
        Some((p + 12, Literal::CurrentDate))
    } else if src.tag_nc(p, "CURRENT_TIME") {
        Some((p + 12, Literal::CurrentTime))
    } else if src.is_char(p, '?') {
        Some((p + 1, Literal::Placeholder(ItemPlaceholder::QuestionMark)))
    } else if let Some((e, n)) = placeholder_number_at(src, p, ':') {
        Some((e, Literal::Placeholder(ItemPlaceholder::ColonNumber(n))))
    } else if let Some((e, n)) = placeholder_number_at(src, p, '$') {
        Some((e, Literal::Placeholder(ItemPlaceholder::DollarNumber(n))))
    } else {
        None
    }
}

pub fn opt_comma_end_at(src: &Input, e: usize) -> (r: usize)
    requires
        e <= src@.len(),
    ensures
        r == opt_comma_end(src@, e as int),
        e <= r <= src@.len(),
{
    match ws_sep_at(src, e, ',') {
        Some((g, _)) => g,
        None => e,
    }
}

pub fn value_list_at(src: &Input, p: usize) -> (r: Option<(usize, Vec<Literal>)>)
    requires
        p <= src@.len(),
        !(spec_value_list(src@, p as int) is Abort),
    ensures
        agrees(r, spec_value_list(src@, p as int)),
        r matches Some((e, _)) ==> p <= e <= src@.len(),
{
    let mut acc: Vec<Literal> = Vec::new();
    let mut k = p;
    loop
        invariant
            p <= k <= src@.len(),
            spec_value_list(src@, p as int) == prepend(acc.deep_view(), spec_value_list(src@, k as int)),
            !(spec_value_list(src@, p as int) is Abort),
        decreases src@.len() - k,
    {
        let a = src.skip_ws(k);
        match literal_at(src, a) {
            Some((e, v)) => {
                let f = opt_comma_end_at(src, e);
                let ghost old_acc = acc.deep_view();
                acc.push(v);
                assert(acc.deep_view() =~= old_acc + seq![v.deep_view()]);
                proof {
                    let tail = spec_value_list(src@, f as int);
                    match tail {
                        Parsed::Done(h, ys) => assert(old_acc + (seq![v.deep_view()] + ys) =~= acc.deep_view() + ys),
                        _ => {},
                    }
                }
                k = f;
            },
            None => {
                assert(acc.deep_view() + Seq::<LiteralView>::empty() =~= acc.deep_view());
                return Some((k, acc));
            },
        }
    }
}

/// The text with every `'` doubled.
pub open spec fn quote_doubled(t: Seq<char>) -> Seq<char>
    decreases t.len(),
{
    if t.len() == 0 {
        Seq::empty()
    } else {
        quote_doubled(t.drop_last()) + if t.last() == '\'' {
            seq!['\'', '\'']
        } else {
            seq![t.last()]
        }
    }
}

/// Bytes in lower-case hexadecimal, separated by single spaces.
pub open spec fn blob_text(b: Seq<u8>) -> Seq<char>
    decreases b.len(),
{
    if b.len() == 0 {
        Seq::empty()
    } else if b.len() == 1 {
        hex_text(b[0] as nat)
    } else {
        blob_text(b.drop_last()) + seq![' '] + hex_text(b.last() as nat)
    }
}

/// The SQL text of a literal.
pub open spec fn literal_text(l: LiteralView) -> Seq<char> {
    match l {
        LiteralView::Null => "NULL"@,
        LiteralView::Bool(b) => if b {
            "TRUE"@
        } else {
            "FALSE"@
        },
        LiteralView::Integer(i) => int_text(i as int),
        LiteralView::UnsignedInteger(u) => nat_text(u as nat),
        LiteralView::FixedPoint(r) => real_text(r),
        LiteralView::String(t) => seq!['\''] + quote_doubled(t) + seq!['\''],
        LiteralView::Blob(b) => blob_text(b),
        LiteralView::CurrentTime => "CURRENT_TIME"@,
        LiteralView::CurrentDate => "CURRENT_DATE"@,
        LiteralView::CurrentTimestamp => "CURRENT_TIMESTAMP"@,
        LiteralView::Placeholder(p) => item_placeholder_text(p),
    }
}

/// Appends `t` with every `'` doubled.
fn push_quote_doubled(out: &mut String, t: &str)
    ensures
        final(out)@ == old(out)@ + quote_doubled(t@),
{
    let src = Input::new(t);
    let n = src.len();
    let mut k: usize = 0;
    while k < n
        invariant
            k <= n,
            n == t@.len(),
            src@ == t@,
            out@ == old(out)@ + quote_doubled(t@.subrange(0, k as int)),
        decreases n - k,
    {
        let ghost prev = out@;
        if src.at(k) == '\'' {
            out.append("''");
            proof {
                reveal_strlit("''");
            }
        } else {
            out.append(src.slice(k, k + 1));
        }
        assert(t@.subrange(0, k + 1).drop_last() =~= t@.subrange(0, k as int));
        assert(src@.subrange(k as int, k + 1) =~= seq![t@[k as int]]);
        assert(out@ =~= old(out)@ + quote_doubled(t@.subrange(0, k + 1)));
        k = k + 1;
    }
    assert(t@.subrange(0, n as int) =~= t@);
}

fn push_blob(out: &mut String, b: &Vec<u8>)
    ensures
        final(out)@ == old(out)@ + blob_text(b@),
{
    let n = b.len();
    let mut k: usize = 0;
    assert(b@.subrange(0, 0) =~= Seq::<u8>::empty());
    while k < n
        invariant
            k <= n,
            n == b@.len(),
            out@ == old(out)@ + blob_text(b@.subrange(0, k as int)),
        decreases n - k,
    {
        let ghost prev = out@;
        if k > 0 {
            out.append(" ");
            proof {
                reveal_strlit(" ");
            }
        }
        push_hex(out, b[k] as u64);
        assert(b@.subrange(0, k + 1).drop_last() =~= b@.subrange(0, k as int));
        assert(out@ =~= old(out)@ + blob_text(b@.subrange(0, k + 1)));
        k = k + 1;
    }
    assert(b@.subrange(0, n as int) =~= b@);
}

impl Literal {
    /// Appends the SQL text of the literal.
    pub fn push_text(&self, out: &mut String)
        ensures
            final(out)@ == old(out)@ + literal_text(self.deep_view()),
    {
        match self {
            Literal::Null => out.append("NULL"),
            Literal::Bool(b) => if *b {
                out.append("TRUE")
            } else {
                out.append("FALSE")
            },
            Literal::Integer(i) => push_int(out, *i),
            Literal::UnsignedInteger(u) => push_nat(out, *u),
            Literal::FixedPoint(r) => {
                push_int(out, r.integral as i64);
                out.append(".");
                proof {
                    reveal_strlit(".");
                }
                push_int(out, r.fractional as i64);
            },
            Literal::String(t) => {
                out.append("'");
                push_quote_doubled(out, t.as_str());
                out.append("'");
                proof {
                    reveal_strlit("'");
                }
            },
            Literal::Blob(b) => push_blob(out, b),
            Literal::CurrentTime => out.append("CURRENT_TIME"),
            Literal::CurrentDate => out.append("CURRENT_DATE"),
            Literal::CurrentTimestamp => out.append("CURRENT_TIMESTAMP"),
            Literal::Placeholder(p) => p.push_text(out),
        }
        assert(final(out)@ =~= old(out)@ + literal_text(self.deep_view()));
    }

    /// The SQL text of the literal.
    pub fn to_string(&self) -> (r: String)
        ensures
            r@ == literal_text(self.deep_view()),
    {
        let mut out = String::new();
        self.push_text(&mut out);
        assert(out@ =~= literal_text(self.deep_view()));
        out
    }

    /// Integer literal value: `[-]digits`.
    pub fn integer_literal(i: &str) -> (r: Result<(&str, Literal), ParseSQLError>)
        requires
            !(spec_integer_literal(i@, 0) is Abort),
        ensures
            str_agrees(i@, r, spec_integer_literal(i@, 0)),
    {
        let src = Input::new(i);
        match integer_literal_at(&src, 0) {
            Some((q, v)) => Ok((src.rest(q), v)),
            None => Err(ParseSQLError::grammar(i)),
        }
    }

    /// The value of a decimal `i32` text; the text must denote an `i32`.
    pub fn unpack(v: &str) -> (r: i32)
        requires
            i32_of_text(v@) is Some,
        ensures
            i32_of_text(v@) == Some(r),
    {
        let src = Input::new(v);
        let n = src.len();
        let neg = n > 0 && src.at(0) == '-';
        let a: usize = if n > 0 && (src.at(0) == '-' || src.at(0) == '+') {
            1
        } else {
            0
        };
        proof {
            assert(sign_len(v@) == a);
            let d = v@.subrange(a as int, v@.len() as int);
            assert(all_digits(d));
            assert forall|j: int| a <= j < n implies crate::base::input::is_digit(#[trigger] src@[j]) by {
                assert(d[j - a] == src@[j]);
            }
            assert(src@.subrange(a as int, n as int) =~= d);
        }
        if neg {
            match src.digits_upto(a, n, 0x8000_0000) {
                Some(d) => {
                    let r = (-(d as i64)) as i32;
                    r
                },
                None => 0,
            }
        } else {
            match src.digits_upto(a, n, 0x7fff_ffff) {
                Some(d) => d as i32,
                None => 0,
            }
        }
    }

    /// Fixed point literal value: `[-]digits.digits`.
    pub fn float_literal(i: &str) -> (r: Result<(&str, Literal), ParseSQLError>)
        requires
            !(spec_float_literal(i@, 0) is Abort),
        ensures
            str_agrees(i@, r, spec_float_literal(i@, 0)),
    {
        let src = Input::new(i);
        match float_literal_at(&src, 0) {
            Some((q, v)) => Ok((src.rest(q), v)),
            None => Err(ParseSQLError::grammar(i)),
        }
    }

    /// String literal value, in single or double quotes, with escapes.
    pub fn string_literal(i: &str) -> (r: Result<(&str, Literal), ParseSQLError>)
        ensures
            str_agrees(i@, r, spec_string_literal(i@, 0)),
    {
        let src = Input::new(i);
        match string_literal_at(&src, 0) {
            Some((q, v)) => Ok((src.rest(q), v)),
            None => Err(ParseSQLError::grammar(i)),
        }
    }

    /// Any literal value.
    pub fn parse(i: &str) -> (r: Result<(&str, Literal), ParseSQLError>)
        requires
            !(spec_literal(i@, 0) is Abort),
        ensures
            str_agrees(i@, r, spec_literal(i@, 0)),
    {
        let src = Input::new(i);
        match literal_at(&src, 0) {
            Some((q, v)) => Ok((src.rest(q), v)),
            None => Err(ParseSQLError::grammar(i)),
        }
    }

    /// A list of values (e.g., for INSERT syntax).
    pub fn value_list(i: &str) -> (r: Result<(&str, Vec<Literal>), ParseSQLError>)
        requires
            !(spec_value_list(i@, 0) is Abort),
        ensures
            str_agrees(i@, r, spec_value_list(i@, 0)),
    {
        let src = Input::new(i);
        match value_list_at(&src, 0) {
            Some((q, v)) => Ok((src.rest(q), v)),
            None => Err(ParseSQLError::grammar(i)),
        }
    }
}

impl From<i64> for Literal {
    fn from(i: i64) -> (r: Self) {
        Literal::Integer(i)
    }
}

impl vstd::std_specs::convert::FromSpecImpl<i64> for Literal {
    open spec fn obeys_from_spec() -> bool {
        true
    }

    open spec fn from_spec(i: i64) -> Literal {
        Literal::Integer(i)
    }
}

impl From<u64> for Literal {
    fn from(i: u64) -> (r: Self) {
        Literal::UnsignedInteger(i)
    }
}

impl vstd::std_specs::convert::FromSpecImpl<u64> for Literal {
    open spec fn obeys_from_spec() -> bool {
        true
    }

    open spec fn from_spec(i: u64) -> Literal {
        Literal::UnsignedInteger(i)
    }
}

impl From<i32> for Literal {
    fn from(i: i32) -> (r: Self) {
        Literal::Integer(i as i64)
    }
}

impl vstd::std_specs::convert::FromSpecImpl<i32> for Literal {
    open spec fn obeys_from_spec() -> bool {
        true
    }

    open spec fn from_spec(i: i32) -> Literal {
        Literal::Integer(i as i64)
    }
}

impl From<u32> for Literal {
    fn from(i: u32) -> (r: Self) {
        Literal::UnsignedInteger(i as u64)
    }
}

impl vstd::std_specs::convert::FromSpecImpl<u32> for Literal {
    open spec fn obeys_from_spec() -> bool {
        true
    }

    open spec fn from_spec(i: u32) -> Literal {
        Literal::UnsignedInteger(i as u64)
    }
}

impl From<String> for Literal {
    fn from(s: String) -> (r: Self) {
        Literal::String(s)
    }
}

impl vstd::std_specs::convert::FromSpecImpl<String> for Literal {
    open spec fn obeys_from_spec() -> bool {
        true
    }

    open spec fn from_spec(s: String) -> Literal {
        Literal::String(s)
    }
}

impl<'a> From<&'a str> for Literal {
    fn from(s: &str) -> Literal {
        Literal::from_text(s)
    }
}

impl<'a> vstd::std_specs::convert::FromSpecImpl<&'a str> for Literal {
    open spec fn obeys_from_spec() -> bool {
        false
    }

    open spec fn from_spec(s: &'a str) -> Literal {
        vstd::pervasive::arbitrary()
    }
}

impl Literal {
    /// A string literal holding a copy of `s`.
    pub fn from_text(s: &str) -> (r: Literal)
        ensures
            r.deep_view() == LiteralView::String(s@),
    {
        Literal::String(s.to_owned())
    }
}

#[derive(Clone, Debug, Eq, Hash, PartialEq)]
pub struct LiteralExpression {
    pub value: Literal,
    pub alias: Option<String>,
}

pub struct LiteralExpressionView {
    pub value: LiteralView,
    pub alias: Option<Seq<char>>,
}

impl DeepView for LiteralExpression {
    type V = LiteralExpressionView;

    open spec fn deep_view(&self) -> LiteralExpressionView {
        LiteralExpressionView { value: self.value.deep_view(), alias: self.alias.deep_view() }
    }
}

/// A literal, or a literal in parentheses when the bare literal does not match.
pub open spec fn spec_opt_delimited_literal(s: Seq<char>, p: int) -> Parsed<LiteralView> {
    match spec_literal(s, p) {
        Parsed::NoMatch => if char_at(s, p, '(') {
            match spec_literal(s, p + 1) {
                Parsed::Done(e, v) => if char_at(s, e, ')') {
                    Parsed::Done(e + 1, v)
                } else {
                    Parsed::NoMatch
                },
                other => other,
            }
        } else {
            Parsed::NoMatch
        },
        other => other,
    }
}

/// `literal [[AS] alias]`, the literal optionally in parentheses.
pub open spec fn spec_literal_expression(s: Seq<char>, p: int) -> Parsed<LiteralExpressionView> {
    match spec_opt_delimited_literal(s, p) {
        Parsed::Done(e, v) => match spec_as_alias(s, e) {
            Parsed::Done(f, (a, b)) => Parsed::Done(
                f,
                LiteralExpressionView { value: v, alias: Some(s.subrange(a, b)) },
            ),
            _ => Parsed::Done(e, LiteralExpressionView { value: v, alias: None }),
        },
        Parsed::NoMatch => Parsed::NoMatch,
        Parsed::Abort => Parsed::Abort,
    }
}

pub fn literal_expression_at(src: &Input, p: usize) -> (r: Option<(usize, LiteralExpression)>)
    requires
        p <= src@.len(),
        !(spec_literal_expression(src@, p as int) is Abort),
    ensures
        agrees(r, spec_literal_expression(src@, p as int)),
        r matches Some((e, _)) ==> p < e <= src@.len(),
{
    let first = match literal_at(src, p) {
        Some(x) => Some(x),
        None => if src.is_char(p, '(') {
            match literal_at(src, p + 1) {
                Some((e, v)) => if src.is_char(e, ')') {
                    Some((e + 1, v))
                } else {
                    None
                },
                None => None,
            }
        } else {
            None
        },
    };
    match first {
        Some((e, v)) => match as_alias_at(src, e) {
            Some((f, sp)) => Some(
                (f, LiteralExpression { value: v, alias: Some(src.string(sp.start, sp.end)) }),
            ),
            None => Some((e, LiteralExpression { value: v, alias: None })),
        },
        None => None,
    }
}

/// `literal` or `literal AS alias`.
pub open spec fn literal_expression_text(l: LiteralExpressionView) -> Seq<char> {
    match l.alias {
        Some(a) => literal_text(l.value) + " AS "@ + a,
        None => literal_text(l.value),
    }
}

impl LiteralExpression {
    /// `literal [[AS] alias]`, the literal optionally in parentheses.
    pub fn parse(i: &str) -> (r: Result<(&str, LiteralExpression), ParseSQLError>)
        requires
            !(spec_literal_expression(i@, 0) is Abort),
        ensures
            str_agrees(i@, r, spec_literal_expression(i@, 0)),
    {
        let src = Input::new(i);
        match literal_expression_at(&src, 0) {
            Some((q, v)) => Ok((src.rest(q), v)),
            None => Err(ParseSQLError::grammar(i)),
        }
    }

    /// The SQL text of the expression.
    pub fn to_string(&self) -> (r: String)
        ensures
            r@ == literal_expression_text(self.deep_view()),
    {
        let mut out = self.value.to_string();
        match &self.alias {
            Some(a) => {
                out.append(" AS ");
                out.append(a.as_str());
            },
            None => {},
        }
        out
    }
}

impl From<Literal> for LiteralExpression {
    fn from(l: Literal) -> (r: Self) {
        LiteralExpression { value: l, alias: None }
    }
}

impl vstd::std_specs::convert::FromSpecImpl<Literal> for LiteralExpression {
    open spec fn obeys_from_spec() -> bool {
        true
    }

    open spec fn from_spec(l: Literal) -> LiteralExpression {
        LiteralExpression { value: l, alias: None }
    }
}

/// A decimal digit is a digit character with the digit's value.
proof fn lemma_digit_char(d: nat)
    requires
        d < 10,
    ensures
        is_digit(digit_char(d)),
        digit_char(d) as u32 - '0' as u32 == d,
{
}

/// The decimal text of `n` is a non-empty run of digits that reads back as `n`.
pub proof fn lemma_nat_text_digits(n: nat)
    ensures
        nat_text(n).len() >= 1,
        forall|j: int| 0 <= j < nat_text(n).len() ==> is_digit(#[trigger] nat_text(n)[j]),
        digits_value(nat_text(n)) == n,
    decreases n,
{
    if n < 10 {
        lemma_digit_char(n);
        lemma_digits_value_push(Seq::<char>::empty(), digit_char(n));
        assert(Seq::<char>::empty().push(digit_char(n)) =~= nat_text(n));
    } else {
        lemma_nat_text_digits(n / 10);
        lemma_digit_char(n % 10);
        lemma_digits_value_push(nat_text(n / 10), digit_char(n % 10));
    }
}

/// The text of an integer literal reads back as that literal, the whole text
/// being read; `i64::MIN` is left out, as the magnitude of its text does not
/// fit in an `i64`.
pub proof fn lemma_integer_literal_round_trip(n: i64)
    requires
        n != i64::MIN,
    ensures
        spec_literal(literal_text(LiteralView::Integer(n)), 0) == Parsed::Done(
            literal_text(LiteralView::Integer(n)).len() as int,
            LiteralView::Integer(n),
        ),
{
    reveal(spec_literal);
    reveal(spec_integer_literal);
    let s = literal_text(LiteralView::Integer(n));
    let m: nat = if n < 0 {
        (-n) as nat
    } else {
        n as nat
    };
    lemma_nat_text_digits(m);
    let a: int = if n < 0 {
        1
    } else {
        0
    };
    assert(s.subrange(a, s.len() as int) =~= nat_text(m));
    assert forall|j: int| a <= j < s.len() implies is_digit(#[trigger] s[j]) by {
        assert(s[j] == nat_text(m)[j - a]);
    }
    lemma_run_end_stops(s, a, s.len() as int, |c: char| is_digit(c));
    assert(after_minus(s, 0) == a) by {
        if n >= 0 {
            assert(is_digit(nat_text(m)[0]));
        }
    }
    assert(digits_end(s, a) == s.len());
    assert(!char_at(s, s.len() as int, '.'));
}

/// Doubling the quotes of a concatenation doubles those of each part.
proof fn lemma_quote_doubled_append(a: Seq<char>, b: Seq<char>)
    ensures
        quote_doubled(a + b) == quote_doubled(a) + quote_doubled(b),
    decreases b.len(),
{
    if b.len() == 0 {
        assert(a + b =~= a);
        assert(quote_doubled(a) + quote_doubled(b) =~= quote_doubled(a));
    } else {
        lemma_quote_doubled_append(a, b.drop_last());
        assert((a + b).drop_last() =~= a + b.drop_last());
        assert((a + b).last() == b.last());
    }
}

/// Text without quotes is left as it is by doubling the quotes.
proof fn lemma_quote_doubled_plain(t: Seq<char>)
    requires
        forall|j: int| 0 <= j < t.len() ==> #[trigger] t[j] != '\'',
    ensures
        quote_doubled(t) == t,
    decreases t.len(),
{
    if t.len() > 0 {
        lemma_quote_doubled_plain(t.drop_last());
        assert(t.drop_last() + seq![t.last()] =~= t);
    }
}

/// The plain run of a quoted string's body that stops at `e` ends at `e`.
proof fn lemma_plain_end_stops(s: Seq<char>, p: int, e: int, q: char)
    requires
        0 <= p <= e <= s.len(),
        forall|j: int| p <= j < e ==> #[trigger] s[j] != '\\' && s[j] != q,
        e < s.len() ==> (s[e] == '\\' || s[e] == q),
    ensures
        plain_end(s, p, q) == e,
    decreases e - p,
{
    if p < e {
        lemma_plain_end_stops(s, p + 1, e, q);
    }
}

/// A single quote is doubled.
proof fn lemma_quote_doubled_quote()
    ensures
        quote_doubled(seq!['\'']) == seq!['\'', '\''],
{
    assert(seq!['\''].drop_last() =~= Seq::<char>::empty());
    assert(quote_doubled(Seq::<char>::empty()) == Seq::<char>::empty());
    assert(Seq::<char>::empty() + seq!['\'', '\''] =~= seq!['\'', '\'']);
}

/// The body of a quoted string whose text is `t` with its quotes doubled,
/// followed by the closing quote that ends `s`, reads back as `t` and ends at
/// that quote, where `t` holds no backslash.
proof fn lemma_string_body_of_doubled(s: Seq<char>, p: int, t: Seq<char>)
    requires
        0 <= p,
        p + quote_doubled(t).len() == s.len() - 1,
        s.subrange(p, s.len() - 1) == quote_doubled(t),
        s[s.len() - 1] == '\'',
        forall|j: int| 0 <= j < t.len() ==> #[trigger] t[j] != '\\',
    ensures
        string_body(s, p, '\'') == (s.len() - 1, t),
    decreases t.len(),
{
    let q = '\'';
    if t.len() == 0 {
        assert(s[p] == q);
        lemma_plain_end_stops(s, p, p, q);
    } else if t[0] == q {
        let rest = t.subrange(1, t.len() as int);
        assert(seq![q] + rest =~= t);
        lemma_quote_doubled_append(seq![q], rest);
        lemma_quote_doubled_quote();
        assert(quote_doubled(t) =~= seq![q, q] + quote_doubled(rest));
        assert(s[p] == s.subrange(p, s.len() - 1)[0]);
        assert(s[p + 1] == s.subrange(p, s.len() - 1)[1]);
        lemma_plain_end_stops(s, p, p, q);
        assert forall|j: int| 0 <= j < quote_doubled(rest).len() implies #[trigger] s.subrange(
            p + 2,
            s.len() - 1,
        )[j] == quote_doubled(rest)[j] by {
            assert(s[p + 2 + j] == s.subrange(p, s.len() - 1)[j + 2]);
            assert(quote_doubled(t)[j + 2] == quote_doubled(rest)[j]);
        }
        assert(s.subrange(p + 2, s.len() - 1) =~= quote_doubled(rest));
        lemma_string_body_of_doubled(s, p + 2, rest);
        assert(seq![q] + rest =~= t);
    } else {
        let k = run_end(t, 0, |c: char| c != q);
        lemma_run_end_bounds(t, 0, |c: char| c != q);
        let head = t.subrange(0, k);
        let rest = t.subrange(k, t.len() as int);
        assert(head + rest =~= t);
        lemma_quote_doubled_append(head, rest);
        lemma_quote_doubled_plain(head);
        assert(k >= 1);
        assert forall|j: int| p <= j < p + k implies #[trigger] s[j] != '\\' && s[j] != q by {
            assert(s[j] == s.subrange(p, s.len() - 1)[j - p]);
            assert(quote_doubled(t)[j - p] == head[j - p]);
        }
        if k < t.len() {
            assert(rest[0] == q);
            lemma_quote_doubled_append(seq![q], rest.subrange(1, rest.len() as int));
            assert(seq![q] + rest.subrange(1, rest.len() as int) =~= rest);
            lemma_quote_doubled_quote();
            assert(s[p + k] == s.subrange(p, s.len() - 1)[k]);
        }
        lemma_plain_end_stops(s, p, p + k, q);
        assert(s.subrange(p, p + k) =~= head);
        assert forall|j: int| 0 <= j < quote_doubled(rest).len() implies #[trigger] s.subrange(
            p + k,
            s.len() - 1,
        )[j] == quote_doubled(rest)[j] by {
            assert(s[p + k + j] == s.subrange(p, s.len() - 1)[j + k]);
            assert(quote_doubled(t)[j + k] == quote_doubled(rest)[j]);
        }
        assert(s.subrange(p + k, s.len() - 1) =~= quote_doubled(rest));
        lemma_string_body_of_doubled(s, p + k, rest);
    }
}

/// The text of a string literal reads back as that literal, the whole text
/// being read, where the string holds no backslash (a backslash in the text
/// would be read as the start of an escape).
pub proof fn lemma_string_literal_round_trip(t: Seq<char>)
    requires
        forall|j: int| 0 <= j < t.len() ==> #[trigger] t[j] != '\\',
    ensures
        spec_literal(literal_text(LiteralView::String(t)), 0) == Parsed::Done(
            literal_text(LiteralView::String(t)).len() as int,
            LiteralView::String(t),
        ),
{
    reveal(spec_literal);
    reveal(spec_integer_literal);
    let q = '\'';
    let s = literal_text(LiteralView::String(t));
    assert(s[0] == q);
    assert(!is_digit(s[0]));
    assert(after_minus(s, 0) == 0);
    lemma_run_end_stops(s, 0, 0, |c: char| is_digit(c));
    assert(s.subrange(1, s.len() - 1) =~= quote_doubled(t));
    lemma_string_body_of_doubled(s, 1, t);
}


/// Digits `d`, a point and digits `f`, after `pre`, are read by the
/// fixed-point rule from `pre`'s end.
proof fn lemma_fixed_point_parts(pre: Seq<char>, d: Seq<char>, f: Seq<char>)
    requires
        d.len() > 0,
        f.len() > 0,
        all_digits(d),
        all_digits(f),
    ensures
        digits_end(pre + d + seq!['.'] + f, pre.len() as int) == pre.len() + d.len(),
        digits_end(pre + d + seq!['.'] + f, pre.len() + d.len() + 1 as int) == (pre + d + seq!['.']
            + f).len(),
        (pre + d + seq!['.'] + f).subrange(pre.len() as int, pre.len() + d.len() as int) == d,
        (pre + d + seq!['.'] + f).subrange(
            pre.len() + d.len() + 1 as int,
            (pre + d + seq!['.'] + f).len() as int,
        ) == f,
        (pre + d + seq!['.'] + f)[pre.len() + d.len() as int] == '.',
{
    let s = pre + d + seq!['.'] + f;
    let a = pre.len() as int;
    let e1 = a + d.len();
    assert forall|j: int| a <= j < e1 implies is_digit(#[trigger] s[j]) by {
        assert(s[j] == d[j - a]);
    }
    assert(s[e1] == '.');
    lemma_run_end_stops(s, a, e1, |c: char| is_digit(c));
    assert forall|j: int| e1 + 1 <= j < s.len() implies is_digit(#[trigger] s[j]) by {
        assert(s[j] == f[j - e1 - 1]);
    }
    lemma_run_end_stops(s, e1 + 1, s.len() as int, |c: char| is_digit(c));
    assert(s.subrange(a, e1) =~= d);
    assert(s.subrange(e1 + 1, s.len() as int) =~= f);
}

/// A fixed-point number `[-]D.F` reads as its integral part `D`, negated
/// when the minus sign is there, and its fractional part `F`.
pub proof fn lemma_fixed_point_reads(d: Seq<char>, f: Seq<char>)
    requires
        d.len() > 0,
        f.len() > 0,
        all_digits(d),
        all_digits(f),
        digits_value(d) <= i32::MAX,
        digits_value(f) <= i32::MAX,
    ensures
        spec_literal(seq!['-'] + d + seq!['.'] + f, 0) matches Parsed::Done(
            e,
            LiteralView::FixedPoint(r),
        ) && e == (seq!['-'] + d + seq!['.'] + f).len() && r.integral == -(digits_value(d) as int)
            && r.fractional == digits_value(f) as int,
        spec_literal(d + seq!['.'] + f, 0) matches Parsed::Done(e, LiteralView::FixedPoint(r)) && e
            == (d + seq!['.'] + f).len() && r.integral == digits_value(d) as int && r.fractional
            == digits_value(f) as int,
{
    let i = digits_value(d);
    let fv = digits_value(f);
    let neg = seq!['-'] + d + seq!['.'] + f;
    lemma_fixed_point_parts(seq!['-'], d, f);
    assert(neg[0] == '-');
    assert(after_minus(neg, 0) == 1);
    let e1 = 1 + d.len() as int;
    assert(digits_end(neg, 1) == e1);
    assert(char_at(neg, e1, '.'));
    assert(digits_end(neg, e1 + 1) == neg.len());
    assert(neg.subrange(1, e1) == d);
    assert(spec_float_literal(neg, 0) == Parsed::Done(
        neg.len() as int,
        LiteralView::FixedPoint(Real { integral: (-i) as i32, fractional: fv as i32 }),
    ));
    assert(((-i) as i32) as int == -(i as int));
    let pos = d + seq!['.'] + f;
    lemma_fixed_point_parts(Seq::empty(), d, f);
    assert(Seq::<char>::empty() + d + seq!['.'] + f =~= pos);
    assert(pos[0] == d[0]);
    assert(is_digit(d[0]));
    assert(after_minus(pos, 0) == 0);
    let p1 = d.len() as int;
    assert(digits_end(pos, 0) == p1);
    assert(char_at(pos, p1, '.'));
    assert(digits_end(pos, p1 + 1) == pos.len());
    assert(pos.subrange(0, p1) == d);
    assert(spec_float_literal(pos, 0) == Parsed::Done(
        pos.len() as int,
        LiteralView::FixedPoint(Real { integral: i as i32, fractional: fv as i32 }),
    ));
    reveal(spec_literal);
}


/// An integer `[-]D` reads as the value of its digits `D`, negated when the
/// minus sign is there.
pub proof fn lemma_integer_reads(d: Seq<char>)
    requires
        d.len() > 0,
        all_digits(d),
        digits_value(d) <= i64::MAX,
    ensures
        spec_literal(seq!['-'] + d, 0) matches Parsed::Done(e, LiteralView::Integer(v)) && e == d.len()
            + 1 && v == -(digits_value(d) as int),
        spec_literal(d, 0) matches Parsed::Done(e, LiteralView::Integer(v)) && e == d.len() && v
            == digits_value(d) as int,
{
    let i = digits_value(d);
    let neg = seq!['-'] + d;
    assert forall|j: int| 1 <= j < neg.len() implies is_digit(#[trigger] neg[j]) by {
        assert(neg[j] == d[j - 1]);
    }
    lemma_run_end_stops(neg, 1, neg.len() as int, |c: char| is_digit(c));
    assert(neg.subrange(1, neg.len() as int) =~= d);
    assert(neg[0] == '-');
    assert(after_minus(neg, 0) == 1);
    assert(spec_float_literal(neg, 0) is NoMatch);
    lemma_run_end_stops(d, 0, d.len() as int, |c: char| is_digit(c));
    assert(d.subrange(0, d.len() as int) =~= d);
    assert(is_digit(d[0]));
    assert(after_minus(d, 0) == 0);
    assert(spec_float_literal(d, 0) is NoMatch);
    reveal(spec_integer_literal);
    assert(spec_integer_literal(neg, 0) == Parsed::Done(
        neg.len() as int,
        LiteralView::Integer((-i) as i64),
    ));
    assert(spec_integer_literal(d, 0) == Parsed::Done(d.len() as int, LiteralView::Integer(i as i64)));
    reveal(spec_literal);
}


/// The keyword literals, written in any case (`NULL`, `CURRENT_TIMESTAMP`,
/// `CURRENT_DATE`, `CURRENT_TIME`), are read as the value they name.
pub proof fn lemma_literal_keyword_words(w: Seq<char>)
    ensures
        spelled(w, "NULL"@) ==> spec_literal(w, 0) == Parsed::Done(w.len() as int, LiteralView::Null),
        spelled(w, "CURRENT_TIMESTAMP"@) ==> spec_literal(w, 0) == Parsed::Done(
            w.len() as int,
            LiteralView::CurrentTimestamp,
        ),
        spelled(w, "CURRENT_DATE"@) ==> spec_literal(w, 0) == Parsed::Done(
            w.len() as int,
            LiteralView::CurrentDate,
        ),
        spelled(w, "CURRENT_TIME"@) ==> spec_literal(w, 0) == Parsed::Done(
            w.len() as int,
            LiteralView::CurrentTime,
        ),
{
    reveal_strlit("NULL");
    reveal_strlit("CURRENT_TIMESTAMP");
    reveal_strlit("CURRENT_DATE");
    reveal_strlit("CURRENT_TIME");
    let l = w.len() as int;
    assert(w.subrange(0, l) =~= w);
    if spelled(w, "NULL"@) || spelled(w, "CURRENT_TIMESTAMP"@) || spelled(w, "CURRENT_DATE"@)
        || spelled(w, "CURRENT_TIME"@) {
        if spelled(w, "NULL"@) {
            assert(eq_no_case(w[0], "NULL"@[0]));
            lemma_spelled_tag(w, 0, w, "NULL"@);
        } else {
            if spelled(w, "CURRENT_TIMESTAMP"@) {
                assert(eq_no_case(w[0], "CURRENT_TIMESTAMP"@[0]));
            }
            if spelled(w, "CURRENT_DATE"@) {
                assert(eq_no_case(w[0], "CURRENT_DATE"@[0]));
                assert(eq_no_case(w[8], "CURRENT_DATE"@[8]));
            }
            if spelled(w, "CURRENT_TIME"@) {
                assert(eq_no_case(w[0], "CURRENT_TIME"@[0]));
            }
            lemma_tag_nc_mismatch(w, 0, "NULL"@, 0);
            if spelled(w, "CURRENT_TIMESTAMP"@) {
                lemma_spelled_tag(w, 0, w, "CURRENT_TIMESTAMP"@);
            }
            if spelled(w, "CURRENT_DATE"@) {
                lemma_tag_nc_mismatch(w, 0, "CURRENT_TIMESTAMP"@, 8);
                lemma_spelled_tag(w, 0, w, "CURRENT_DATE"@);
            }
            if spelled(w, "CURRENT_TIME"@) {
                assert(eq_no_case(w[8], "CURRENT_TIME"@[8]));
                lemma_tag_nc_mismatch(w, 0, "CURRENT_DATE"@, 8);
                lemma_spelled_tag(w, 0, w, "CURRENT_TIME"@);
            }
        }
        assert(!is_digit(w[0]));
        assert(digits_end(w, 0) == 0);
        assert(after_minus(w, 0) == 0);
        assert(spec_float_literal(w, 0) is NoMatch);
        reveal(spec_integer_literal);
        assert(spec_integer_literal(w, 0) is NoMatch);
        assert(spec_string_literal(w, 0) is NoMatch);
        reveal(spec_literal);
    }
}


/// A placeholder `?`, `:D` or `$D` is read as the placeholder of that kind,
/// numbered by the value of its digits `D`.
pub proof fn lemma_placeholder_reads(d: Seq<char>)
    requires
        d.len() > 0,
        all_digits(d),
        digits_value(d) <= i32::MAX,
    ensures
        spec_literal(seq!['?'], 0) == Parsed::Done(1, LiteralView::Placeholder(ItemPlaceholder::QuestionMark)),
        spec_literal(seq![':'] + d, 0) matches Parsed::Done(
            e,
            LiteralView::Placeholder(ItemPlaceholder::ColonNumber(v)),
        ) && e == d.len() + 1 && v == digits_value(d) as int,
        spec_literal(seq!['$'] + d, 0) matches Parsed::Done(
            e,
            LiteralView::Placeholder(ItemPlaceholder::DollarNumber(v)),
        ) && e == d.len() + 1 && v == digits_value(d) as int,
{
    reveal_strlit("NULL");
    reveal_strlit("CURRENT_TIMESTAMP");
    reveal_strlit("CURRENT_DATE");
    reveal_strlit("CURRENT_TIME");
    reveal(spec_integer_literal);
    let q = seq!['?'];
    lemma_tag_nc_mismatch(q, 0, "NULL"@, 0);
    assert(digits_end(q, 0) == 0);
    assert(after_minus(q, 0) == 0);
    assert(spec_float_literal(q, 0) is NoMatch);
    assert(spec_integer_literal(q, 0) is NoMatch);
    assert(spec_string_literal(q, 0) is NoMatch);
    let c = seq![':'] + d;
    let k = seq!['$'] + d;
    assert forall|j: int| 1 <= j < c.len() implies is_digit(#[trigger] c[j]) && is_digit(k[j]) by {
        assert(c[j] == d[j - 1] && k[j] == d[j - 1]);
    }
    lemma_run_end_stops(c, 1, c.len() as int, |x: char| is_digit(x));
    lemma_run_end_stops(k, 1, k.len() as int, |x: char| is_digit(x));
    assert(c.subrange(1, c.len() as int) =~= d);
    assert(k.subrange(1, k.len() as int) =~= d);
    assert(c[0] == ':' && k[0] == '$');
    lemma_tag_nc_mismatch(c, 0, "NULL"@, 0);
    lemma_tag_nc_mismatch(c, 0, "CURRENT_TIMESTAMP"@, 0);
    lemma_tag_nc_mismatch(c, 0, "CURRENT_DATE"@, 0);
    lemma_tag_nc_mismatch(c, 0, "CURRENT_TIME"@, 0);
    lemma_tag_nc_mismatch(k, 0, "NULL"@, 0);
    lemma_tag_nc_mismatch(k, 0, "CURRENT_TIMESTAMP"@, 0);
    lemma_tag_nc_mismatch(k, 0, "CURRENT_DATE"@, 0);
    lemma_tag_nc_mismatch(k, 0, "CURRENT_TIME"@, 0);
    assert(digits_end(c, 0) == 0 && digits_end(k, 0) == 0);
    assert(after_minus(c, 0) == 0 && after_minus(k, 0) == 0);
    assert(spec_float_literal(c, 0) is NoMatch);
    assert(spec_float_literal(k, 0) is NoMatch);
    assert(spec_integer_literal(c, 0) is NoMatch);
    assert(spec_integer_literal(k, 0) is NoMatch);
    assert(spec_string_literal(c, 0) is NoMatch);
    assert(spec_string_literal(k, 0) is NoMatch);
    assert(spec_placeholder_number(k, 0, ':') is NoMatch);
    reveal(spec_literal);
}

} // verus!
