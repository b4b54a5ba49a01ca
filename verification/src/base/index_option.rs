//! index_option: `{KEY_BLOCK_SIZE [=] value | index_type | WITH PARSER parser_name
//! | COMMENT 'string' | {VISIBLE | INVISIBLE} | ENGINE_ATTRIBUTE [=] 'string'
//! | SECONDARY_ENGINE_ATTRIBUTE [=] 'string'}`
use vstd::prelude::*;

use crate::base::common_parser::{
    parse_comment_at, quoted_at, spec_parse_comment, spec_quoted, spec_sql_identifier,
    sql_identifier_at,
};
use crate::base::error::ParseSQLError;
use crate::base::index_type::{index_type_at, spec_index_type, IndexType};
use crate::base::input::{
    agrees, char_at, digits_end, digits_value, has_tag_nc, is_digit, lemma_run_end_bounds,
    str_agrees, ws_end, Input, Parsed,
};
use crate::base::visible_type::{spec_visible_type, visible_type_at, VisibleType};

verus! {

#[derive(Clone, Debug, Eq, Hash, PartialEq)]
pub enum IndexOption {
    KeyBlockSize(u64),
    IndexType(IndexType),
    WithParser(String),
    Comment(String),
    VisibleType(VisibleType),
    EngineAttribute(String),
    SecondaryEngineAttribute(String),
}

pub enum IndexOptionView {
    KeyBlockSize(u64),
    IndexType(IndexType),
    WithParser(Seq<char>),
    Comment(Seq<char>),
    VisibleType(VisibleType),
    EngineAttribute(Seq<char>),
    SecondaryEngineAttribute(Seq<char>),
}

impl DeepView for IndexOption {
    type V = IndexOptionView;

    open spec fn deep_view(&self) -> IndexOptionView {
        match self {
            IndexOption::KeyBlockSize(n) => IndexOptionView::KeyBlockSize(*n),
            IndexOption::IndexType(t) => IndexOptionView::IndexType(*t),
            IndexOption::WithParser(s) => IndexOptionView::WithParser(s@),
            IndexOption::Comment(s) => IndexOptionView::Comment(s@),
            IndexOption::VisibleType(v) => IndexOptionView::VisibleType(*v),
            IndexOption::EngineAttribute(s) => IndexOptionView::EngineAttribute(s@),
            IndexOption::SecondaryEngineAttribute(s) => IndexOptionView::SecondaryEngineAttribute(
                s@,
            ),
        }
    }
}

/// A decimal number that fits in `u64` (a larger one does not match).
pub open spec fn spec_u64(s: Seq<char>, p: int) -> Parsed<u64> {
    let d = digits_end(s, p);
    if d > p && digits_value(s.subrange(p, d)) <= u64::MAX {
        Parsed::Done(d, digits_value(s.subrange(p, d)) as u64)
    } else {
        Parsed::NoMatch
    }
}

/// Position after an optional `=` at `p`.
pub open spec fn opt_equals(s: Seq<char>, p: int) -> int {
    if char_at(s, p, '=') {
        p + 1
    } else {
        p
    }
}

/// `[ws] KEY_BLOCK_SIZE [ws] [=] [ws] number`
pub open spec fn spec_key_block_size(s: Seq<char>, p: int) -> Parsed<u64> {
    let a = ws_end(s, p);
    if has_tag_nc(s, a, "KEY_BLOCK_SIZE"@) {
        spec_u64(s, ws_end(s, opt_equals(s, ws_end(s, a + "KEY_BLOCK_SIZE"@.len()))))
    } else {
        Parsed::NoMatch
    }
}

/// `[ws] WITH ws PARSER ws name [ws]`; the value is the name's range.
pub open spec fn spec_with_parser(s: Seq<char>, p: int) -> Parsed<(int, int)> {
    let a = ws_end(s, p);
    let b = ws_end(s, a + "WITH"@.len());
    let c = ws_end(s, b + "PARSER"@.len());
    if has_tag_nc(s, a, "WITH"@) && b > a + "WITH"@.len() && has_tag_nc(s, b, "PARSER"@) && c > b
        + "PARSER"@.len() {
        match spec_sql_identifier(s, c) {
            Parsed::Done(e, r) => Parsed::Done(ws_end(s, e), r),
            _ => Parsed::NoMatch,
        }
    } else {
        Parsed::NoMatch
    }
}

/// `key [ws] [=]'text' [ws]`, the key ignoring case; the value is the text's range.
pub open spec fn spec_attribute(s: Seq<char>, p: int, key: Seq<char>) -> Parsed<(int, int)> {
    if has_tag_nc(s, p, key) {
        match spec_quoted(s, opt_equals(s, ws_end(s, p + key.len())), '\'') {
            Parsed::Done(e, r) => Parsed::Done(ws_end(s, e), r),
            _ => Parsed::NoMatch,
        }
    } else {
        Parsed::NoMatch
    }
}

/// An index option, trying in order: key block size, index type, parser,
/// comment, visibility, engine attribute, secondary engine attribute.
pub open spec fn spec_index_option(s: Seq<char>, p: int) -> Parsed<IndexOptionView> {
    if let Parsed::Done(e, n) = spec_key_block_size(s, p) {
        Parsed::Done(e, IndexOptionView::KeyBlockSize(n))
    } else if let Parsed::Done(e, t) = spec_index_type(s, p) {
        Parsed::Done(e, IndexOptionView::IndexType(t))
    } else if let Parsed::Done(e, (a, b)) = spec_with_parser(s, p) {
        Parsed::Done(e, IndexOptionView::WithParser(s.subrange(a, b)))
    } else if let Parsed::Done(e, (a, b)) = spec_parse_comment(s, p) {
        Parsed::Done(e, IndexOptionView::Comment(s.subrange(a, b)))
    } else if let Parsed::Done(e, v) = spec_visible_type(s, p) {
        Parsed::Done(e, IndexOptionView::VisibleType(v))
    } else if let Parsed::Done(e, (a, b)) = spec_attribute(s, p, "ENGINE_ATTRIBUTE"@) {
        Parsed::Done(e, IndexOptionView::EngineAttribute(s.subrange(a, b)))
    } else if let Parsed::Done(e, (a, b)) = spec_attribute(s, p, "SECONDARY_ENGINE_ATTRIBUTE"@) {
        Parsed::Done(e, IndexOptionView::SecondaryEngineAttribute(s.subrange(a, b)))
    } else {
        Parsed::NoMatch
    }
}

/// `ws index_option`, or nothing.
pub open spec fn spec_opt_index_option(s: Seq<char>, p: int) -> Parsed<Option<IndexOptionView>> {
    let a = ws_end(s, p);
    if a > p {
        match spec_index_option(s, a) {
            Parsed::Done(e, o) => Parsed::Done(e, Some(o)),
            _ => Parsed::Done(p, None),
        }
    } else {
        Parsed::Done(p, None)
    }
}

pub fn u64_at(src: &Input, p: usize) -> (r: Option<(usize, u64)>)
    requires
        p <= src@.len(),
    ensures
        agrees(r, spec_u64(src@, p as int)),
        r matches Some((e, _)) ==> p < e <= src@.len(),
{
    let d = src.skip_digits(p);
    if d == p {
        return None;
    }
    proof {
        lemma_run_end_bounds(src@, p as int, |c: char| is_digit(c));
    }
    match src.digits_upto(p, d, u64::MAX) {
        Some(v) => Some((d, v)),
        None => None,
    }
}

pub fn opt_equals_at(src: &Input, p: usize) -> (r: usize)
    requires
        p <= src@.len(),
    ensures
        r == opt_equals(src@, p as int),
        p <= r <= src@.len(),
{
    if src.is_char(p, '=') {
        p + 1
    } else {
        p
    }
}

fn key_block_size_at(src: &Input, p: usize) -> (r: Option<(usize, u64)>)
    requires
        p <= src@.len(),
    ensures
        agrees(r, spec_key_block_size(src@, p as int)),
        r matches Some((e, _)) ==> p < e <= src@.len(),
{
    let a = src.skip_ws(p);
    if !src.tag_nc(a, "KEY_BLOCK_SIZE") {
        return None;
    }
    let b = src.skip_ws(a + "KEY_BLOCK_SIZE".unicode_len());
    u64_at(src, src.skip_ws(opt_equals_at(src, b)))
}

fn with_parser_at(src: &Input, p: usize) -> (r: Option<(usize, String)>)
    requires
        p <= src@.len(),
    ensures
        match spec_with_parser(src@, p as int) {
            Parsed::Done(e, (a, b)) => r matches Some((e2, x)) && e2 == e && x@ == src@.subrange(
                a,
                b,
            ),
            _ => r is None,
        },
        r matches Some((e, _)) ==> p < e <= src@.len(),
{
    let a = src.skip_ws(p);
    if !src.tag_nc(a, "WITH") {
        return None;
    }
    let b = src.skip_ws(a + "WITH".unicode_len());
    if b == a + "WITH".unicode_len() || !src.tag_nc(b, "PARSER") {
        return None;
    }
    let c = src.skip_ws(b + "PARSER".unicode_len());
    if c == b + "PARSER".unicode_len() {
        return None;
    }
    match sql_identifier_at(src, c) {
        Some((e, sp)) => Some((src.skip_ws(e), src.string(sp.start, sp.end))),
        None => None,
    }
}

fn attribute_at(src: &Input, p: usize, key: &str) -> (r: Option<(usize, String)>)
    requires
        p <= src@.len(),
    ensures
        match spec_attribute(src@, p as int, key@) {
            Parsed::Done(e, (a, b)) => r matches Some((e2, x)) && e2 == e && x@ == src@.subrange(
                a,
                b,
            ),
            _ => r is None,
        },
        r matches Some((e, _)) ==> p < e <= src@.len(),
{
    if !src.tag_nc(p, key) {
        return None;
    }
    let a = opt_equals_at(src, src.skip_ws(p + key.unicode_len()));
    match quoted_at(src, a, '\'') {
        Some((e, sp)) => Some((src.skip_ws(e), src.string(sp.start, sp.end))),
        None => None,
    }
}

pub fn index_option_at(src: &Input, p: usize) -> (r: Option<(usize, IndexOption)>)
    requires
        p <= src@.len(),
    ensures
        agrees(r, spec_index_option(src@, p as int)),
        r matches Some((e, _)) ==> p <= e <= src@.len(),
{
    if let Some((e, n)) = key_block_size_at(src, p) {
        return Some((e, IndexOption::KeyBlockSize(n)));
    }
    if let Some((e, t)) = index_type_at(src, p) {
        return Some((e, IndexOption::IndexType(t)));
    }
    if let Some((e, x)) = with_parser_at(src, p) {
        return Some((e, IndexOption::WithParser(x)));
    }
    if let Some((e, sp)) = parse_comment_at(src, p) {
        return Some((e, IndexOption::Comment(src.string(sp.start, sp.end))));
    }
    if let Some((e, v)) = visible_type_at(src, p) {
        return Some((e, IndexOption::VisibleType(v)));
    }
    if let Some((e, x)) = attribute_at(src, p, "ENGINE_ATTRIBUTE") {
        return Some((e, IndexOption::EngineAttribute(x)));
    }
    if let Some((e, x)) = attribute_at(src, p, "SECONDARY_ENGINE_ATTRIBUTE") {
        return Some((e, IndexOption::SecondaryEngineAttribute(x)));
    }
    None
}

pub fn opt_index_option_at(src: &Input, p: usize) -> (r: Option<(usize, Option<IndexOption>)>)
    requires
        p <= src@.len(),
    ensures
        agrees(r, spec_opt_index_option(src@, p as int)),
        r matches Some((e, _)) ==> p <= e <= src@.len(),
{
    let a = src.skip_ws(p);
    if a > p {
        if let Some((e, o)) = index_option_at(src, a) {
            return Some((e, Some(o)));
        }
    }
    Some((p, None))
}

impl IndexOption {
    pub fn parse(i: &str) -> (r: Result<(&str, IndexOption), ParseSQLError>)
        ensures
            str_agrees(i@, r, spec_index_option(i@, 0)),
    {
        let src = Input::new(i);
        match index_option_at(&src, 0) {
            Some((q, v)) => Ok((src.rest(q), v)),
            None => Err(ParseSQLError::grammar(i)),
        }
    }

    /// `ws index_option`, or nothing (which always succeeds).
    pub fn opt_index_option(i: &str) -> (r: Result<(&str, Option<IndexOption>), ParseSQLError>)
        ensures
            str_agrees(i@, r, spec_opt_index_option(i@, 0)),
    {
        let src = Input::new(i);
        match opt_index_option_at(&src, 0) {
            Some((q, v)) => Ok((src.rest(q), v)),
            None => Err(ParseSQLError::grammar(i)),
        }
    }
}

} // verus!
