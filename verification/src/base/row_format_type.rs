//! parse `ROW_FORMAT [=] {DEFAULT | DYNAMIC | FIXED | COMPRESSED | REDUNDANT | COMPACT}`
use vstd::prelude::*;

use crate::base::error::ParseSQLError;
use crate::base::input::{
    agrees, alt, char_at, has_tag_nc, lemma_tag_nc_mismatch, lemma_tag_nc_of_eq, run_end, str_agrees, ws_end, Input, Parsed, eq_no_case, lemma_spelled_tag, spelled,
};

verus! {

/// parse `ROW_FORMAT [=] {DEFAULT | DYNAMIC | FIXED | COMPRESSED | REDUNDANT | COMPACT}`
#[derive(Clone, Copy, Debug, Eq, Hash, PartialEq, Structural)]
pub enum RowFormatType {
    Default,
    Dynamic,
    Fixed,
    Compressed,
    Redundant,
    Compact,
}

impl DeepView for RowFormatType {
    type V = RowFormatType;

    open spec fn deep_view(&self) -> RowFormatType {
        *self
    }
}

/// `{DEFAULT | DYNAMIC | FIXED | COMPRESSED | REDUNDANT | COMPACT}`, ignoring case, tried in this order.
pub open spec fn spec_row_format_type_value(s: Seq<char>, p: int) -> Parsed<RowFormatType> {
    if has_tag_nc(s, p, "DEFAULT"@) {
        Parsed::Done(p + "DEFAULT"@.len(), RowFormatType::Default)
    } else if has_tag_nc(s, p, "DYNAMIC"@) {
        Parsed::Done(p + "DYNAMIC"@.len(), RowFormatType::Dynamic)
    } else if has_tag_nc(s, p, "FIXED"@) {
        Parsed::Done(p + "FIXED"@.len(), RowFormatType::Fixed)
    } else if has_tag_nc(s, p, "COMPRESSED"@) {
        Parsed::Done(p + "COMPRESSED"@.len(), RowFormatType::Compressed)
    } else if has_tag_nc(s, p, "REDUNDANT"@) {
        Parsed::Done(p + "REDUNDANT"@.len(), RowFormatType::Redundant)
    } else if has_tag_nc(s, p, "COMPACT"@) {
        Parsed::Done(p + "COMPACT"@.len(), RowFormatType::Compact)
    } else {
        Parsed::NoMatch
    }
}

fn row_format_type_value_at(src: &Input, p: usize) -> (r: Option<(usize, RowFormatType)>)
    requires
        p <= src@.len(),
    ensures
        agrees(r, spec_row_format_type_value(src@, p as int)),
        r matches Some((q, _)) ==> p <= q <= src@.len(),
{
    if src.tag_nc(p, "DEFAULT") {
        Some((p + "DEFAULT".unicode_len(), RowFormatType::Default))
    } else if src.tag_nc(p, "DYNAMIC") {
        Some((p + "DYNAMIC".unicode_len(), RowFormatType::Dynamic))
    } else if src.tag_nc(p, "FIXED") {
        Some((p + "FIXED".unicode_len(), RowFormatType::Fixed))
    } else if src.tag_nc(p, "COMPRESSED") {
        Some((p + "COMPRESSED".unicode_len(), RowFormatType::Compressed))
    } else if src.tag_nc(p, "REDUNDANT") {
        Some((p + "REDUNDANT".unicode_len(), RowFormatType::Redundant))
    } else if src.tag_nc(p, "COMPACT") {
        Some((p + "COMPACT".unicode_len(), RowFormatType::Compact))
    } else {
        None
    }
}

/// `ROW_FORMAT [ws] [=] [ws] value`.
pub open spec fn spec_row_format_type(s: Seq<char>, p: int) -> Parsed<RowFormatType> {
    let a = ws_end(s, p + "ROW_FORMAT"@.len());
    let b = if char_at(s, a, '=') {
        a + 1
    } else {
        a
    };
    if has_tag_nc(s, p, "ROW_FORMAT"@) {
        spec_row_format_type_value(s, ws_end(s, b))
    } else {
        Parsed::NoMatch
    }
}

pub fn row_format_type_at(src: &Input, p: usize) -> (r: Option<(usize, RowFormatType)>)
    requires
        p <= src@.len(),
    ensures
        agrees(r, spec_row_format_type(src@, p as int)),
        r matches Some((q, _)) ==> p <= q <= src@.len(),
{
    if !src.tag_nc(p, "ROW_FORMAT") {
        return None;
    }
    let a = src.skip_ws(p + "ROW_FORMAT".unicode_len());
    let b = if src.is_char(a, '=') {
        a + 1
    } else {
        a
    };
    row_format_type_value_at(src, src.skip_ws(b))
}

/// The text `to_string` gives for each value.
pub open spec fn row_format_type_text(v: RowFormatType) -> Seq<char> {
    match v {
        RowFormatType::Default => "ROW_FORMAT DEFAULT"@,
        RowFormatType::Dynamic => "ROW_FORMAT DYNAMIC"@,
        RowFormatType::Fixed => "ROW_FORMAT FIXED"@,
        RowFormatType::Compressed => "ROW_FORMAT COMPRESSED"@,
        RowFormatType::Redundant => "ROW_FORMAT REDUNDANT"@,
        RowFormatType::Compact => "ROW_FORMAT COMPACT"@,
    }
}

impl RowFormatType {
    /// parse `ROW_FORMAT ... {DEFAULT | DYNAMIC | FIXED | COMPRESSED | REDUNDANT | COMPACT}`
    pub fn parse(i: &str) -> (r: Result<(&str, RowFormatType), ParseSQLError>)
        ensures
            str_agrees(i@, r, spec_row_format_type(i@, 0)),
    {
        let src = Input::new(i);
        match row_format_type_at(&src, 0) {
            Some((q, v)) => Ok((src.rest(q), v)),
            None => Err(ParseSQLError::grammar(i)),
        }
    }

    /// The SQL text of the value.
    pub fn to_string(&self) -> (r: String)
        ensures
            r@ == row_format_type_text(*self),
    {
        match self {
            RowFormatType::Default => "ROW_FORMAT DEFAULT".to_owned(),
            RowFormatType::Dynamic => "ROW_FORMAT DYNAMIC".to_owned(),
            RowFormatType::Fixed => "ROW_FORMAT FIXED".to_owned(),
            RowFormatType::Compressed => "ROW_FORMAT COMPRESSED".to_owned(),
            RowFormatType::Redundant => "ROW_FORMAT REDUNDANT".to_owned(),
            RowFormatType::Compact => "ROW_FORMAT COMPACT".to_owned(),
        }
    }
}

/// Parsing the text of a value gives back that value and reads the whole text.
pub proof fn lemma_row_format_type_round_trip(v: RowFormatType)
    ensures
        spec_row_format_type(row_format_type_text(v), 0) == Parsed::Done(row_format_type_text(v).len() as int, v),
{
    reveal_strlit("COMPACT");
    reveal_strlit("COMPRESSED");
    reveal_strlit("DEFAULT");
    reveal_strlit("DYNAMIC");
    reveal_strlit("FIXED");
    reveal_strlit("REDUNDANT");
    reveal_strlit("ROW_FORMAT");
    reveal_strlit("ROW_FORMAT COMPACT");
    reveal_strlit("ROW_FORMAT COMPRESSED");
    reveal_strlit("ROW_FORMAT DEFAULT");
    reveal_strlit("ROW_FORMAT DYNAMIC");
    reveal_strlit("ROW_FORMAT FIXED");
    reveal_strlit("ROW_FORMAT REDUNDANT");
    let s = row_format_type_text(v);
    reveal_with_fuel(run_end, 3);
    match v {
        RowFormatType::Default => {
            lemma_tag_nc_of_eq(s, 0, "ROW_FORMAT"@);
            lemma_tag_nc_of_eq(s, 11, "DEFAULT"@);
        },
        RowFormatType::Dynamic => {
            lemma_tag_nc_of_eq(s, 0, "ROW_FORMAT"@);
            lemma_tag_nc_mismatch(s, 11, "DEFAULT"@, 1);
            lemma_tag_nc_of_eq(s, 11, "DYNAMIC"@);
        },
        RowFormatType::Fixed => {
            lemma_tag_nc_of_eq(s, 0, "ROW_FORMAT"@);
            lemma_tag_nc_of_eq(s, 11, "FIXED"@);
        },
        RowFormatType::Compressed => {
            lemma_tag_nc_of_eq(s, 0, "ROW_FORMAT"@);
            lemma_tag_nc_mismatch(s, 11, "DEFAULT"@, 0);
            lemma_tag_nc_mismatch(s, 11, "DYNAMIC"@, 0);
            lemma_tag_nc_mismatch(s, 11, "FIXED"@, 0);
            lemma_tag_nc_of_eq(s, 11, "COMPRESSED"@);
        },
        RowFormatType::Redundant => {
            lemma_tag_nc_of_eq(s, 0, "ROW_FORMAT"@);
            lemma_tag_nc_mismatch(s, 11, "DEFAULT"@, 0);
            lemma_tag_nc_mismatch(s, 11, "DYNAMIC"@, 0);
            lemma_tag_nc_mismatch(s, 11, "FIXED"@, 0);
            lemma_tag_nc_of_eq(s, 11, "REDUNDANT"@);
        },
        RowFormatType::Compact => {
            lemma_tag_nc_of_eq(s, 0, "ROW_FORMAT"@);
            lemma_tag_nc_mismatch(s, 11, "DEFAULT"@, 0);
            lemma_tag_nc_mismatch(s, 11, "DYNAMIC"@, 0);
            lemma_tag_nc_mismatch(s, 11, "FIXED"@, 0);
            lemma_tag_nc_of_eq(s, 11, "COMPACT"@);
        },
    }
}



/// Each word of the rule, written in any case (`DEFAULT`, `DYNAMIC`, `FIXED`, `COMPRESSED`, `REDUNDANT`, `COMPACT`), is read as the
/// value it names, the whole word being read.
pub proof fn lemma_row_format_type_words(w: Seq<char>)
    ensures
        spelled(w, "DEFAULT"@) ==> spec_row_format_type_value(w, 0) == Parsed::Done(w.len() as int, RowFormatType::Default),
        spelled(w, "DYNAMIC"@) ==> spec_row_format_type_value(w, 0) == Parsed::Done(w.len() as int, RowFormatType::Dynamic),
        spelled(w, "FIXED"@) ==> spec_row_format_type_value(w, 0) == Parsed::Done(w.len() as int, RowFormatType::Fixed),
        spelled(w, "COMPRESSED"@) ==> spec_row_format_type_value(w, 0) == Parsed::Done(w.len() as int, RowFormatType::Compressed),
        spelled(w, "REDUNDANT"@) ==> spec_row_format_type_value(w, 0) == Parsed::Done(w.len() as int, RowFormatType::Redundant),
        spelled(w, "COMPACT"@) ==> spec_row_format_type_value(w, 0) == Parsed::Done(w.len() as int, RowFormatType::Compact),
{
    reveal_strlit("DEFAULT");
    reveal_strlit("DYNAMIC");
    reveal_strlit("FIXED");
    reveal_strlit("COMPRESSED");
    reveal_strlit("REDUNDANT");
    reveal_strlit("COMPACT");
    assert(w.subrange(0, w.len() as int) =~= w);
    if spelled(w, "DEFAULT"@) {
        lemma_spelled_tag(w, 0, w, "DEFAULT"@);
    }
    if spelled(w, "DYNAMIC"@) {
        assert(eq_no_case(w[1], "DYNAMIC"@[1]));
        lemma_tag_nc_mismatch(w, 0, "DEFAULT"@, 1);
        lemma_spelled_tag(w, 0, w, "DYNAMIC"@);
    }
    if spelled(w, "FIXED"@) {
        assert(eq_no_case(w[0], "FIXED"@[0]));
        lemma_tag_nc_mismatch(w, 0, "DEFAULT"@, 0);
        assert(eq_no_case(w[0], "FIXED"@[0]));
        lemma_tag_nc_mismatch(w, 0, "DYNAMIC"@, 0);
        lemma_spelled_tag(w, 0, w, "FIXED"@);
    }
    if spelled(w, "COMPRESSED"@) {
        assert(eq_no_case(w[0], "COMPRESSED"@[0]));
        lemma_tag_nc_mismatch(w, 0, "DEFAULT"@, 0);
        assert(eq_no_case(w[0], "COMPRESSED"@[0]));
        lemma_tag_nc_mismatch(w, 0, "DYNAMIC"@, 0);
        assert(eq_no_case(w[0], "COMPRESSED"@[0]));
        lemma_tag_nc_mismatch(w, 0, "FIXED"@, 0);
        lemma_spelled_tag(w, 0, w, "COMPRESSED"@);
    }
    if spelled(w, "REDUNDANT"@) {
        assert(eq_no_case(w[0], "REDUNDANT"@[0]));
        lemma_tag_nc_mismatch(w, 0, "DEFAULT"@, 0);
        assert(eq_no_case(w[0], "REDUNDANT"@[0]));
        lemma_tag_nc_mismatch(w, 0, "DYNAMIC"@, 0);
        assert(eq_no_case(w[0], "REDUNDANT"@[0]));
        lemma_tag_nc_mismatch(w, 0, "FIXED"@, 0);
        assert(eq_no_case(w[0], "REDUNDANT"@[0]));
        lemma_tag_nc_mismatch(w, 0, "COMPRESSED"@, 0);
        lemma_spelled_tag(w, 0, w, "REDUNDANT"@);
    }
    if spelled(w, "COMPACT"@) {
        assert(eq_no_case(w[0], "COMPACT"@[0]));
        lemma_tag_nc_mismatch(w, 0, "DEFAULT"@, 0);
        assert(eq_no_case(w[0], "COMPACT"@[0]));
        lemma_tag_nc_mismatch(w, 0, "DYNAMIC"@, 0);
        assert(eq_no_case(w[0], "COMPACT"@[0]));
        lemma_tag_nc_mismatch(w, 0, "FIXED"@, 0);
        assert(eq_no_case(w[4], "COMPACT"@[4]));
        lemma_tag_nc_mismatch(w, 0, "COMPRESSED"@, 4);
        assert(eq_no_case(w[0], "COMPACT"@[0]));
        lemma_tag_nc_mismatch(w, 0, "REDUNDANT"@, 0);
        lemma_spelled_tag(w, 0, w, "COMPACT"@);
    }
}

} // verus!
