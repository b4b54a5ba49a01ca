//! parse `COMPRESSION [=] {'ZLIB' | 'LZ4' | 'NONE'}`
use vstd::prelude::*;

use crate::base::error::ParseSQLError;
use crate::base::input::{
    agrees, alt, char_at, has_tag_nc, lemma_tag_nc_mismatch, lemma_tag_nc_of_eq, run_end, str_agrees, ws_end, Input, Parsed, eq_no_case, lemma_spelled_tag, spelled,
};

verus! {

/// parse `COMPRESSION [=] {'ZLIB' | 'LZ4' | 'NONE'}`
#[derive(Clone, Copy, Debug, Eq, Hash, PartialEq, Structural)]
pub enum CompressionType {
    ZLIB,
    LZ4,
    NONE,
}

impl DeepView for CompressionType {
    type V = CompressionType;

    open spec fn deep_view(&self) -> CompressionType {
        *self
    }
}

/// `{'ZLIB' | "ZLIB" | 'LZ4' | "LZ4" | 'NONE' | "NONE"}`, ignoring case, tried in this order.
pub open spec fn spec_compression_type_value(s: Seq<char>, p: int) -> Parsed<CompressionType> {
    if has_tag_nc(s, p, "'ZLIB'"@) {
        Parsed::Done(p + "'ZLIB'"@.len(), CompressionType::ZLIB)
    } else if has_tag_nc(s, p, "\"ZLIB\""@) {
        Parsed::Done(p + "\"ZLIB\""@.len(), CompressionType::ZLIB)
    } else if has_tag_nc(s, p, "'LZ4'"@) {
        Parsed::Done(p + "'LZ4'"@.len(), CompressionType::LZ4)
    } else if has_tag_nc(s, p, "\"LZ4\""@) {
        Parsed::Done(p + "\"LZ4\""@.len(), CompressionType::LZ4)
    } else if has_tag_nc(s, p, "'NONE'"@) {
        Parsed::Done(p + "'NONE'"@.len(), CompressionType::NONE)
    } else if has_tag_nc(s, p, "\"NONE\""@) {
        Parsed::Done(p + "\"NONE\""@.len(), CompressionType::NONE)
    } else {
        Parsed::NoMatch
    }
}

fn compression_type_value_at(src: &Input, p: usize) -> (r: Option<(usize, CompressionType)>)
    requires
        p <= src@.len(),
    ensures
        agrees(r, spec_compression_type_value(src@, p as int)),
        r matches Some((q, _)) ==> p <= q <= src@.len(),
{
    if src.tag_nc(p, "'ZLIB'") {
        Some((p + "'ZLIB'".unicode_len(), CompressionType::ZLIB))
    } else if src.tag_nc(p, "\"ZLIB\"") {
        Some((p + "\"ZLIB\"".unicode_len(), CompressionType::ZLIB))
    } else if src.tag_nc(p, "'LZ4'") {
        Some((p + "'LZ4'".unicode_len(), CompressionType::LZ4))
    } else if src.tag_nc(p, "\"LZ4\"") {
        Some((p + "\"LZ4\"".unicode_len(), CompressionType::LZ4))
    } else if src.tag_nc(p, "'NONE'") {
        Some((p + "'NONE'".unicode_len(), CompressionType::NONE))
    } else if src.tag_nc(p, "\"NONE\"") {
        Some((p + "\"NONE\"".unicode_len(), CompressionType::NONE))
    } else {
        None
    }
}

/// `COMPRESSION [ws] [=] [ws] value`.
pub open spec fn spec_compression_type(s: Seq<char>, p: int) -> Parsed<CompressionType> {
    let a = ws_end(s, p + "COMPRESSION"@.len());
    let b = if char_at(s, a, '=') {
        a + 1
    } else {
        a
    };
    if has_tag_nc(s, p, "COMPRESSION"@) {
        spec_compression_type_value(s, ws_end(s, b))
    } else {
        Parsed::NoMatch
    }
}

pub fn compression_type_at(src: &Input, p: usize) -> (r: Option<(usize, CompressionType)>)
    requires
        p <= src@.len(),
    ensures
        agrees(r, spec_compression_type(src@, p as int)),
        r matches Some((q, _)) ==> p <= q <= src@.len(),
{
    if !src.tag_nc(p, "COMPRESSION") {
        return None;
    }
    let a = src.skip_ws(p + "COMPRESSION".unicode_len());
    let b = if src.is_char(a, '=') {
        a + 1
    } else {
        a
    };
    compression_type_value_at(src, src.skip_ws(b))
}

/// The text `to_string` gives for each value.
pub open spec fn compression_type_text(v: CompressionType) -> Seq<char> {
    match v {
        CompressionType::ZLIB => "COMPRESSION 'ZLIB'"@,
        CompressionType::LZ4 => "COMPRESSION 'LZ4'"@,
        CompressionType::NONE => "COMPRESSION 'NONE'"@,
    }
}

impl CompressionType {
    /// parse `COMPRESSION ... {'ZLIB' | "ZLIB" | 'LZ4' | "LZ4" | 'NONE' | "NONE"}`
    pub fn parse(i: &str) -> (r: Result<(&str, CompressionType), ParseSQLError>)
        ensures
            str_agrees(i@, r, spec_compression_type(i@, 0)),
    {
        let src = Input::new(i);
        match compression_type_at(&src, 0) {
            Some((q, v)) => Ok((src.rest(q), v)),
            None => Err(ParseSQLError::grammar(i)),
        }
    }

    /// The SQL text of the value.
    pub fn to_string(&self) -> (r: String)
        ensures
            r@ == compression_type_text(*self),
    {
        match self {
            CompressionType::ZLIB => "COMPRESSION 'ZLIB'".to_owned(),
            CompressionType::LZ4 => "COMPRESSION 'LZ4'".to_owned(),
            CompressionType::NONE => "COMPRESSION 'NONE'".to_owned(),
        }
    }
}

/// Parsing the text of a value gives back that value and reads the whole text.
pub proof fn lemma_compression_type_round_trip(v: CompressionType)
    ensures
        spec_compression_type(compression_type_text(v), 0) == Parsed::Done(compression_type_text(v).len() as int, v),
{
    reveal_strlit("\"LZ4\"");
    reveal_strlit("\"NONE\"");
    reveal_strlit("\"ZLIB\"");
    reveal_strlit("'LZ4'");
    reveal_strlit("'NONE'");
    reveal_strlit("'ZLIB'");
    reveal_strlit("COMPRESSION");
    reveal_strlit("COMPRESSION 'LZ4'");
    reveal_strlit("COMPRESSION 'NONE'");
    reveal_strlit("COMPRESSION 'ZLIB'");
    let s = compression_type_text(v);
    reveal_with_fuel(run_end, 3);
    match v {
        CompressionType::ZLIB => {
            lemma_tag_nc_of_eq(s, 0, "COMPRESSION"@);
            lemma_tag_nc_of_eq(s, 12, "'ZLIB'"@);
        },
        CompressionType::LZ4 => {
            lemma_tag_nc_of_eq(s, 0, "COMPRESSION"@);
            lemma_tag_nc_of_eq(s, 12, "'LZ4'"@);
        },
        CompressionType::NONE => {
            lemma_tag_nc_of_eq(s, 0, "COMPRESSION"@);
            lemma_tag_nc_mismatch(s, 12, "'ZLIB'"@, 1);
            lemma_tag_nc_mismatch(s, 12, "\"ZLIB\""@, 0);
            lemma_tag_nc_mismatch(s, 12, "'LZ4'"@, 1);
            lemma_tag_nc_mismatch(s, 12, "\"LZ4\""@, 0);
            lemma_tag_nc_of_eq(s, 12, "'NONE'"@);
        },
    }
}



/// Each word of the rule, written in any case (`'ZLIB'`, `"ZLIB"`, `'LZ4'`, `"LZ4"`, `'NONE'`, `"NONE"`), is read as the
/// value it names, the whole word being read.
pub proof fn lemma_compression_type_words(w: Seq<char>)
    ensures
        spelled(w, "'ZLIB'"@) ==> spec_compression_type_value(w, 0) == Parsed::Done(w.len() as int, CompressionType::ZLIB),
        spelled(w, "\"ZLIB\""@) ==> spec_compression_type_value(w, 0) == Parsed::Done(w.len() as int, CompressionType::ZLIB),
        spelled(w, "'LZ4'"@) ==> spec_compression_type_value(w, 0) == Parsed::Done(w.len() as int, CompressionType::LZ4),
        spelled(w, "\"LZ4\""@) ==> spec_compression_type_value(w, 0) == Parsed::Done(w.len() as int, CompressionType::LZ4),
        spelled(w, "'NONE'"@) ==> spec_compression_type_value(w, 0) == Parsed::Done(w.len() as int, CompressionType::NONE),
        spelled(w, "\"NONE\""@) ==> spec_compression_type_value(w, 0) == Parsed::Done(w.len() as int, CompressionType::NONE),
{
    reveal_strlit("'ZLIB'");
    reveal_strlit("\"ZLIB\"");
    reveal_strlit("'LZ4'");
    reveal_strlit("\"LZ4\"");
    reveal_strlit("'NONE'");
    reveal_strlit("\"NONE\"");
    assert(w.subrange(0, w.len() as int) =~= w);
    if spelled(w, "'ZLIB'"@) {
        lemma_spelled_tag(w, 0, w, "'ZLIB'"@);
    }
    if spelled(w, "\"ZLIB\""@) {
        assert(eq_no_case(w[0], "\"ZLIB\""@[0]));
        lemma_tag_nc_mismatch(w, 0, "'ZLIB'"@, 0);
        lemma_spelled_tag(w, 0, w, "\"ZLIB\""@);
    }
    if spelled(w, "'LZ4'"@) {
        assert(eq_no_case(w[1], "'LZ4'"@[1]));
        lemma_tag_nc_mismatch(w, 0, "'ZLIB'"@, 1);
        assert(eq_no_case(w[0], "'LZ4'"@[0]));
        lemma_tag_nc_mismatch(w, 0, "\"ZLIB\""@, 0);
        lemma_spelled_tag(w, 0, w, "'LZ4'"@);
    }
    if spelled(w, "\"LZ4\""@) {
        assert(eq_no_case(w[0], "\"LZ4\""@[0]));
        lemma_tag_nc_mismatch(w, 0, "'ZLIB'"@, 0);
        assert(eq_no_case(w[1], "\"LZ4\""@[1]));
        lemma_tag_nc_mismatch(w, 0, "\"ZLIB\""@, 1);
        assert(eq_no_case(w[0], "\"LZ4\""@[0]));
        lemma_tag_nc_mismatch(w, 0, "'LZ4'"@, 0);
        lemma_spelled_tag(w, 0, w, "\"LZ4\""@);
    }
    if spelled(w, "'NONE'"@) {
        assert(eq_no_case(w[1], "'NONE'"@[1]));
        lemma_tag_nc_mismatch(w, 0, "'ZLIB'"@, 1);
        assert(eq_no_case(w[0], "'NONE'"@[0]));
        lemma_tag_nc_mismatch(w, 0, "\"ZLIB\""@, 0);
        assert(eq_no_case(w[1], "'NONE'"@[1]));
        lemma_tag_nc_mismatch(w, 0, "'LZ4'"@, 1);
        assert(eq_no_case(w[0], "'NONE'"@[0]));
        lemma_tag_nc_mismatch(w, 0, "\"LZ4\""@, 0);
        lemma_spelled_tag(w, 0, w, "'NONE'"@);
    }
    if spelled(w, "\"NONE\""@) {
        assert(eq_no_case(w[0], "\"NONE\""@[0]));
        lemma_tag_nc_mismatch(w, 0, "'ZLIB'"@, 0);
        assert(eq_no_case(w[1], "\"NONE\""@[1]));
        lemma_tag_nc_mismatch(w, 0, "\"ZLIB\""@, 1);
        assert(eq_no_case(w[0], "\"NONE\""@[0]));
        lemma_tag_nc_mismatch(w, 0, "'LZ4'"@, 0);
        assert(eq_no_case(w[1], "\"NONE\""@[1]));
        lemma_tag_nc_mismatch(w, 0, "\"LZ4\""@, 1);
        assert(eq_no_case(w[0], "\"NONE\""@[0]));
        lemma_tag_nc_mismatch(w, 0, "'NONE'"@, 0);
        lemma_spelled_tag(w, 0, w, "\"NONE\""@);
    }
}

} // verus!
