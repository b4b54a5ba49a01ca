//! parse `[MATCH FULL | MATCH PARTIAL | MATCH SIMPLE]`
use vstd::prelude::*;

use crate::base::error::ParseSQLError;
use crate::base::input::{
    agrees, alt, char_at, has_tag_nc, lemma_tag_nc_mismatch, lemma_tag_nc_of_eq, run_end, str_agrees, ws_end, Input, Parsed, eq_no_case, lemma_spelled_tag, spelled,
};

verus! {

/// parse `[MATCH FULL | MATCH PARTIAL | MATCH SIMPLE]`
#[derive(Clone, Copy, Debug, Eq, Hash, PartialEq, Structural)]
pub enum MatchType {
    Full,
    Partial,
    Simple,
}

impl DeepView for MatchType {
    type V = MatchType;

    open spec fn deep_view(&self) -> MatchType {
        *self
    }
}

/// `{FULL | PARTIAL | SIMPLE}`, ignoring case, tried in this order.
pub open spec fn spec_match_type_value(s: Seq<char>, p: int) -> Parsed<MatchType> {
    if has_tag_nc(s, p, "FULL"@) {
        Parsed::Done(p + "FULL"@.len(), MatchType::Full)
    } else if has_tag_nc(s, p, "PARTIAL"@) {
        Parsed::Done(p + "PARTIAL"@.len(), MatchType::Partial)
    } else if has_tag_nc(s, p, "SIMPLE"@) {
        Parsed::Done(p + "SIMPLE"@.len(), MatchType::Simple)
    } else {
        Parsed::NoMatch
    }
}

fn match_type_value_at(src: &Input, p: usize) -> (r: Option<(usize, MatchType)>)
    requires
        p <= src@.len(),
    ensures
        agrees(r, spec_match_type_value(src@, p as int)),
        r matches Some((q, _)) ==> p <= q <= src@.len(),
{
    if src.tag_nc(p, "FULL") {
        Some((p + "FULL".unicode_len(), MatchType::Full))
    } else if src.tag_nc(p, "PARTIAL") {
        Some((p + "PARTIAL".unicode_len(), MatchType::Partial))
    } else if src.tag_nc(p, "SIMPLE") {
        Some((p + "SIMPLE".unicode_len(), MatchType::Simple))
    } else {
        None
    }
}

/// `MATCH white space value`.
pub open spec fn spec_match_type(s: Seq<char>, p: int) -> Parsed<MatchType> {
    let q = p + "MATCH"@.len();
    if has_tag_nc(s, p, "MATCH"@) && ws_end(s, q) > q {
        spec_match_type_value(s, ws_end(s, q))
    } else {
        Parsed::NoMatch
    }
}

pub fn match_type_at(src: &Input, p: usize) -> (r: Option<(usize, MatchType)>)
    requires
        p <= src@.len(),
    ensures
        agrees(r, spec_match_type(src@, p as int)),
        r matches Some((q, _)) ==> p <= q <= src@.len(),
{
    if !src.tag_nc(p, "MATCH") {
        return None;
    }
    let q = p + "MATCH".unicode_len();
    let w = src.skip_ws(q);
    if w == q {
        return None;
    }
    match_type_value_at(src, w)
}

/// The text `to_string` gives for each value.
pub open spec fn match_type_text(v: MatchType) -> Seq<char> {
    match v {
        MatchType::Full => "MATCH FULL"@,
        MatchType::Partial => "MATCH PARTIAL"@,
        MatchType::Simple => "MATCH SIMPLE"@,
    }
}

impl MatchType {
    /// parse `MATCH ... {FULL | PARTIAL | SIMPLE}`
    pub fn parse(i: &str) -> (r: Result<(&str, MatchType), ParseSQLError>)
        ensures
            str_agrees(i@, r, spec_match_type(i@, 0)),
    {
        let src = Input::new(i);
        match match_type_at(&src, 0) {
            Some((q, v)) => Ok((src.rest(q), v)),
            None => Err(ParseSQLError::grammar(i)),
        }
    }

    /// The SQL text of the value.
    pub fn to_string(&self) -> (r: String)
        ensures
            r@ == match_type_text(*self),
    {
        match self {
            MatchType::Full => "MATCH FULL".to_owned(),
            MatchType::Partial => "MATCH PARTIAL".to_owned(),
            MatchType::Simple => "MATCH SIMPLE".to_owned(),
        }
    }
}

/// Parsing the text of a value gives back that value and reads the whole text.
pub proof fn lemma_match_type_round_trip(v: MatchType)
    ensures
        spec_match_type(match_type_text(v), 0) == Parsed::Done(match_type_text(v).len() as int, v),
{
    reveal_strlit("FULL");
    reveal_strlit("MATCH");
    reveal_strlit("MATCH FULL");
    reveal_strlit("MATCH PARTIAL");
    reveal_strlit("MATCH SIMPLE");
    reveal_strlit("PARTIAL");
    reveal_strlit("SIMPLE");
    let s = match_type_text(v);
    reveal_with_fuel(run_end, 3);
    match v {
        MatchType::Full => {
            lemma_tag_nc_of_eq(s, 0, "MATCH"@);
            lemma_tag_nc_of_eq(s, 6, "FULL"@);
        },
        MatchType::Partial => {
            lemma_tag_nc_of_eq(s, 0, "MATCH"@);
            lemma_tag_nc_mismatch(s, 6, "FULL"@, 0);
            lemma_tag_nc_of_eq(s, 6, "PARTIAL"@);
        },
        MatchType::Simple => {
            lemma_tag_nc_of_eq(s, 0, "MATCH"@);
            lemma_tag_nc_mismatch(s, 6, "FULL"@, 0);
            lemma_tag_nc_of_eq(s, 6, "SIMPLE"@);
        },
    }
}



/// Each word of the rule, written in any case (`FULL`, `PARTIAL`, `SIMPLE`), is read as the
/// value it names, the whole word being read.
pub proof fn lemma_match_type_words(w: Seq<char>)
    ensures
        spelled(w, "FULL"@) ==> spec_match_type_value(w, 0) == Parsed::Done(w.len() as int, MatchType::Full),
        spelled(w, "PARTIAL"@) ==> spec_match_type_value(w, 0) == Parsed::Done(w.len() as int, MatchType::Partial),
        spelled(w, "SIMPLE"@) ==> spec_match_type_value(w, 0) == Parsed::Done(w.len() as int, MatchType::Simple),
{
    reveal_strlit("FULL");
    reveal_strlit("PARTIAL");
    reveal_strlit("SIMPLE");
    assert(w.subrange(0, w.len() as int) =~= w);
    if spelled(w, "FULL"@) {
        lemma_spelled_tag(w, 0, w, "FULL"@);
    }
    if spelled(w, "PARTIAL"@) {
        assert(eq_no_case(w[0], "PARTIAL"@[0]));
        lemma_tag_nc_mismatch(w, 0, "FULL"@, 0);
        lemma_spelled_tag(w, 0, w, "PARTIAL"@);
    }
    if spelled(w, "SIMPLE"@) {
        assert(eq_no_case(w[0], "SIMPLE"@[0]));
        lemma_tag_nc_mismatch(w, 0, "FULL"@, 0);
        assert(eq_no_case(w[0], "SIMPLE"@[0]));
        lemma_tag_nc_mismatch(w, 0, "PARTIAL"@, 0);
        lemma_spelled_tag(w, 0, w, "SIMPLE"@);
    }
}

} // verus!
