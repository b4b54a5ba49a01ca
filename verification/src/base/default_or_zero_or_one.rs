//! {DEFAULT | 0 | 1}
use vstd::prelude::*;

use crate::base::error::ParseSQLError;
use crate::base::input::{
    agrees, alt, char_at, has_tag_nc, lemma_tag_nc_mismatch, lemma_tag_nc_of_eq, run_end, str_agrees, ws_end, Input, Parsed, eq_no_case, lemma_spelled_tag, spelled,
};

verus! {

/// {DEFAULT | 0 | 1}
#[derive(Clone, Copy, Debug, Eq, Hash, PartialEq, Structural)]
pub enum DefaultOrZeroOrOne {
    Default,
    Zero,
    One,
}

impl DeepView for DefaultOrZeroOrOne {
    type V = DefaultOrZeroOrOne;

    open spec fn deep_view(&self) -> DefaultOrZeroOrOne {
        *self
    }
}

/// `{0 | 1 | DEFAULT}`, ignoring case, tried in this order.
pub open spec fn spec_default_or_zero_or_one(s: Seq<char>, p: int) -> Parsed<DefaultOrZeroOrOne> {
    if has_tag_nc(s, p, "0"@) {
        Parsed::Done(p + "0"@.len(), DefaultOrZeroOrOne::Zero)
    } else if has_tag_nc(s, p, "1"@) {
        Parsed::Done(p + "1"@.len(), DefaultOrZeroOrOne::One)
    } else if has_tag_nc(s, p, "DEFAULT"@) {
        Parsed::Done(p + "DEFAULT"@.len(), DefaultOrZeroOrOne::Default)
    } else {
        Parsed::NoMatch
    }
}

pub fn default_or_zero_or_one_at(src: &Input, p: usize) -> (r: Option<(usize, DefaultOrZeroOrOne)>)
    requires
        p <= src@.len(),
    ensures
        agrees(r, spec_default_or_zero_or_one(src@, p as int)),
        r matches Some((q, _)) ==> p <= q <= src@.len(),
{
    if src.tag_nc(p, "0") {
        Some((p + "0".unicode_len(), DefaultOrZeroOrOne::Zero))
    } else if src.tag_nc(p, "1") {
        Some((p + "1".unicode_len(), DefaultOrZeroOrOne::One))
    } else if src.tag_nc(p, "DEFAULT") {
        Some((p + "DEFAULT".unicode_len(), DefaultOrZeroOrOne::Default))
    } else {
        None
    }
}

/// The text `to_string` gives for each value.
pub open spec fn default_or_zero_or_one_text(v: DefaultOrZeroOrOne) -> Seq<char> {
    match v {
        DefaultOrZeroOrOne::Default => "DEFAULT"@,
        DefaultOrZeroOrOne::Zero => "0"@,
        DefaultOrZeroOrOne::One => "1"@,
    }
}

impl DefaultOrZeroOrOne {
    /// parse `{0 | 1 | DEFAULT}`
    pub fn parse(i: &str) -> (r: Result<(&str, DefaultOrZeroOrOne), ParseSQLError>)
        ensures
            str_agrees(i@, r, spec_default_or_zero_or_one(i@, 0)),
    {
        let src = Input::new(i);
        match default_or_zero_or_one_at(&src, 0) {
            Some((q, v)) => Ok((src.rest(q), v)),
            None => Err(ParseSQLError::grammar(i)),
        }
    }

    /// The SQL text of the value.
    pub fn to_string(&self) -> (r: String)
        ensures
            r@ == default_or_zero_or_one_text(*self),
    {
        match self {
            DefaultOrZeroOrOne::Default => "DEFAULT".to_owned(),
            DefaultOrZeroOrOne::Zero => "0".to_owned(),
            DefaultOrZeroOrOne::One => "1".to_owned(),
        }
    }
}

/// Parsing the text of a value gives back that value and reads the whole text.
pub proof fn lemma_default_or_zero_or_one_round_trip(v: DefaultOrZeroOrOne)
    ensures
        spec_default_or_zero_or_one(default_or_zero_or_one_text(v), 0) == Parsed::Done(default_or_zero_or_one_text(v).len() as int, v),
{
    reveal_strlit("0");
    reveal_strlit("1");
    reveal_strlit("DEFAULT");
    let s = default_or_zero_or_one_text(v);
    reveal_with_fuel(run_end, 3);
    match v {
        DefaultOrZeroOrOne::Default => {
            lemma_tag_nc_mismatch(s, 0, "0"@, 0);
            lemma_tag_nc_mismatch(s, 0, "1"@, 0);
            lemma_tag_nc_of_eq(s, 0, "DEFAULT"@);
        },
        DefaultOrZeroOrOne::Zero => {
            lemma_tag_nc_of_eq(s, 0, "0"@);
        },
        DefaultOrZeroOrOne::One => {
            lemma_tag_nc_mismatch(s, 0, "0"@, 0);
            lemma_tag_nc_of_eq(s, 0, "1"@);
        },
    }
}



/// Each word of the rule, written in any case (`0`, `1`, `DEFAULT`), is read as the
/// value it names, the whole word being read.
pub proof fn lemma_default_or_zero_or_one_words(w: Seq<char>)
    ensures
        spelled(w, "0"@) ==> spec_default_or_zero_or_one(w, 0) == Parsed::Done(w.len() as int, DefaultOrZeroOrOne::Zero),
        spelled(w, "1"@) ==> spec_default_or_zero_or_one(w, 0) == Parsed::Done(w.len() as int, DefaultOrZeroOrOne::One),
        spelled(w, "DEFAULT"@) ==> spec_default_or_zero_or_one(w, 0) == Parsed::Done(w.len() as int, DefaultOrZeroOrOne::Default),
{
    reveal_strlit("0");
    reveal_strlit("1");
    reveal_strlit("DEFAULT");
    assert(w.subrange(0, w.len() as int) =~= w);
    if spelled(w, "0"@) {
        lemma_spelled_tag(w, 0, w, "0"@);
    }
    if spelled(w, "1"@) {
        assert(eq_no_case(w[0], "1"@[0]));
        lemma_tag_nc_mismatch(w, 0, "0"@, 0);
        lemma_spelled_tag(w, 0, w, "1"@);
    }
    if spelled(w, "DEFAULT"@) {
        assert(eq_no_case(w[0], "DEFAULT"@[0]));
        lemma_tag_nc_mismatch(w, 0, "0"@, 0);
        assert(eq_no_case(w[0], "DEFAULT"@[0]));
        lemma_tag_nc_mismatch(w, 0, "1"@, 0);
        lemma_spelled_tag(w, 0, w, "DEFAULT"@);
    }
}

} // verus!
