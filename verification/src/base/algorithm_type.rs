//! `ALGORITHM [=] {DEFAULT | INSTANT | INPLACE | COPY}`
use vstd::prelude::*;

use crate::base::error::ParseSQLError;
use crate::base::input::{
    agrees, alt, char_at, has_tag_nc, lemma_tag_nc_mismatch, lemma_tag_nc_of_eq, run_end, str_agrees, ws_end, Input, Parsed, eq_no_case, lemma_spelled_tag, spelled,
};

verus! {

/// parse `ALGORITHM [=] {DEFAULT | INSTANT | INPLACE | COPY}`
#[derive(Clone, Copy, Debug, Eq, Hash, PartialEq, Structural)]
pub enum AlgorithmType {
    Instant,  // alter table only
    Default,
    Inplace,
    Copy,
}

impl DeepView for AlgorithmType {
    type V = AlgorithmType;

    open spec fn deep_view(&self) -> AlgorithmType {
        *self
    }
}

/// `{DEFAULT | INSTANT | INPLACE | COPY}`, ignoring case.
pub open spec fn spec_algorithm(s: Seq<char>, p: int) -> Parsed<AlgorithmType> {
    if has_tag_nc(s, p, "DEFAULT"@) {
        Parsed::Done(p + "DEFAULT"@.len(), AlgorithmType::Default)
    } else if has_tag_nc(s, p, "INSTANT"@) {
        Parsed::Done(p + "INSTANT"@.len(), AlgorithmType::Instant)
    } else if has_tag_nc(s, p, "INPLACE"@) {
        Parsed::Done(p + "INPLACE"@.len(), AlgorithmType::Inplace)
    } else if has_tag_nc(s, p, "COPY"@) {
        Parsed::Done(p + "COPY"@.len(), AlgorithmType::Copy)
    } else {
        Parsed::NoMatch
    }
}

/// `ALGORITHM white space value`, or else `ALGORITHM [ws] = [ws] value`.
pub open spec fn spec_algorithm_type(s: Seq<char>, p: int) -> Parsed<AlgorithmType> {
    let q = p + "ALGORITHM"@.len();
    if has_tag_nc(s, p, "ALGORITHM"@) {
        alt(
            if ws_end(s, q) > q {
                spec_algorithm(s, ws_end(s, q))
            } else {
                Parsed::NoMatch
            },
            if char_at(s, ws_end(s, q), '=') {
                spec_algorithm(s, ws_end(s, ws_end(s, q) + 1))
            } else {
                Parsed::NoMatch
            },
        )
    } else {
        Parsed::NoMatch
    }
}

/// The text `to_string` gives for each algorithm type.
pub open spec fn algorithm_type_text(a: AlgorithmType) -> Seq<char> {
    match a {
        AlgorithmType::Instant => "ALGORITHM INSTANT"@,
        AlgorithmType::Default => "ALGORITHM DEFAULT"@,
        AlgorithmType::Inplace => "ALGORITHM INPLACE"@,
        AlgorithmType::Copy => "ALGORITHM COPY"@,
    }
}

fn algorithm_at(src: &Input, p: usize) -> (r: Option<(usize, AlgorithmType)>)
    requires
        p <= src@.len(),
    ensures
        agrees(r, spec_algorithm(src@, p as int)),
        r matches Some((q, _)) ==> p <= q <= src@.len(),
{
    if src.tag_nc(p, "DEFAULT") {
        Some((p + "DEFAULT".unicode_len(), AlgorithmType::Default))
    } else if src.tag_nc(p, "INSTANT") {
        Some((p + "INSTANT".unicode_len(), AlgorithmType::Instant))
    } else if src.tag_nc(p, "INPLACE") {
        Some((p + "INPLACE".unicode_len(), AlgorithmType::Inplace))
    } else if src.tag_nc(p, "COPY") {
        Some((p + "COPY".unicode_len(), AlgorithmType::Copy))
    } else {
        None
    }
}

pub fn algorithm_type_at(src: &Input, p: usize) -> (r: Option<(usize, AlgorithmType)>)
    requires
        p <= src@.len(),
    ensures
        agrees(r, spec_algorithm_type(src@, p as int)),
        r matches Some((q, _)) ==> p <= q <= src@.len(),
{
    if !src.tag_nc(p, "ALGORITHM") {
        return None;
    }
    let q = p + "ALGORITHM".unicode_len();
    let w = src.skip_ws(q);
    if w > q {
        if let Some(x) = algorithm_at(src, w) {
            return Some(x);
        }
    }
    if src.is_char(w, '=') {
        algorithm_at(src, src.skip_ws(w + 1))
    } else {
        None
    }
}

impl AlgorithmType {
    /// algorithm_option: `ALGORITHM [=] {DEFAULT | INSTANT | INPLACE | COPY}`
    pub fn parse(i: &str) -> (r: Result<(&str, AlgorithmType), ParseSQLError>)
        ensures
            str_agrees(i@, r, spec_algorithm_type(i@, 0)),
    {
        let src = Input::new(i);
        match algorithm_type_at(&src, 0) {
            Some((q, v)) => Ok((src.rest(q), v)),
            None => Err(ParseSQLError::grammar(i)),
        }
    }

    /// The SQL text of the option.
    pub fn to_string(&self) -> (r: String)
        ensures
            r@ == algorithm_type_text(*self),
    {
        match self {
            AlgorithmType::Instant => "ALGORITHM INSTANT".to_owned(),
            AlgorithmType::Default => "ALGORITHM DEFAULT".to_owned(),
            AlgorithmType::Inplace => "ALGORITHM INPLACE".to_owned(),
            AlgorithmType::Copy => "ALGORITHM COPY".to_owned(),
        }
    }
}

/// Parsing the text of an algorithm type gives back that algorithm type and
/// reads the whole text.
pub proof fn lemma_algorithm_type_round_trip(a: AlgorithmType)
    ensures
        spec_algorithm_type(algorithm_type_text(a), 0) == Parsed::Done(
            algorithm_type_text(a).len() as int,
            a,
        ),
{
    reveal_strlit("ALGORITHM");
    reveal_strlit("ALGORITHM INSTANT");
    reveal_strlit("ALGORITHM DEFAULT");
    reveal_strlit("ALGORITHM INPLACE");
    reveal_strlit("ALGORITHM COPY");
    reveal_strlit("DEFAULT");
    reveal_strlit("INSTANT");
    reveal_strlit("INPLACE");
    reveal_strlit("COPY");
    let s = algorithm_type_text(a);
    reveal_with_fuel(run_end, 3);
    lemma_tag_nc_of_eq(s, 0, "ALGORITHM"@);
    match a {
        AlgorithmType::Instant => {
            lemma_tag_nc_mismatch(s, 10, "DEFAULT"@, 0);
            lemma_tag_nc_of_eq(s, 10, "INSTANT"@);
        },
        AlgorithmType::Default => {
            lemma_tag_nc_of_eq(s, 10, "DEFAULT"@);
        },
        AlgorithmType::Inplace => {
            lemma_tag_nc_mismatch(s, 10, "DEFAULT"@, 0);
            lemma_tag_nc_mismatch(s, 10, "INSTANT"@, 2);
            lemma_tag_nc_of_eq(s, 10, "INPLACE"@);
        },
        AlgorithmType::Copy => {
            lemma_tag_nc_mismatch(s, 10, "DEFAULT"@, 0);
            lemma_tag_nc_mismatch(s, 10, "INSTANT"@, 0);
            lemma_tag_nc_mismatch(s, 10, "INPLACE"@, 0);
            lemma_tag_nc_of_eq(s, 10, "COPY"@);
        },
    }
}


/// Each word of the rule, written in any case (`DEFAULT`, `INSTANT`, `INPLACE`, `COPY`), is read as the
/// value it names, the whole word being read.
pub proof fn lemma_algorithm_type_words(w: Seq<char>)
    ensures
        spelled(w, "DEFAULT"@) ==> spec_algorithm(w, 0) == Parsed::Done(w.len() as int, AlgorithmType::Default),
        spelled(w, "INSTANT"@) ==> spec_algorithm(w, 0) == Parsed::Done(w.len() as int, AlgorithmType::Instant),
        spelled(w, "INPLACE"@) ==> spec_algorithm(w, 0) == Parsed::Done(w.len() as int, AlgorithmType::Inplace),
        spelled(w, "COPY"@) ==> spec_algorithm(w, 0) == Parsed::Done(w.len() as int, AlgorithmType::Copy),
{
    reveal_strlit("DEFAULT");
    reveal_strlit("INSTANT");
    reveal_strlit("INPLACE");
    reveal_strlit("COPY");
    assert(w.subrange(0, w.len() as int) =~= w);
    if spelled(w, "DEFAULT"@) {
        lemma_spelled_tag(w, 0, w, "DEFAULT"@);
    }
    if spelled(w, "INSTANT"@) {
        assert(eq_no_case(w[0], "INSTANT"@[0]));
        lemma_tag_nc_mismatch(w, 0, "DEFAULT"@, 0);
        lemma_spelled_tag(w, 0, w, "INSTANT"@);
    }
    if spelled(w, "INPLACE"@) {
        assert(eq_no_case(w[0], "INPLACE"@[0]));
        lemma_tag_nc_mismatch(w, 0, "DEFAULT"@, 0);
        assert(eq_no_case(w[2], "INPLACE"@[2]));
        lemma_tag_nc_mismatch(w, 0, "INSTANT"@, 2);
        lemma_spelled_tag(w, 0, w, "INPLACE"@);
    }
    if spelled(w, "COPY"@) {
        assert(eq_no_case(w[0], "COPY"@[0]));
        lemma_tag_nc_mismatch(w, 0, "DEFAULT"@, 0);
        assert(eq_no_case(w[0], "COPY"@[0]));
        lemma_tag_nc_mismatch(w, 0, "INSTANT"@, 0);
        assert(eq_no_case(w[0], "COPY"@[0]));
        lemma_tag_nc_mismatch(w, 0, "INPLACE"@, 0);
        lemma_spelled_tag(w, 0, w, "COPY"@);
    }
}

} // verus!
