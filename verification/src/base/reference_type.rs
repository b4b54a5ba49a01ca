//! reference_option: `RESTRICT | CASCADE | SET NULL | NO ACTION | SET DEFAULT`
use vstd::prelude::*;

use crate::base::error::ParseSQLError;
use crate::base::input::{
    agrees, blanks, eq_no_case, has_tag_nc, lemma_blanks_end, lemma_spelled_tag,
    lemma_tag_nc_mismatch, lemma_tag_nc_of_eq, run_end, spelled, str_agrees, ws_end, Input, Parsed,
};

verus! {

/// reference_option:
///     `RESTRICT | CASCADE | SET NULL | NO ACTION | SET DEFAULT`
#[derive(Clone, Copy, Debug, Eq, Hash, PartialEq, Structural)]
pub enum ReferenceType {
    Restrict,
    Cascade,
    SetNull,
    NoAction,
    SetDefault,
}

impl DeepView for ReferenceType {
    type V = ReferenceType;

    open spec fn deep_view(&self) -> ReferenceType {
        *self
    }
}

/// `w1 white space w2`, ignoring case; the end position.
pub open spec fn two_words(s: Seq<char>, p: int, w1: Seq<char>, w2: Seq<char>) -> Option<int> {
    let a = p + w1.len();
    if has_tag_nc(s, p, w1) && ws_end(s, a) > a && has_tag_nc(s, ws_end(s, a), w2) {
        Some(ws_end(s, a) + w2.len())
    } else {
        None
    }
}

pub fn two_words_at(src: &Input, p: usize, w1: &str, w2: &str) -> (r: Option<usize>)
    requires
        p <= src@.len(),
    ensures
        r matches Some(q) ==> two_words(src@, p as int, w1@, w2@) == Some(q as int) && p < q
            <= src@.len(),
        r is None ==> two_words(src@, p as int, w1@, w2@) is None,
{
    if !src.tag_nc(p, w1) {
        return None;
    }
    let a = p + w1.unicode_len();
    let b = src.skip_ws(a);
    if b > a && src.tag_nc(b, w2) {
        Some(b + w2.unicode_len())
    } else {
        None
    }
}

/// `RESTRICT | CASCADE | SET NULL | NO ACTION | SET DEFAULT`, tried in this order.
pub open spec fn spec_reference_type(s: Seq<char>, p: int) -> Parsed<ReferenceType> {
    if has_tag_nc(s, p, "RESTRICT"@) {
        Parsed::Done(p + "RESTRICT"@.len(), ReferenceType::Restrict)
    } else if has_tag_nc(s, p, "CASCADE"@) {
        Parsed::Done(p + "CASCADE"@.len(), ReferenceType::Cascade)
    } else if two_words(s, p, "SET"@, "NULL"@) is Some {
        Parsed::Done(two_words(s, p, "SET"@, "NULL"@)->0, ReferenceType::SetNull)
    } else if two_words(s, p, "NO"@, "ACTION"@) is Some {
        Parsed::Done(two_words(s, p, "NO"@, "ACTION"@)->0, ReferenceType::NoAction)
    } else if two_words(s, p, "SET"@, "DEFAULT"@) is Some {
        Parsed::Done(two_words(s, p, "SET"@, "DEFAULT"@)->0, ReferenceType::SetDefault)
    } else {
        Parsed::NoMatch
    }
}

pub fn reference_type_at(src: &Input, p: usize) -> (r: Option<(usize, ReferenceType)>)
    requires
        p <= src@.len(),
    ensures
        agrees(r, spec_reference_type(src@, p as int)),
        r matches Some((q, _)) ==> p <= q <= src@.len(),
{
    if src.tag_nc(p, "RESTRICT") {
        return Some((p + "RESTRICT".unicode_len(), ReferenceType::Restrict));
    }
    if src.tag_nc(p, "CASCADE") {
        return Some((p + "CASCADE".unicode_len(), ReferenceType::Cascade));
    }
    if let Some(q) = two_words_at(src, p, "SET", "NULL") {
        return Some((q, ReferenceType::SetNull));
    }
    if let Some(q) = two_words_at(src, p, "NO", "ACTION") {
        return Some((q, ReferenceType::NoAction));
    }
    if let Some(q) = two_words_at(src, p, "SET", "DEFAULT") {
        return Some((q, ReferenceType::SetDefault));
    }
    None
}

/// The text `to_string` gives for each value.
pub open spec fn reference_type_text(v: ReferenceType) -> Seq<char> {
    match v {
        ReferenceType::Restrict => "RESTRICT"@,
        ReferenceType::Cascade => "CASCADE"@,
        ReferenceType::SetNull => "SET NULL"@,
        ReferenceType::NoAction => "NO ACTION"@,
        ReferenceType::SetDefault => "SET DEFAULT"@,
    }
}

impl ReferenceType {
    /// `RESTRICT | CASCADE | SET NULL | NO ACTION | SET DEFAULT`
    pub fn parse(i: &str) -> (r: Result<(&str, ReferenceType), ParseSQLError>)
        ensures
            str_agrees(i@, r, spec_reference_type(i@, 0)),
    {
        let src = Input::new(i);
        match reference_type_at(&src, 0) {
            Some((q, v)) => Ok((src.rest(q), v)),
            None => Err(ParseSQLError::grammar(i)),
        }
    }

    /// The SQL text of the value.
    pub fn to_string(&self) -> (r: String)
        ensures
            r@ == reference_type_text(*self),
    {
        match self {
            ReferenceType::Restrict => "RESTRICT".to_owned(),
            ReferenceType::Cascade => "CASCADE".to_owned(),
            ReferenceType::SetNull => "SET NULL".to_owned(),
            ReferenceType::NoAction => "NO ACTION".to_owned(),
            ReferenceType::SetDefault => "SET DEFAULT".to_owned(),
        }
    }
}

/// Parsing the text of a value gives back that value and reads the whole text.
pub proof fn lemma_reference_type_round_trip(v: ReferenceType)
    ensures
        spec_reference_type(reference_type_text(v), 0) == Parsed::Done(
            reference_type_text(v).len() as int,
            v,
        ),
{
    reveal_strlit("RESTRICT");
    reveal_strlit("CASCADE");
    reveal_strlit("SET");
    reveal_strlit("NULL");
    reveal_strlit("NO");
    reveal_strlit("ACTION");
    reveal_strlit("DEFAULT");
    reveal_strlit("SET NULL");
    reveal_strlit("NO ACTION");
    reveal_strlit("SET DEFAULT");
    let s = reference_type_text(v);
    reveal_with_fuel(run_end, 3);
    match v {
        ReferenceType::Restrict => {
            lemma_tag_nc_of_eq(s, 0, "RESTRICT"@);
        },
        ReferenceType::Cascade => {
            lemma_tag_nc_mismatch(s, 0, "RESTRICT"@, 0);
            lemma_tag_nc_of_eq(s, 0, "CASCADE"@);
        },
        ReferenceType::SetNull => {
            lemma_tag_nc_mismatch(s, 0, "RESTRICT"@, 0);
            lemma_tag_nc_mismatch(s, 0, "CASCADE"@, 0);
            lemma_tag_nc_of_eq(s, 0, "SET"@);
            lemma_tag_nc_of_eq(s, 4, "NULL"@);
        },
        ReferenceType::NoAction => {
            lemma_tag_nc_mismatch(s, 0, "RESTRICT"@, 0);
            lemma_tag_nc_mismatch(s, 0, "CASCADE"@, 0);
            lemma_tag_nc_mismatch(s, 0, "SET"@, 0);
            lemma_tag_nc_of_eq(s, 0, "NO"@);
            lemma_tag_nc_of_eq(s, 3, "ACTION"@);
        },
        ReferenceType::SetDefault => {
            lemma_tag_nc_mismatch(s, 0, "RESTRICT"@, 0);
            lemma_tag_nc_mismatch(s, 0, "CASCADE"@, 0);
            lemma_tag_nc_of_eq(s, 0, "SET"@);
            lemma_tag_nc_mismatch(s, 4, "NULL"@, 0);
            lemma_tag_nc_mismatch(s, 0, "NO"@, 0);
            lemma_tag_nc_of_eq(s, 4, "DEFAULT"@);
        },
    }
}


/// `RESTRICT` and `CASCADE`, in any case, are read as the action they name.
pub proof fn lemma_reference_type_one_word(w: Seq<char>)
    ensures
        spelled(w, "RESTRICT"@) ==> spec_reference_type(w, 0) == Parsed::Done(
            w.len() as int,
            ReferenceType::Restrict,
        ),
        spelled(w, "CASCADE"@) ==> spec_reference_type(w, 0) == Parsed::Done(
            w.len() as int,
            ReferenceType::Cascade,
        ),
{
    reveal_strlit("RESTRICT");
    reveal_strlit("CASCADE");
    assert(w.subrange(0, w.len() as int) =~= w);
    if spelled(w, "RESTRICT"@) {
        lemma_spelled_tag(w, 0, w, "RESTRICT"@);
    }
    if spelled(w, "CASCADE"@) {
        assert(eq_no_case(w[0], "CASCADE"@[0]));
        lemma_tag_nc_mismatch(w, 0, "RESTRICT"@, 0);
        lemma_spelled_tag(w, 0, w, "CASCADE"@);
    }
}

/// `SET NULL`, `NO ACTION` and `SET DEFAULT`, in any case and with any white
/// space between the words, are read as the action they name.
pub proof fn lemma_reference_type_two_words(w1: Seq<char>, b: Seq<char>, w2: Seq<char>)
    requires
        blanks(b),
    ensures
        spelled(w1, "SET"@) && spelled(w2, "NULL"@) ==> spec_reference_type(w1 + b + w2, 0)
            == Parsed::Done((w1 + b + w2).len() as int, ReferenceType::SetNull),
        spelled(w1, "NO"@) && spelled(w2, "ACTION"@) ==> spec_reference_type(w1 + b + w2, 0)
            == Parsed::Done((w1 + b + w2).len() as int, ReferenceType::NoAction),
        spelled(w1, "SET"@) && spelled(w2, "DEFAULT"@) ==> spec_reference_type(w1 + b + w2, 0)
            == Parsed::Done((w1 + b + w2).len() as int, ReferenceType::SetDefault),
{
    reveal_strlit("RESTRICT");
    reveal_strlit("CASCADE");
    reveal_strlit("SET");
    reveal_strlit("NULL");
    reveal_strlit("NO");
    reveal_strlit("ACTION");
    reveal_strlit("DEFAULT");
    let s = w1 + b + w2;
    let a = w1.len() as int;
    let c = a + b.len();
    assert(s.subrange(0, a) =~= w1);
    assert(s.subrange(a, c) =~= b);
    assert(s.subrange(c, s.len() as int) =~= w2);
    if (spelled(w1, "SET"@) || spelled(w1, "NO"@)) && (spelled(w2, "NULL"@) || spelled(w2,
        "ACTION"@) || spelled(w2, "DEFAULT"@)) {
        assert(s[0] == w1[0] && s[c] == w2[0]);
        if spelled(w2, "NULL"@) {
            assert(eq_no_case(w2[0], "NULL"@[0]));
        }
        if spelled(w2, "ACTION"@) {
            assert(eq_no_case(w2[0], "ACTION"@[0]));
        }
        if spelled(w2, "DEFAULT"@) {
            assert(eq_no_case(w2[0], "DEFAULT"@[0]));
        }
        lemma_blanks_end(s, a, b);
        if spelled(w1, "SET"@) {
            assert(eq_no_case(w1[0], "SET"@[0]));
            lemma_spelled_tag(s, 0, w1, "SET"@);
            lemma_tag_nc_mismatch(s, 0, "NO"@, 0);
        } else {
            assert(eq_no_case(w1[0], "NO"@[0]));
            lemma_spelled_tag(s, 0, w1, "NO"@);
            lemma_tag_nc_mismatch(s, 0, "SET"@, 0);
        }
        lemma_tag_nc_mismatch(s, 0, "RESTRICT"@, 0);
        lemma_tag_nc_mismatch(s, 0, "CASCADE"@, 0);
        if spelled(w2, "NULL"@) {
            lemma_spelled_tag(s, c, w2, "NULL"@);
        }
        if spelled(w2, "ACTION"@) {
            lemma_spelled_tag(s, c, w2, "ACTION"@);
            lemma_tag_nc_mismatch(s, c, "NULL"@, 0);
        }
        if spelled(w2, "DEFAULT"@) {
            lemma_spelled_tag(s, c, w2, "DEFAULT"@);
            lemma_tag_nc_mismatch(s, c, "NULL"@, 0);
        }
    }
}

} // verus!
