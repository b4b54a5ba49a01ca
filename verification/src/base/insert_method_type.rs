//! parse `INSERT_METHOD [=] { NO | FIRST | LAST }`
use vstd::prelude::*;

use crate::base::error::ParseSQLError;
use crate::base::input::{
    agrees, alt, char_at, has_tag_nc, lemma_tag_nc_mismatch, lemma_tag_nc_of_eq, run_end, str_agrees, ws_end, Input, Parsed, eq_no_case, lemma_spelled_tag, spelled,
};

verus! {

/// parse `INSERT_METHOD [=] { NO | FIRST | LAST }`
#[derive(Clone, Copy, Debug, Eq, Hash, PartialEq, Structural)]
pub enum InsertMethodType {
    No,
    First,
    Last,
}

impl DeepView for InsertMethodType {
    type V = InsertMethodType;

    open spec fn deep_view(&self) -> InsertMethodType {
        *self
    }
}

/// `{NO | FIRST | LAST}`, ignoring case, tried in this order.
pub open spec fn spec_insert_method_type_value(s: Seq<char>, p: int) -> Parsed<InsertMethodType> {
    if has_tag_nc(s, p, "NO"@) {
        Parsed::Done(p + "NO"@.len(), InsertMethodType::No)
    } else if has_tag_nc(s, p, "FIRST"@) {
        Parsed::Done(p + "FIRST"@.len(), InsertMethodType::First)
    } else if has_tag_nc(s, p, "LAST"@) {
        Parsed::Done(p + "LAST"@.len(), InsertMethodType::Last)
    } else {
        Parsed::NoMatch
    }
}

fn insert_method_type_value_at(src: &Input, p: usize) -> (r: Option<(usize, InsertMethodType)>)
    requires
        p <= src@.len(),
    ensures
        agrees(r, spec_insert_method_type_value(src@, p as int)),
        r matches Some((q, _)) ==> p <= q <= src@.len(),
{
    if src.tag_nc(p, "NO") {
        Some((p + "NO".unicode_len(), InsertMethodType::No))
    } else if src.tag_nc(p, "FIRST") {
        Some((p + "FIRST".unicode_len(), InsertMethodType::First))
    } else if src.tag_nc(p, "LAST") {
        Some((p + "LAST".unicode_len(), InsertMethodType::Last))
    } else {
        None
    }
}

/// `INSERT_METHOD [ws] [=] [ws] value`.
pub open spec fn spec_insert_method_type(s: Seq<char>, p: int) -> Parsed<InsertMethodType> {
    let a = ws_end(s, p + "INSERT_METHOD"@.len());
    let b = if char_at(s, a, '=') {
        a + 1
    } else {
        a
    };
    if has_tag_nc(s, p, "INSERT_METHOD"@) {
        spec_insert_method_type_value(s, ws_end(s, b))
    } else {
        Parsed::NoMatch
    }
}

pub fn insert_method_type_at(src: &Input, p: usize) -> (r: Option<(usize, InsertMethodType)>)
    requires
        p <= src@.len(),
    ensures
        agrees(r, spec_insert_method_type(src@, p as int)),
        r matches Some((q, _)) ==> p <= q <= src@.len(),
{
    if !src.tag_nc(p, "INSERT_METHOD") {
        return None;
    }
    let a = src.skip_ws(p + "INSERT_METHOD".unicode_len());
    let b = if src.is_char(a, '=') {
        a + 1
    } else {
        a
    };
    insert_method_type_value_at(src, src.skip_ws(b))
}

/// The text `to_string` gives for each value.
pub open spec fn insert_method_type_text(v: InsertMethodType) -> Seq<char> {
    match v {
        InsertMethodType::No => "INSERT_METHOD NO"@,
        InsertMethodType::First => "INSERT_METHOD FIRST"@,
        InsertMethodType::Last => "INSERT_METHOD LAST"@,
    }
}

impl InsertMethodType {
    /// parse `INSERT_METHOD ... {NO | FIRST | LAST}`
    pub fn parse(i: &str) -> (r: Result<(&str, InsertMethodType), ParseSQLError>)
        ensures
            str_agrees(i@, r, spec_insert_method_type(i@, 0)),
    {
        let src = Input::new(i);
        match insert_method_type_at(&src, 0) {
            Some((q, v)) => Ok((src.rest(q), v)),
            None => Err(ParseSQLError::grammar(i)),
        }
    }

    /// The SQL text of the value.
    pub fn to_string(&self) -> (r: String)
        ensures
            r@ == insert_method_type_text(*self),
    {
        match self {
            InsertMethodType::No => "INSERT_METHOD NO".to_owned(),
            InsertMethodType::First => "INSERT_METHOD FIRST".to_owned(),
            InsertMethodType::Last => "INSERT_METHOD LAST".to_owned(),
        }
    }
}

/// Parsing the text of a value gives back that value and reads the whole text.
pub proof fn lemma_insert_method_type_round_trip(v: InsertMethodType)
    ensures
        spec_insert_method_type(insert_method_type_text(v), 0) == Parsed::Done(insert_method_type_text(v).len() as int, v),
{
    reveal_strlit("FIRST");
    reveal_strlit("INSERT_METHOD");
    reveal_strlit("INSERT_METHOD FIRST");
    reveal_strlit("INSERT_METHOD LAST");
    reveal_strlit("INSERT_METHOD NO");
    reveal_strlit("LAST");
    reveal_strlit("NO");
    let s = insert_method_type_text(v);
    reveal_with_fuel(run_end, 3);
    match v {
        InsertMethodType::No => {
            lemma_tag_nc_of_eq(s, 0, "INSERT_METHOD"@);
            lemma_tag_nc_of_eq(s, 14, "NO"@);
        },
        InsertMethodType::First => {
            lemma_tag_nc_of_eq(s, 0, "INSERT_METHOD"@);
            lemma_tag_nc_mismatch(s, 14, "NO"@, 0);
            lemma_tag_nc_of_eq(s, 14, "FIRST"@);
        },
        InsertMethodType::Last => {
            lemma_tag_nc_of_eq(s, 0, "INSERT_METHOD"@);
            lemma_tag_nc_mismatch(s, 14, "NO"@, 0);
            lemma_tag_nc_of_eq(s, 14, "LAST"@);
        },
    }
}



/// Each word of the rule, written in any case (`NO`, `FIRST`, `LAST`), is read as the
/// value it names, the whole word being read.
pub proof fn lemma_insert_method_type_words(w: Seq<char>)
    ensures
        spelled(w, "NO"@) ==> spec_insert_method_type_value(w, 0) == Parsed::Done(w.len() as int, InsertMethodType::No),
        spelled(w, "FIRST"@) ==> spec_insert_method_type_value(w, 0) == Parsed::Done(w.len() as int, InsertMethodType::First),
        spelled(w, "LAST"@) ==> spec_insert_method_type_value(w, 0) == Parsed::Done(w.len() as int, InsertMethodType::Last),
{
    reveal_strlit("NO");
    reveal_strlit("FIRST");
    reveal_strlit("LAST");
    assert(w.subrange(0, w.len() as int) =~= w);
    if spelled(w, "NO"@) {
        lemma_spelled_tag(w, 0, w, "NO"@);
    }
    if spelled(w, "FIRST"@) {
        assert(eq_no_case(w[0], "FIRST"@[0]));
        lemma_tag_nc_mismatch(w, 0, "NO"@, 0);
        lemma_spelled_tag(w, 0, w, "FIRST"@);
    }
    if spelled(w, "LAST"@) {
        assert(eq_no_case(w[0], "LAST"@[0]));
        lemma_tag_nc_mismatch(w, 0, "NO"@, 0);
        assert(eq_no_case(w[0], "LAST"@[0]));
        lemma_tag_nc_mismatch(w, 0, "FIRST"@, 0);
        lemma_spelled_tag(w, 0, w, "LAST"@);
    }
}

} // verus!
