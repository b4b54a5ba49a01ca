//! lock_option: parse `LOCK [=] {DEFAULT | NONE | SHARED | EXCLUSIVE}`
use vstd::prelude::*;

use crate::base::error::ParseSQLError;
use crate::base::input::{
    agrees, alt, char_at, has_tag_nc, lemma_tag_nc_mismatch, lemma_tag_nc_of_eq, run_end, str_agrees, ws_end, Input, Parsed, eq_no_case, lemma_spelled_tag, spelled,
};

verus! {

/// lock_option: parse `LOCK [=] {DEFAULT | NONE | SHARED | EXCLUSIVE}`
#[derive(Clone, Copy, Debug, Eq, Hash, PartialEq, Structural)]
pub enum LockType {
    Default,
    NoLock,
    Shared,
    Exclusive,
}

impl DeepView for LockType {
    type V = LockType;

    open spec fn deep_view(&self) -> LockType {
        *self
    }
}

/// `{DEFAULT | NONE | SHARED | EXCLUSIVE}`, ignoring case, tried in this order.
pub open spec fn spec_lock_type_value(s: Seq<char>, p: int) -> Parsed<LockType> {
    if has_tag_nc(s, p, "DEFAULT"@) {
        Parsed::Done(p + "DEFAULT"@.len(), LockType::Default)
    } else if has_tag_nc(s, p, "NONE"@) {
        Parsed::Done(p + "NONE"@.len(), LockType::NoLock)
    } else if has_tag_nc(s, p, "SHARED"@) {
        Parsed::Done(p + "SHARED"@.len(), LockType::Shared)
    } else if has_tag_nc(s, p, "EXCLUSIVE"@) {
        Parsed::Done(p + "EXCLUSIVE"@.len(), LockType::Exclusive)
    } else {
        Parsed::NoMatch
    }
}

fn lock_type_value_at(src: &Input, p: usize) -> (r: Option<(usize, LockType)>)
    requires
        p <= src@.len(),
    ensures
        agrees(r, spec_lock_type_value(src@, p as int)),
        r matches Some((q, _)) ==> p <= q <= src@.len(),
{
    if src.tag_nc(p, "DEFAULT") {
        Some((p + "DEFAULT".unicode_len(), LockType::Default))
    } else if src.tag_nc(p, "NONE") {
        Some((p + "NONE".unicode_len(), LockType::NoLock))
    } else if src.tag_nc(p, "SHARED") {
        Some((p + "SHARED".unicode_len(), LockType::Shared))
    } else if src.tag_nc(p, "EXCLUSIVE") {
        Some((p + "EXCLUSIVE".unicode_len(), LockType::Exclusive))
    } else {
        None
    }
}

/// `LOCK white space value`, or else `LOCK [ws] = [ws] value`.
pub open spec fn spec_lock_type(s: Seq<char>, p: int) -> Parsed<LockType> {
    let q = p + "LOCK"@.len();
    if has_tag_nc(s, p, "LOCK"@) {
        alt(
            if ws_end(s, q) > q {
                spec_lock_type_value(s, ws_end(s, q))
            } else {
                Parsed::NoMatch
            },
            if char_at(s, ws_end(s, q), '=') {
                spec_lock_type_value(s, ws_end(s, ws_end(s, q) + 1))
            } else {
                Parsed::NoMatch
            },
        )
    } else {
        Parsed::NoMatch
    }
}

pub fn lock_type_at(src: &Input, p: usize) -> (r: Option<(usize, LockType)>)
    requires
        p <= src@.len(),
    ensures
        agrees(r, spec_lock_type(src@, p as int)),
        r matches Some((q, _)) ==> p <= q <= src@.len(),
{
    if !src.tag_nc(p, "LOCK") {
        return None;
    }
    let q = p + "LOCK".unicode_len();
    let w = src.skip_ws(q);
    if w > q {
        if let Some(x) = lock_type_value_at(src, w) {
            return Some(x);
        }
    }
    if src.is_char(w, '=') {
        lock_type_value_at(src, src.skip_ws(w + 1))
    } else {
        None
    }
}

/// The text `to_string` gives for each value.
pub open spec fn lock_type_text(v: LockType) -> Seq<char> {
    match v {
        LockType::Default => "LOCK DEFAULT"@,
        LockType::NoLock => "LOCK NONE"@,
        LockType::Shared => "LOCK SHARED"@,
        LockType::Exclusive => "LOCK EXCLUSIVE"@,
    }
}

impl LockType {
    /// parse `LOCK ... {DEFAULT | NONE | SHARED | EXCLUSIVE}`
    pub fn parse(i: &str) -> (r: Result<(&str, LockType), ParseSQLError>)
        ensures
            str_agrees(i@, r, spec_lock_type(i@, 0)),
    {
        let src = Input::new(i);
        match lock_type_at(&src, 0) {
            Some((q, v)) => Ok((src.rest(q), v)),
            None => Err(ParseSQLError::grammar(i)),
        }
    }

    /// The SQL text of the value.
    pub fn to_string(&self) -> (r: String)
        ensures
            r@ == lock_type_text(*self),
    {
        match self {
            LockType::Default => "LOCK DEFAULT".to_owned(),
            LockType::NoLock => "LOCK NONE".to_owned(),
            LockType::Shared => "LOCK SHARED".to_owned(),
            LockType::Exclusive => "LOCK EXCLUSIVE".to_owned(),
        }
    }
}

/// Parsing the text of a value gives back that value and reads the whole text.
pub proof fn lemma_lock_type_round_trip(v: LockType)
    ensures
        spec_lock_type(lock_type_text(v), 0) == Parsed::Done(lock_type_text(v).len() as int, v),
{
    reveal_strlit("DEFAULT");
    reveal_strlit("EXCLUSIVE");
    reveal_strlit("LOCK");
    reveal_strlit("LOCK DEFAULT");
    reveal_strlit("LOCK EXCLUSIVE");
    reveal_strlit("LOCK NONE");
    reveal_strlit("LOCK SHARED");
    reveal_strlit("NONE");
    reveal_strlit("SHARED");
    let s = lock_type_text(v);
    reveal_with_fuel(run_end, 3);
    match v {
        LockType::Default => {
            lemma_tag_nc_of_eq(s, 0, "LOCK"@);
            lemma_tag_nc_of_eq(s, 5, "DEFAULT"@);
        },
        LockType::NoLock => {
            lemma_tag_nc_of_eq(s, 0, "LOCK"@);
            lemma_tag_nc_of_eq(s, 5, "NONE"@);
        },
        LockType::Shared => {
            lemma_tag_nc_of_eq(s, 0, "LOCK"@);
            lemma_tag_nc_mismatch(s, 5, "NONE"@, 0);
            lemma_tag_nc_of_eq(s, 5, "SHARED"@);
        },
        LockType::Exclusive => {
            lemma_tag_nc_of_eq(s, 0, "LOCK"@);
            lemma_tag_nc_mismatch(s, 5, "DEFAULT"@, 0);
            lemma_tag_nc_mismatch(s, 5, "NONE"@, 0);
            lemma_tag_nc_mismatch(s, 5, "SHARED"@, 0);
            lemma_tag_nc_of_eq(s, 5, "EXCLUSIVE"@);
        },
    }
}



/// Each word of the rule, written in any case (`DEFAULT`, `NONE`, `SHARED`, `EXCLUSIVE`), is read as the
/// value it names, the whole word being read.
pub proof fn lemma_lock_type_words(w: Seq<char>)
    ensures
        spelled(w, "DEFAULT"@) ==> spec_lock_type_value(w, 0) == Parsed::Done(w.len() as int, LockType::Default),
        spelled(w, "NONE"@) ==> spec_lock_type_value(w, 0) == Parsed::Done(w.len() as int, LockType::NoLock),
        spelled(w, "SHARED"@) ==> spec_lock_type_value(w, 0) == Parsed::Done(w.len() as int, LockType::Shared),
        spelled(w, "EXCLUSIVE"@) ==> spec_lock_type_value(w, 0) == Parsed::Done(w.len() as int, LockType::Exclusive),
{
    reveal_strlit("DEFAULT");
    reveal_strlit("NONE");
    reveal_strlit("SHARED");
    reveal_strlit("EXCLUSIVE");
    assert(w.subrange(0, w.len() as int) =~= w);
    if spelled(w, "DEFAULT"@) {
        lemma_spelled_tag(w, 0, w, "DEFAULT"@);
    }
    if spelled(w, "NONE"@) {
        assert(eq_no_case(w[0], "NONE"@[0]));
        lemma_tag_nc_mismatch(w, 0, "DEFAULT"@, 0);
        lemma_spelled_tag(w, 0, w, "NONE"@);
    }
    if spelled(w, "SHARED"@) {
        assert(eq_no_case(w[0], "SHARED"@[0]));
        lemma_tag_nc_mismatch(w, 0, "DEFAULT"@, 0);
        assert(eq_no_case(w[0], "SHARED"@[0]));
        lemma_tag_nc_mismatch(w, 0, "NONE"@, 0);
        lemma_spelled_tag(w, 0, w, "SHARED"@);
    }
    if spelled(w, "EXCLUSIVE"@) {
        assert(eq_no_case(w[0], "EXCLUSIVE"@[0]));
        lemma_tag_nc_mismatch(w, 0, "DEFAULT"@, 0);
        assert(eq_no_case(w[0], "EXCLUSIVE"@[0]));
        lemma_tag_nc_mismatch(w, 0, "NONE"@, 0);
        assert(eq_no_case(w[0], "EXCLUSIVE"@[0]));
        lemma_tag_nc_mismatch(w, 0, "SHARED"@, 0);
        lemma_spelled_tag(w, 0, w, "EXCLUSIVE"@);
    }
}

} // verus!
