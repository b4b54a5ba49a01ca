//! {VISIBLE | INVISIBLE}
use vstd::prelude::*;

use crate::base::error::ParseSQLError;
use crate::base::input::{
    agrees, alt, char_at, has_tag_nc, lemma_tag_nc_mismatch, lemma_tag_nc_of_eq, run_end, str_agrees, ws_end, Input, Parsed, eq_no_case, lemma_spelled_tag, spelled,
};

verus! {

/// {VISIBLE | INVISIBLE}
#[derive(Clone, Copy, Debug, Eq, Hash, PartialEq, Structural)]
pub enum VisibleType {
    Visible,
    Invisible,
}

impl DeepView for VisibleType {
    type V = VisibleType;

    open spec fn deep_view(&self) -> VisibleType {
        *self
    }
}

/// `{VISIBLE | INVISIBLE}`, ignoring case, tried in this order.
pub open spec fn spec_visible_type(s: Seq<char>, p: int) -> Parsed<VisibleType> {
    if has_tag_nc(s, p, "VISIBLE"@) {
        Parsed::Done(p + "VISIBLE"@.len(), VisibleType::Visible)
    } else if has_tag_nc(s, p, "INVISIBLE"@) {
        Parsed::Done(p + "INVISIBLE"@.len(), VisibleType::Invisible)
    } else {
        Parsed::NoMatch
    }
}

pub fn visible_type_at(src: &Input, p: usize) -> (r: Option<(usize, VisibleType)>)
    requires
        p <= src@.len(),
    ensures
        agrees(r, spec_visible_type(src@, p as int)),
        r matches Some((q, _)) ==> p <= q <= src@.len(),
{
    if src.tag_nc(p, "VISIBLE") {
        Some((p + "VISIBLE".unicode_len(), VisibleType::Visible))
    } else if src.tag_nc(p, "INVISIBLE") {
        Some((p + "INVISIBLE".unicode_len(), VisibleType::Invisible))
    } else {
        None
    }
}

impl VisibleType {
    /// parse `{VISIBLE | INVISIBLE}`
    pub fn parse(i: &str) -> (r: Result<(&str, VisibleType), ParseSQLError>)
        ensures
            str_agrees(i@, r, spec_visible_type(i@, 0)),
    {
        let src = Input::new(i);
        match visible_type_at(&src, 0) {
            Some((q, v)) => Ok((src.rest(q), v)),
            None => Err(ParseSQLError::grammar(i)),
        }
    }
}



/// Each word of the rule, written in any case (`VISIBLE`, `INVISIBLE`), is read as the
/// value it names, the whole word being read.
pub proof fn lemma_visible_type_words(w: Seq<char>)
    ensures
        spelled(w, "VISIBLE"@) ==> spec_visible_type(w, 0) == Parsed::Done(w.len() as int, VisibleType::Visible),
        spelled(w, "INVISIBLE"@) ==> spec_visible_type(w, 0) == Parsed::Done(w.len() as int, VisibleType::Invisible),
{
    reveal_strlit("VISIBLE");
    reveal_strlit("INVISIBLE");
    assert(w.subrange(0, w.len() as int) =~= w);
    if spelled(w, "VISIBLE"@) {
        lemma_spelled_tag(w, 0, w, "VISIBLE"@);
    }
    if spelled(w, "INVISIBLE"@) {
        assert(eq_no_case(w[0], "INVISIBLE"@[0]));
        lemma_tag_nc_mismatch(w, 0, "VISIBLE"@, 0);
        lemma_spelled_tag(w, 0, w, "INVISIBLE"@);
    }
}

} // verus!
