//! {FULLTEXT | SPATIAL}
use vstd::prelude::*;

use crate::base::error::ParseSQLError;
use crate::base::input::{
    agrees, alt, char_at, has_tag_nc, lemma_tag_nc_mismatch, lemma_tag_nc_of_eq, run_end, str_agrees, ws_end, Input, Parsed, eq_no_case, lemma_spelled_tag, spelled,
};

verus! {

/// {FULLTEXT | SPATIAL}
#[derive(Clone, Copy, Debug, Eq, Hash, PartialEq, Structural)]
pub enum FulltextOrSpatialType {
    Fulltext,
    Spatial,
}

impl DeepView for FulltextOrSpatialType {
    type V = FulltextOrSpatialType;

    open spec fn deep_view(&self) -> FulltextOrSpatialType {
        *self
    }
}

/// `{FULLTEXT | SPATIAL}`, ignoring case, tried in this order.
pub open spec fn spec_fulltext_or_spatial_type(s: Seq<char>, p: int) -> Parsed<FulltextOrSpatialType> {
    if has_tag_nc(s, p, "FULLTEXT"@) {
        Parsed::Done(p + "FULLTEXT"@.len(), FulltextOrSpatialType::Fulltext)
    } else if has_tag_nc(s, p, "SPATIAL"@) {
        Parsed::Done(p + "SPATIAL"@.len(), FulltextOrSpatialType::Spatial)
    } else {
        Parsed::NoMatch
    }
}

pub fn fulltext_or_spatial_type_at(src: &Input, p: usize) -> (r: Option<(usize, FulltextOrSpatialType)>)
    requires
        p <= src@.len(),
    ensures
        agrees(r, spec_fulltext_or_spatial_type(src@, p as int)),
        r matches Some((q, _)) ==> p <= q <= src@.len(),
{
    if src.tag_nc(p, "FULLTEXT") {
        Some((p + "FULLTEXT".unicode_len(), FulltextOrSpatialType::Fulltext))
    } else if src.tag_nc(p, "SPATIAL") {
        Some((p + "SPATIAL".unicode_len(), FulltextOrSpatialType::Spatial))
    } else {
        None
    }
}

impl FulltextOrSpatialType {
    /// parse `{FULLTEXT | SPATIAL}`
    pub fn parse(i: &str) -> (r: Result<(&str, FulltextOrSpatialType), ParseSQLError>)
        ensures
            str_agrees(i@, r, spec_fulltext_or_spatial_type(i@, 0)),
    {
        let src = Input::new(i);
        match fulltext_or_spatial_type_at(&src, 0) {
            Some((q, v)) => Ok((src.rest(q), v)),
            None => Err(ParseSQLError::grammar(i)),
        }
    }
}



/// Each word of the rule, written in any case (`FULLTEXT`, `SPATIAL`), is read as the
/// value it names, the whole word being read.
pub proof fn lemma_fulltext_or_spatial_type_words(w: Seq<char>)
    ensures
        spelled(w, "FULLTEXT"@) ==> spec_fulltext_or_spatial_type(w, 0) == Parsed::Done(w.len() as int, FulltextOrSpatialType::Fulltext),
        spelled(w, "SPATIAL"@) ==> spec_fulltext_or_spatial_type(w, 0) == Parsed::Done(w.len() as int, FulltextOrSpatialType::Spatial),
{
    reveal_strlit("FULLTEXT");
    reveal_strlit("SPATIAL");
    assert(w.subrange(0, w.len() as int) =~= w);
    if spelled(w, "FULLTEXT"@) {
        lemma_spelled_tag(w, 0, w, "FULLTEXT"@);
    }
    if spelled(w, "SPATIAL"@) {
        assert(eq_no_case(w[0], "SPATIAL"@[0]));
        lemma_tag_nc_mismatch(w, 0, "FULLTEXT"@, 0);
        lemma_spelled_tag(w, 0, w, "SPATIAL"@);
    }
}

} // verus!
