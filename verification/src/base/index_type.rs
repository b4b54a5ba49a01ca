//! parse `USING {BTREE | HASH}`
use vstd::prelude::*;

use crate::base::error::ParseSQLError;
use crate::base::input::{
    agrees, alt, char_at, has_tag_nc, lemma_tag_nc_mismatch, lemma_tag_nc_of_eq, run_end, str_agrees, ws_end, Input, Parsed, eq_no_case, lemma_spelled_tag, spelled,
};

verus! {

/// parse `USING {BTREE | HASH}`
#[derive(Clone, Copy, Debug, Eq, Hash, PartialEq, Structural)]
pub enum IndexType {
    Btree,
    Hash,
}

impl DeepView for IndexType {
    type V = IndexType;

    open spec fn deep_view(&self) -> IndexType {
        *self
    }
}

/// `{BTREE | HASH}`, ignoring case, tried in this order.
pub open spec fn spec_index_type_value(s: Seq<char>, p: int) -> Parsed<IndexType> {
    if has_tag_nc(s, p, "BTREE"@) {
        Parsed::Done(p + "BTREE"@.len(), IndexType::Btree)
    } else if has_tag_nc(s, p, "HASH"@) {
        Parsed::Done(p + "HASH"@.len(), IndexType::Hash)
    } else {
        Parsed::NoMatch
    }
}

fn index_type_value_at(src: &Input, p: usize) -> (r: Option<(usize, IndexType)>)
    requires
        p <= src@.len(),
    ensures
        agrees(r, spec_index_type_value(src@, p as int)),
        r matches Some((q, _)) ==> p <= q <= src@.len(),
{
    if src.tag_nc(p, "BTREE") {
        Some((p + "BTREE".unicode_len(), IndexType::Btree))
    } else if src.tag_nc(p, "HASH") {
        Some((p + "HASH".unicode_len(), IndexType::Hash))
    } else {
        None
    }
}

/// `USING white space value`.
pub open spec fn spec_index_type(s: Seq<char>, p: int) -> Parsed<IndexType> {
    let q = p + "USING"@.len();
    if has_tag_nc(s, p, "USING"@) && ws_end(s, q) > q {
        spec_index_type_value(s, ws_end(s, q))
    } else {
        Parsed::NoMatch
    }
}

pub fn index_type_at(src: &Input, p: usize) -> (r: Option<(usize, IndexType)>)
    requires
        p <= src@.len(),
    ensures
        agrees(r, spec_index_type(src@, p as int)),
        r matches Some((q, _)) ==> p <= q <= src@.len(),
{
    if !src.tag_nc(p, "USING") {
        return None;
    }
    let q = p + "USING".unicode_len();
    let w = src.skip_ws(q);
    if w == q {
        return None;
    }
    index_type_value_at(src, w)
}

/// The text `to_string` gives for each value.
pub open spec fn index_type_text(v: IndexType) -> Seq<char> {
    match v {
        IndexType::Btree => "USING BTREE"@,
        IndexType::Hash => "USING HASH"@,
    }
}

impl IndexType {
    /// parse `USING ... {BTREE | HASH}`
    pub fn parse(i: &str) -> (r: Result<(&str, IndexType), ParseSQLError>)
        ensures
            str_agrees(i@, r, spec_index_type(i@, 0)),
    {
        let src = Input::new(i);
        match index_type_at(&src, 0) {
            Some((q, v)) => Ok((src.rest(q), v)),
            None => Err(ParseSQLError::grammar(i)),
        }
    }

    /// The SQL text of the value.
    pub fn to_string(&self) -> (r: String)
        ensures
            r@ == index_type_text(*self),
    {
        match self {
            IndexType::Btree => "USING BTREE".to_owned(),
            IndexType::Hash => "USING HASH".to_owned(),
        }
    }
}

/// Parsing the text of a value gives back that value and reads the whole text.
pub proof fn lemma_index_type_round_trip(v: IndexType)
    ensures
        spec_index_type(index_type_text(v), 0) == Parsed::Done(index_type_text(v).len() as int, v),
{
    reveal_strlit("BTREE");
    reveal_strlit("HASH");
    reveal_strlit("USING");
    reveal_strlit("USING BTREE");
    reveal_strlit("USING HASH");
    let s = index_type_text(v);
    reveal_with_fuel(run_end, 3);
    match v {
        IndexType::Btree => {
            lemma_tag_nc_of_eq(s, 0, "USING"@);
            lemma_tag_nc_of_eq(s, 6, "BTREE"@);
        },
        IndexType::Hash => {
            lemma_tag_nc_of_eq(s, 0, "USING"@);
            lemma_tag_nc_of_eq(s, 6, "HASH"@);
        },
    }
}

/// `[white space index_type white space*]`, optional.
pub open spec fn spec_opt_index_type(s: Seq<char>, p: int) -> Parsed<Option<IndexType>> {
    if ws_end(s, p) > p && spec_index_type(s, ws_end(s, p)) is Done {
        match spec_index_type(s, ws_end(s, p)) {
            Parsed::Done(q, v) => Parsed::Done(ws_end(s, q), Some(v)),
            _ => Parsed::NoMatch,
        }
    } else {
        Parsed::Done(p, None)
    }
}

pub fn opt_index_type_at(src: &Input, p: usize) -> (r: Option<(usize, Option<IndexType>)>)
    requires
        p <= src@.len(),
    ensures
        agrees(r, spec_opt_index_type(src@, p as int)),
        r matches Some((q, _)) ==> p <= q <= src@.len(),
{
    let w = src.skip_ws(p);
    if w > p {
        if let Some((q, v)) = index_type_at(src, w) {
            return Some((src.skip_ws(q), Some(v)));
        }
    }
    Some((p, None))
}

impl IndexType {
    /// `[index_type]`: `USING {BTREE | HASH}` after white space, optional.
    pub fn opt_index_type(i: &str) -> (r: Result<(&str, Option<IndexType>), ParseSQLError>)
        ensures
            str_agrees(i@, r, spec_opt_index_type(i@, 0)),
    {
        let src = Input::new(i);
        match opt_index_type_at(&src, 0) {
            Some((q, v)) => Ok((src.rest(q), v)),
            None => Err(ParseSQLError::grammar(i)),
        }
    }
}


/// Each word of the rule, written in any case (`BTREE`, `HASH`), is read as the
/// value it names, the whole word being read.
pub proof fn lemma_index_type_words(w: Seq<char>)
    ensures
        spelled(w, "BTREE"@) ==> spec_index_type_value(w, 0) == Parsed::Done(w.len() as int, IndexType::Btree),
        spelled(w, "HASH"@) ==> spec_index_type_value(w, 0) == Parsed::Done(w.len() as int, IndexType::Hash),
{
    reveal_strlit("BTREE");
    reveal_strlit("HASH");
    assert(w.subrange(0, w.len() as int) =~= w);
    if spelled(w, "BTREE"@) {
        lemma_spelled_tag(w, 0, w, "BTREE"@);
    }
    if spelled(w, "HASH"@) {
        assert(eq_no_case(w[0], "HASH"@[0]));
        lemma_tag_nc_mismatch(w, 0, "BTREE"@, 0);
        lemma_spelled_tag(w, 0, w, "HASH"@);
    }
}

} // verus!
