//! parse `{INDEX | KEY}`
use vstd::prelude::*;

use crate::base::error::ParseSQLError;
use crate::base::input::{
    agrees, alt, char_at, has_tag_nc, lemma_tag_nc_mismatch, lemma_tag_nc_of_eq, run_end, str_agrees, ws_end, Input, Parsed, eq_no_case, lemma_spelled_tag, spelled,
};

verus! {

/// parse `{INDEX | KEY}`
#[derive(Clone, Copy, Debug, Eq, Hash, PartialEq, Structural)]
pub enum IndexOrKeyType {
    Index,
    Key,
}

impl DeepView for IndexOrKeyType {
    type V = IndexOrKeyType;

    open spec fn deep_view(&self) -> IndexOrKeyType {
        *self
    }
}

/// `{KEY | INDEX}`, ignoring case, tried in this order.
pub open spec fn spec_index_or_key_type(s: Seq<char>, p: int) -> Parsed<IndexOrKeyType> {
    if has_tag_nc(s, p, "KEY"@) {
        Parsed::Done(p + "KEY"@.len(), IndexOrKeyType::Key)
    } else if has_tag_nc(s, p, "INDEX"@) {
        Parsed::Done(p + "INDEX"@.len(), IndexOrKeyType::Index)
    } else {
        Parsed::NoMatch
    }
}

pub fn index_or_key_type_at(src: &Input, p: usize) -> (r: Option<(usize, IndexOrKeyType)>)
    requires
        p <= src@.len(),
    ensures
        agrees(r, spec_index_or_key_type(src@, p as int)),
        r matches Some((q, _)) ==> p <= q <= src@.len(),
{
    if src.tag_nc(p, "KEY") {
        Some((p + "KEY".unicode_len(), IndexOrKeyType::Key))
    } else if src.tag_nc(p, "INDEX") {
        Some((p + "INDEX".unicode_len(), IndexOrKeyType::Index))
    } else {
        None
    }
}

/// The text `to_string` gives for each value.
pub open spec fn index_or_key_type_text(v: IndexOrKeyType) -> Seq<char> {
    match v {
        IndexOrKeyType::Index => "INDEX"@,
        IndexOrKeyType::Key => "KEY"@,
    }
}

impl IndexOrKeyType {
    /// parse `{KEY | INDEX}`
    pub fn parse(i: &str) -> (r: Result<(&str, IndexOrKeyType), ParseSQLError>)
        ensures
            str_agrees(i@, r, spec_index_or_key_type(i@, 0)),
    {
        let src = Input::new(i);
        match index_or_key_type_at(&src, 0) {
            Some((q, v)) => Ok((src.rest(q), v)),
            None => Err(ParseSQLError::grammar(i)),
        }
    }

    /// The SQL text of the value.
    pub fn to_string(&self) -> (r: String)
        ensures
            r@ == index_or_key_type_text(*self),
    {
        match self {
            IndexOrKeyType::Index => "INDEX".to_owned(),
            IndexOrKeyType::Key => "KEY".to_owned(),
        }
    }
}

/// Parsing the text of a value gives back that value and reads the whole text.
pub proof fn lemma_index_or_key_type_round_trip(v: IndexOrKeyType)
    ensures
        spec_index_or_key_type(index_or_key_type_text(v), 0) == Parsed::Done(index_or_key_type_text(v).len() as int, v),
{
    reveal_strlit("INDEX");
    reveal_strlit("KEY");
    let s = index_or_key_type_text(v);
    reveal_with_fuel(run_end, 3);
    match v {
        IndexOrKeyType::Index => {
            lemma_tag_nc_mismatch(s, 0, "KEY"@, 0);
            lemma_tag_nc_of_eq(s, 0, "INDEX"@);
        },
        IndexOrKeyType::Key => {
            lemma_tag_nc_of_eq(s, 0, "KEY"@);
        },
    }
}



/// Each word of the rule, written in any case (`KEY`, `INDEX`), is read as the
/// value it names, the whole word being read.
pub proof fn lemma_index_or_key_type_words(w: Seq<char>)
    ensures
        spelled(w, "KEY"@) ==> spec_index_or_key_type(w, 0) == Parsed::Done(w.len() as int, IndexOrKeyType::Key),
        spelled(w, "INDEX"@) ==> spec_index_or_key_type(w, 0) == Parsed::Done(w.len() as int, IndexOrKeyType::Index),
{
    reveal_strlit("KEY");
    reveal_strlit("INDEX");
    assert(w.subrange(0, w.len() as int) =~= w);
    if spelled(w, "KEY"@) {
        lemma_spelled_tag(w, 0, w, "KEY"@);
    }
    if spelled(w, "INDEX"@) {
        assert(eq_no_case(w[0], "INDEX"@[0]));
        lemma_tag_nc_mismatch(w, 0, "KEY"@, 0);
        lemma_spelled_tag(w, 0, w, "INDEX"@);
    }
}

} // verus!
