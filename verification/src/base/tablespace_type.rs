//! STORAGE {DISK | MEMORY}
use vstd::prelude::*;

use crate::base::error::ParseSQLError;
use crate::base::input::{
    agrees, alt, char_at, has_tag_nc, lemma_tag_nc_mismatch, lemma_tag_nc_of_eq, run_end, str_agrees, ws_end, Input, Parsed, eq_no_case, lemma_spelled_tag, spelled,
};

verus! {

/// STORAGE {DISK | MEMORY}
#[derive(Clone, Copy, Debug, Eq, Hash, PartialEq, Structural)]
pub enum TablespaceType {
    StorageDisk,
    StorageMemory,
}

impl DeepView for TablespaceType {
    type V = TablespaceType;

    open spec fn deep_view(&self) -> TablespaceType {
        *self
    }
}

/// `{DISK | MEMORY}`, ignoring case, tried in this order.
pub open spec fn spec_tablespace_type_value(s: Seq<char>, p: int) -> Parsed<TablespaceType> {
    if has_tag_nc(s, p, "DISK"@) {
        Parsed::Done(p + "DISK"@.len(), TablespaceType::StorageDisk)
    } else if has_tag_nc(s, p, "MEMORY"@) {
        Parsed::Done(p + "MEMORY"@.len(), TablespaceType::StorageMemory)
    } else {
        Parsed::NoMatch
    }
}

fn tablespace_type_value_at(src: &Input, p: usize) -> (r: Option<(usize, TablespaceType)>)
    requires
        p <= src@.len(),
    ensures
        agrees(r, spec_tablespace_type_value(src@, p as int)),
        r matches Some((q, _)) ==> p <= q <= src@.len(),
{
    if src.tag_nc(p, "DISK") {
        Some((p + "DISK".unicode_len(), TablespaceType::StorageDisk))
    } else if src.tag_nc(p, "MEMORY") {
        Some((p + "MEMORY".unicode_len(), TablespaceType::StorageMemory))
    } else {
        None
    }
}

/// `STORAGE [ws] value`.
pub open spec fn spec_tablespace_type(s: Seq<char>, p: int) -> Parsed<TablespaceType> {
    if has_tag_nc(s, p, "STORAGE"@) {
        spec_tablespace_type_value(s, ws_end(s, p + "STORAGE"@.len()))
    } else {
        Parsed::NoMatch
    }
}

pub fn tablespace_type_at(src: &Input, p: usize) -> (r: Option<(usize, TablespaceType)>)
    requires
        p <= src@.len(),
    ensures
        agrees(r, spec_tablespace_type(src@, p as int)),
        r matches Some((q, _)) ==> p <= q <= src@.len(),
{
    if !src.tag_nc(p, "STORAGE") {
        return None;
    }
    tablespace_type_value_at(src, src.skip_ws(p + "STORAGE".unicode_len()))
}

/// The text `to_string` gives for each value.
pub open spec fn tablespace_type_text(v: TablespaceType) -> Seq<char> {
    match v {
        TablespaceType::StorageDisk => "STORAGE DISK"@,
        TablespaceType::StorageMemory => "STORAGE MEMORY"@,
    }
}

impl TablespaceType {
    /// parse `STORAGE ... {DISK | MEMORY}`
    pub fn parse(i: &str) -> (r: Result<(&str, TablespaceType), ParseSQLError>)
        ensures
            str_agrees(i@, r, spec_tablespace_type(i@, 0)),
    {
        let src = Input::new(i);
        match tablespace_type_at(&src, 0) {
            Some((q, v)) => Ok((src.rest(q), v)),
            None => Err(ParseSQLError::grammar(i)),
        }
    }

    /// The SQL text of the value.
    pub fn to_string(&self) -> (r: String)
        ensures
            r@ == tablespace_type_text(*self),
    {
        match self {
            TablespaceType::StorageDisk => "STORAGE DISK".to_owned(),
            TablespaceType::StorageMemory => "STORAGE MEMORY".to_owned(),
        }
    }
}

/// Parsing the text of a value gives back that value and reads the whole text.
pub proof fn lemma_tablespace_type_round_trip(v: TablespaceType)
    ensures
        spec_tablespace_type(tablespace_type_text(v), 0) == Parsed::Done(tablespace_type_text(v).len() as int, v),
{
    reveal_strlit("DISK");
    reveal_strlit("MEMORY");
    reveal_strlit("STORAGE");
    reveal_strlit("STORAGE DISK");
    reveal_strlit("STORAGE MEMORY");
    let s = tablespace_type_text(v);
    reveal_with_fuel(run_end, 3);
    match v {
        TablespaceType::StorageDisk => {
            lemma_tag_nc_of_eq(s, 0, "STORAGE"@);
            lemma_tag_nc_of_eq(s, 8, "DISK"@);
        },
        TablespaceType::StorageMemory => {
            lemma_tag_nc_of_eq(s, 0, "STORAGE"@);
            lemma_tag_nc_mismatch(s, 8, "DISK"@, 0);
            lemma_tag_nc_of_eq(s, 8, "MEMORY"@);
        },
    }
}



/// Each word of the rule, written in any case (`DISK`, `MEMORY`), is read as the
/// value it names, the whole word being read.
pub proof fn lemma_tablespace_type_words(w: Seq<char>)
    ensures
        spelled(w, "DISK"@) ==> spec_tablespace_type_value(w, 0) == Parsed::Done(w.len() as int, TablespaceType::StorageDisk),
        spelled(w, "MEMORY"@) ==> spec_tablespace_type_value(w, 0) == Parsed::Done(w.len() as int, TablespaceType::StorageMemory),
{
    reveal_strlit("DISK");
    reveal_strlit("MEMORY");
    assert(w.subrange(0, w.len() as int) =~= w);
    if spelled(w, "DISK"@) {
        lemma_spelled_tag(w, 0, w, "DISK"@);
    }
    if spelled(w, "MEMORY"@) {
        assert(eq_no_case(w[0], "MEMORY"@[0]));
        lemma_tag_nc_mismatch(w, 0, "DISK"@, 0);
        lemma_spelled_tag(w, 0, w, "MEMORY"@);
    }
}

} // verus!
