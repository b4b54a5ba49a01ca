//! Keys of a table definition.
use vstd::prelude::*;

use crate::base::column::{Column, ColumnView};
use crate::base::display_util::{escaped_name, DisplayUtil};

verus! {

#[derive(Clone, Debug, Eq, Hash, PartialEq)]
pub enum TableKey {
    PrimaryKey(Vec<Column>),
    UniqueKey(Option<String>, Vec<Column>),
    FulltextKey(Option<String>, Vec<Column>),
    Key(String, Vec<Column>),
}

pub enum TableKeyView {
    PrimaryKey(Seq<ColumnView>),
    UniqueKey(Option<Seq<char>>, Seq<ColumnView>),
    FulltextKey(Option<Seq<char>>, Seq<ColumnView>),
    Key(Seq<char>, Seq<ColumnView>),
}

impl DeepView for TableKey {
    type V = TableKeyView;

    open spec fn deep_view(&self) -> TableKeyView {
        match self {
            TableKey::PrimaryKey(cs) => TableKeyView::PrimaryKey(cs.deep_view()),
            TableKey::UniqueKey(n, cs) => TableKeyView::UniqueKey(n.deep_view(), cs.deep_view()),
            TableKey::FulltextKey(n, cs) => TableKeyView::FulltextKey(n.deep_view(), cs.deep_view()),
            TableKey::Key(n, cs) => TableKeyView::Key(n@, cs.deep_view()),
        }
    }
}

/// Column names separated by `, `, each in back quotes when it reads as a keyword.
pub open spec fn key_columns_text(s: Seq<ColumnView>) -> Seq<char>
    decreases s.len(),
{
    if s.len() == 0 {
        Seq::empty()
    } else if s.len() == 1 {
        escaped_name(s[0].name)
    } else {
        key_columns_text(s.drop_last()) + ", "@ + escaped_name(s.last().name)
    }
}

/// `name ` in back quotes when it reads as a keyword, or nothing.
pub open spec fn opt_key_name_text(n: Option<Seq<char>>) -> Seq<char> {
    match n {
        Some(x) => escaped_name(x) + " "@,
        None => Seq::empty(),
    }
}

pub open spec fn table_key_text(k: TableKeyView) -> Seq<char> {
    match k {
        TableKeyView::PrimaryKey(cs) => "PRIMARY KEY "@ + "("@ + key_columns_text(cs) + ")"@,
        TableKeyView::UniqueKey(n, cs) => "UNIQUE KEY "@ + opt_key_name_text(n) + "("@
            + key_columns_text(cs) + ")"@,
        TableKeyView::FulltextKey(n, cs) => "FULLTEXT KEY "@ + opt_key_name_text(n) + "("@
            + key_columns_text(cs) + ")"@,
        TableKeyView::Key(n, cs) => "KEY "@ + escaped_name(n) + " "@ + "("@ + key_columns_text(cs)
            + ")"@,
    }
}

/// Appends `(names)` of the columns.
fn push_key_columns(out: &mut String, cs: &Vec<Column>)
    ensures
        final(out)@ == old(out)@ + "("@ + key_columns_text(cs.deep_view()) + ")"@,
{
    let ghost start = out@;
    out.append("(");
    let n = cs.len();
    let mut k: usize = 0;
    assert(cs.deep_view().subrange(0, 0) =~= Seq::<ColumnView>::empty());
    while k < n
        invariant
            k <= n,
            n == cs@.len(),
            out@ == start + "("@ + key_columns_text(cs.deep_view().subrange(0, k as int)),
        decreases n - k,
    {
        let ghost prev = cs.deep_view().subrange(0, k as int);
        let ghost next = cs.deep_view().subrange(0, k + 1);
        if k > 0 {
            out.append(", ");
        }
        out.append(DisplayUtil::escape_if_keyword(cs[k].name.as_str()).as_str());
        proof {
            reveal_strlit(", ");
            assert(next.drop_last() =~= prev);
            assert(next.last() == cs@[k as int].deep_view());
        }
        assert(out@ =~= start + "("@ + key_columns_text(next));
        k = k + 1;
    }
    assert(cs.deep_view().subrange(0, n as int) =~= cs.deep_view());
    out.append(")");
}

fn push_opt_key_name(out: &mut String, n: &Option<String>)
    ensures
        final(out)@ == old(out)@ + opt_key_name_text(n.deep_view()),
{
    match n {
        Some(x) => {
            out.append(DisplayUtil::escape_if_keyword(x.as_str()).as_str());
            out.append(" ");
        },
        None => {},
    }
}

impl TableKey {
    /// The SQL text of the key.
    pub fn to_string(&self) -> (r: String)
        ensures
            r@ == table_key_text(self.deep_view()),
    {
        let mut out = String::new();
        match self {
            TableKey::PrimaryKey(cs) => {
                out.append("PRIMARY KEY ");
                push_key_columns(&mut out, cs);
            },
            TableKey::UniqueKey(n, cs) => {
                out.append("UNIQUE KEY ");
                push_opt_key_name(&mut out, n);
                push_key_columns(&mut out, cs);
            },
            TableKey::FulltextKey(n, cs) => {
                out.append("FULLTEXT KEY ");
                push_opt_key_name(&mut out, n);
                push_key_columns(&mut out, cs);
            },
            TableKey::Key(n, cs) => {
                out.append("KEY ");
                out.append(DisplayUtil::escape_if_keyword(n.as_str()).as_str());
                out.append(" ");
                push_key_columns(&mut out, cs);
            },
        }
        assert(out@ =~= table_key_text(self.deep_view()));
        out
    }
}

} // verus!
