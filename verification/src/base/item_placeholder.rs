//! Placeholders for values bound at execution time.
use vstd::prelude::*;

use crate::base::display_util::{int_text, push_int};

verus! {

#[derive(Clone, Copy, Debug, Eq, Hash, PartialEq, Structural)]
pub enum ItemPlaceholder {
    /// ?
    QuestionMark,
    /// $1 $2 $3
    DollarNumber(i32),
    /// :1 :2 :3
    ColonNumber(i32),
}

impl DeepView for ItemPlaceholder {
    type V = ItemPlaceholder;

    open spec fn deep_view(&self) -> ItemPlaceholder {
        *self
    }
}

/// `?`, `$n` or `:n`.
pub open spec fn item_placeholder_text(p: ItemPlaceholder) -> Seq<char> {
    match p {
        ItemPlaceholder::QuestionMark => seq!['?'],
        ItemPlaceholder::DollarNumber(i) => seq!['$'] + int_text(i as int),
        ItemPlaceholder::ColonNumber(i) => seq![':'] + int_text(i as int),
    }
}

impl ItemPlaceholder {
    /// Appends the text of the placeholder.
    pub fn push_text(&self, out: &mut String)
        ensures
            final(out)@ == old(out)@ + item_placeholder_text(*self),
    {
        proof {
            reveal_strlit("?");
            reveal_strlit("$");
            reveal_strlit(":");
        }
        match self {
            ItemPlaceholder::QuestionMark => {
                out.append("?");
            },
            ItemPlaceholder::DollarNumber(i) => {
                out.append("$");
                push_int(out, *i as i64);
            },
            ItemPlaceholder::ColonNumber(i) => {
                out.append(":");
                push_int(out, *i as i64);
            },
        }
        assert(final(out)@ =~= old(out)@ + item_placeholder_text(*self));
    }

    /// The SQL text of the placeholder.
    pub fn to_string(&self) -> (r: String)
        ensures
            r@ == item_placeholder_text(*self),
    {
        let mut out = String::new();
        self.push_text(&mut out);
        assert(out@ =~= item_placeholder_text(*self));
        out
    }
}

} // verus!
