//! The partial order of columns: by table and then by name where both have a
//! table, by name where neither has one, and none where only one has a table.
use std::cmp::Ordering;

use vstd::prelude::*;

use crate::base::column::{Column, ColumnView};
use crate::base::input::Input;

verus! {

/// Where one text stands against another.
#[derive(Clone, Copy, Debug, Eq, PartialEq, Structural)]
pub enum Precedence {
    Less,
    Equal,
    Greater,
}

/// Lexicographic order of two texts, character by character (the order of
/// their UTF-8 bytes).
pub open spec fn text_order(a: Seq<char>, b: Seq<char>) -> Precedence
    decreases a.len(),
{
    if a.len() == 0 {
        if b.len() == 0 {
            Precedence::Equal
        } else {
            Precedence::Less
        }
    } else if b.len() == 0 {
        Precedence::Greater
    } else if a[0] < b[0] {
        Precedence::Less
    } else if a[0] > b[0] {
        Precedence::Greater
    } else {
        text_order(a.drop_first(), b.drop_first())
    }
}

/// Compares two texts character by character.
pub fn compare_text(a: &str, b: &str) -> (r: Precedence)
    ensures
        r == text_order(a@, b@),
{
    let x = Input::new(a);
    let y = Input::new(b);
    let n = x.len();
    let m = y.len();
    let mut i: usize = 0;
    assert(a@.skip(0) =~= a@);
    assert(b@.skip(0) =~= b@);
    while i < n && i < m && x.at(i) == y.at(i)
        invariant
            i <= n,
            i <= m,
            n == a@.len(),
            m == b@.len(),
            x@ == a@,
            y@ == b@,
            text_order(a@, b@) == text_order(a@.skip(i as int), b@.skip(i as int)),
        decreases n - i,
    {
        assert(a@.skip(i as int).drop_first() =~= a@.skip(i + 1));
        assert(b@.skip(i as int).drop_first() =~= b@.skip(i + 1));
        i = i + 1;
    }
    if i == n {
        if i == m {
            Precedence::Equal
        } else {
            Precedence::Less
        }
    } else if i == m {
        Precedence::Greater
    } else if x.at(i) < y.at(i) {
        Precedence::Less
    } else {
        Precedence::Greater
    }
}

/// The standard ordering that a precedence stands for.
pub open spec fn ordering_of(p: Precedence) -> Ordering {
    match p {
        Precedence::Less => Ordering::Less,
        Precedence::Equal => Ordering::Equal,
        Precedence::Greater => Ordering::Greater,
    }
}

fn to_ordering(p: Precedence) -> (r: Ordering)
    ensures
        r == ordering_of(p),
{
    match p {
        Precedence::Less => Ordering::Less,
        Precedence::Equal => Ordering::Equal,
        Precedence::Greater => Ordering::Greater,
    }
}

/// How two columns compare: by table and then by name where both name a
/// table, by name where neither does, and not at all otherwise.
pub open spec fn column_order(a: ColumnView, b: ColumnView) -> Option<Ordering> {
    match (a.table, b.table) {
        (Some(x), Some(y)) => match text_order(x, y) {
            Precedence::Equal => Some(ordering_of(text_order(a.name, b.name))),
            o => Some(ordering_of(o)),
        },
        (None, None) => Some(ordering_of(text_order(a.name, b.name))),
        _ => None,
    }
}

/// The precedence seen from the other side.
pub open spec fn reversed(p: Precedence) -> Precedence {
    match p {
        Precedence::Less => Precedence::Greater,
        Precedence::Equal => Precedence::Equal,
        Precedence::Greater => Precedence::Less,
    }
}

/// A text stands equal to itself, and two texts compare the other way round
/// when swapped.
pub proof fn lemma_text_order_laws(a: Seq<char>, b: Seq<char>)
    ensures
        text_order(a, a) == Precedence::Equal,
        text_order(b, a) == reversed(text_order(a, b)),
    decreases a.len(),
{
    if a.len() > 0 {
        lemma_text_order_laws(a.drop_first(), a.drop_first());
        if b.len() > 0 {
            lemma_text_order_laws(a.drop_first(), b.drop_first());
        }
    }
}

/// A column compares equal to itself, and two columns compare the other way
/// round when swapped (or not at all either way).
pub proof fn lemma_column_order_laws(a: ColumnView, b: ColumnView)
    ensures
        column_order(a, a) == Some(Ordering::Equal),
        column_order(b, a) == match column_order(a, b) {
            Some(Ordering::Less) => Some(Ordering::Greater),
            Some(Ordering::Greater) => Some(Ordering::Less),
            o => o,
        },
{
    lemma_text_order_laws(a.name, b.name);
    lemma_text_order_laws(a.name, a.name);
    if let (Some(x), Some(y)) = (a.table, b.table) {
        lemma_text_order_laws(x, y);
    }
    if let Some(x) = a.table {
        lemma_text_order_laws(x, x);
    }
}

/// The order of texts is transitive.
pub proof fn lemma_text_order_transitive(a: Seq<char>, b: Seq<char>, c: Seq<char>)
    requires
        text_order(a, b) == Precedence::Less,
        text_order(b, c) == Precedence::Less,
    ensures
        text_order(a, c) == Precedence::Less,
    decreases a.len(),
{
    if a.len() > 0 && b.len() > 0 && c.len() > 0 && a[0] == b[0] && b[0] == c[0] {
        lemma_text_order_transitive(a.drop_first(), b.drop_first(), c.drop_first());
    }
}

/// The order of columns is transitive where it is defined.
pub proof fn lemma_column_order_transitive(a: ColumnView, b: ColumnView, c: ColumnView)
    requires
        column_order(a, b) == Some(Ordering::Less),
        column_order(b, c) == Some(Ordering::Less),
    ensures
        column_order(a, c) == Some(Ordering::Less),
{
    if let (Some(x), Some(y), Some(z)) = (a.table, b.table, c.table) {
        lemma_text_order_laws(x, y);
        lemma_text_order_laws(y, z);
        lemma_text_order_laws(x, z);
        if text_order(x, y) == Precedence::Less && text_order(y, z) == Precedence::Less {
            lemma_text_order_transitive(x, y, z);
        } else if text_order(x, y) == Precedence::Less {
            lemma_text_order_equal(y, z);
        } else if text_order(y, z) == Precedence::Less {
            lemma_text_order_equal(x, y);
        } else {
            lemma_text_order_equal(x, y);
            lemma_text_order_equal(y, z);
            lemma_text_order_transitive(a.name, b.name, c.name);
        }
    } else {
        lemma_text_order_transitive(a.name, b.name, c.name);
    }
}

/// Texts that compare equal are the same text.
pub proof fn lemma_text_order_equal(a: Seq<char>, b: Seq<char>)
    requires
        text_order(a, b) == Precedence::Equal,
    ensures
        a == b,
    decreases a.len(),
{
    if a.len() > 0 {
        lemma_text_order_equal(a.drop_first(), b.drop_first());
        assert(a =~= seq![a[0]] + a.drop_first());
        assert(b =~= seq![b[0]] + b.drop_first());
    }
}

impl PartialOrd for Column {
    fn partial_cmp(&self, other: &Column) -> (r: Option<Ordering>) {
        match (&self.table, &other.table) {
            (Some(x), Some(y)) => match compare_text(x.as_str(), y.as_str()) {
                Precedence::Equal => Some(
                    to_ordering(compare_text(self.name.as_str(), other.name.as_str())),
                ),
                o => Some(to_ordering(o)),
            },
            (None, None) => Some(
                to_ordering(compare_text(self.name.as_str(), other.name.as_str())),
            ),
            _ => None,
        }
    }
}

impl vstd::std_specs::cmp::PartialOrdSpecImpl for Column {
    open spec fn obeys_partial_cmp_spec() -> bool {
        true
    }

    open spec fn partial_cmp_spec(&self, other: &Column) -> Option<Ordering> {
        column_order(self.deep_view(), other.deep_view())
    }
}

} // verus!
