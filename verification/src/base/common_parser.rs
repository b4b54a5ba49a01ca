//! Parsers shared by all statement and clause parsers: identifiers, keywords,
//! numbers, separators, quoted strings and `key [=] value` options.
use vstd::prelude::*;

use crate::base::column::{index_col_name_at, spec_index_col_name, Column, ColumnView};
use crate::base::default_or_zero_or_one::{
    default_or_zero_or_one_at, spec_default_or_zero_or_one, DefaultOrZeroOrOne,
};
use crate::base::error::ParseSQLError;
use crate::base::order::OrderType;
use crate::base::input::{
    agrees, alt, char_at, digits_end, digits_value, has_tag_nc, is_alpha, is_alpha_exec,
    is_grammar_error, lemma_run_end_bounds, run_end, str_agrees, ws_end, Input, Parsed,
};

verus! {

/// A range of input positions, as produced by rules that recognize text.
#[derive(Clone, Copy, Debug, PartialEq, Eq)]
pub struct Span {
    pub start: usize,
    pub end: usize,
}

impl DeepView for Span {
    type V = (int, int);

    open spec fn deep_view(&self) -> (int, int) {
        (self.start as int, self.end as int)
    }
}

/// The reserved words, in the order the keyword rule tries them.
pub open spec fn keyword(i: int) -> Seq<char> {
    if i == 0 {
        "ABORT"@
    } else if i == 1 {
        "ACTION"@
    } else if i == 2 {
        "ADD"@
    } else if i == 3 {
        "AFTER"@
    } else if i == 4 {
        "ALL"@
    } else if i == 5 {
        "ALTER"@
    } else if i == 6 {
        "ANALYZE"@
    } else if i == 7 {
        "AND"@
    } else if i == 8 {
        "AS"@
    } else if i == 9 {
        "ASC"@
    } else if i == 10 {
        "ATTACH"@
    } else if i == 11 {
        "AUTOINCREMENT"@
    } else if i == 12 {
        "BEFORE"@
    } else if i == 13 {
        "BEGIN"@
    } else if i == 14 {
        "BETWEEN"@
    } else if i == 15 {
        "BY"@
    } else if i == 16 {
        "CASCADE"@
    } else if i == 17 {
        "CASE"@
    } else if i == 18 {
        "CAST"@
    } else if i == 19 {
        "CHECK"@
    } else if i == 20 {
        "COLLATE"@
    } else if i == 21 {
        "COLUMN"@
    } else if i == 22 {
        "COMMIT"@
    } else if i == 23 {
        "CONFLICT"@
    } else if i == 24 {
        "CONSTRAINT"@
    } else if i == 25 {
        "CREATE"@
    } else if i == 26 {
        "CROSS"@
    } else if i == 27 {
        "CURRENT_DATE"@
    } else if i == 28 {
        "CURRENT_TIME"@
    } else if i == 29 {
        "CURRENT_TIMESTAMP"@
    } else if i == 30 {
        "DATABASE"@
    } else if i == 31 {
        "DEFAULT"@
    } else if i == 32 {
        "DEFERRABLE"@
    } else if i == 33 {
        "DEFERRED"@
    } else if i == 34 {
        "DELETE"@
    } else if i == 35 {
        "DESC"@
    } else if i == 36 {
        "DETACH"@
    } else if i == 37 {
        "DISTINCT"@
    } else if i == 38 {
        "DROP"@
    } else if i == 39 {
        "EACH"@
    } else if i == 40 {
        "ELSE"@
    } else if i == 41 {
        "END"@
    } else if i == 42 {
        "ESCAPE"@
    } else if i == 43 {
        "EXCEPT"@
    } else if i == 44 {
        "EXCLUSIVE"@
    } else if i == 45 {
        "EXISTS"@
    } else if i == 46 {
        "EXPLAIN"@
    } else if i == 47 {
        "FAIL"@
    } else if i == 48 {
        "FOR"@
    } else if i == 49 {
        "FOREIGN"@
    } else if i == 50 {
        "FROM"@
    } else if i == 51 {
        "FULL"@
    } else if i == 52 {
        "FULLTEXT"@
    } else if i == 53 {
        "GLOB"@
    } else if i == 54 {
        "GROUP"@
    } else if i == 55 {
        "HAVING"@
    } else if i == 56 {
        "IF"@
    } else if i == 57 {
        "IGNORE"@
    } else if i == 58 {
        "IMMEDIATE"@
    } else if i == 59 {
        "IN"@
    } else if i == 60 {
        "INDEX"@
    } else if i == 61 {
        "INDEXED"@
    } else if i == 62 {
        "INITIALLY"@
    } else if i == 63 {
        "INNER"@
    } else if i == 64 {
        "INSERT"@
    } else if i == 65 {
        "INSTEAD"@
    } else if i == 66 {
        "INTERSECT"@
    } else if i == 67 {
        "INTO"@
    } else if i == 68 {
        "IS"@
    } else if i == 69 {
        "ISNULL"@
    } else if i == 70 {
        "ORDER"@
    } else if i == 71 {
        "JOIN"@
    } else if i == 72 {
        "KEY"@
    } else if i == 73 {
        "LEFT"@
    } else if i == 74 {
        "LIKE"@
    } else if i == 75 {
        "LIMIT"@
    } else if i == 76 {
        "MATCH"@
    } else if i == 77 {
        "NATURAL"@
    } else if i == 78 {
        "NO"@
    } else if i == 79 {
        "NOT"@
    } else if i == 80 {
        "NOTNULL"@
    } else if i == 81 {
        "NULL"@
    } else if i == 82 {
        "OF"@
    } else if i == 83 {
        "OFFSET"@
    } else if i == 84 {
        "ON"@
    } else if i == 85 {
        "OR"@
    } else if i == 86 {
        "OUTER"@
    } else if i == 87 {
        "PLAN"@
    } else if i == 88 {
        "PRAGMA"@
    } else if i == 89 {
        "PRIMARY"@
    } else if i == 90 {
        "QUERY"@
    } else if i == 91 {
        "RAISE"@
    } else if i == 92 {
        "RECURSIVE"@
    } else if i == 93 {
        "REFERENCES"@
    } else if i == 94 {
        "REGEXP"@
    } else if i == 95 {
        "REINDEX"@
    } else if i == 96 {
        "RELEASE"@
    } else if i == 97 {
        "RENAME"@
    } else if i == 98 {
        "REPLACE"@
    } else if i == 99 {
        "RESTRICT"@
    } else if i == 100 {
        "RIGHT"@
    } else if i == 101 {
        "ROLLBACK"@
    } else if i == 102 {
        "ROW"@
    } else if i == 103 {
        "SAVEPOINT"@
    } else if i == 104 {
        "SELECT"@
    } else if i == 105 {
        "SET"@
    } else if i == 106 {
        "SPATIAL"@
    } else if i == 107 {
        "TABLE"@
    } else if i == 108 {
        "TEMP"@
    } else if i == 109 {
        "TEMPORARY"@
    } else if i == 110 {
        "THEN"@
    } else if i == 111 {
        "TO"@
    } else if i == 112 {
        "TRANSACTION"@
    } else if i == 113 {
        "TRIGGER"@
    } else if i == 114 {
        "UNION"@
    } else if i == 115 {
        "UNIQUE"@
    } else if i == 116 {
        "UPDATE"@
    } else if i == 117 {
        "USING"@
    } else if i == 118 {
        "VACUUM"@
    } else if i == 119 {
        "VALUES"@
    } else if i == 120 {
        "VIEW"@
    } else if i == 121 {
        "VIRTUAL"@
    } else if i == 122 {
        "WHEN"@
    } else if i == 123 {
        "WHERE"@
    } else if i == 124 {
        "WITH"@
    } else if i == 125 {
        "WITHOUT"@
    } else {
        Seq::empty()
    }
}

pub const KEYWORD_COUNT: usize = 126;

fn keyword_str(i: usize) -> (r: &'static str)
    requires
        i < KEYWORD_COUNT,
    ensures
        r@ == keyword(i as int),
{
    match i {
        0 => "ABORT",
        1 => "ACTION",
        2 => "ADD",
        3 => "AFTER",
        4 => "ALL",
        5 => "ALTER",
        6 => "ANALYZE",
        7 => "AND",
        8 => "AS",
        9 => "ASC",
        10 => "ATTACH",
        11 => "AUTOINCREMENT",
        12 => "BEFORE",
        13 => "BEGIN",
        14 => "BETWEEN",
        15 => "BY",
        16 => "CASCADE",
        17 => "CASE",
        18 => "CAST",
        19 => "CHECK",
        20 => "COLLATE",
        21 => "COLUMN",
        22 => "COMMIT",
        23 => "CONFLICT",
        24 => "CONSTRAINT",
        25 => "CREATE",
        26 => "CROSS",
        27 => "CURRENT_DATE",
        28 => "CURRENT_TIME",
        29 => "CURRENT_TIMESTAMP",
        30 => "DATABASE",
        31 => "DEFAULT",
        32 => "DEFERRABLE",
        33 => "DEFERRED",
        34 => "DELETE",
        35 => "DESC",
        36 => "DETACH",
        37 => "DISTINCT",
        38 => "DROP",
        39 => "EACH",
        40 => "ELSE",
        41 => "END",
        42 => "ESCAPE",
        43 => "EXCEPT",
        44 => "EXCLUSIVE",
        45 => "EXISTS",
        46 => "EXPLAIN",
        47 => "FAIL",
        48 => "FOR",
        49 => "FOREIGN",
        50 => "FROM",
        51 => "FULL",
        52 => "FULLTEXT",
        53 => "GLOB",
        54 => "GROUP",
        55 => "HAVING",
        56 => "IF",
        57 => "IGNORE",
        58 => "IMMEDIATE",
        59 => "IN",
        60 => "INDEX",
        61 => "INDEXED",
        62 => "INITIALLY",
        63 => "INNER",
        64 => "INSERT",
        65 => "INSTEAD",
        66 => "INTERSECT",
        67 => "INTO",
        68 => "IS",
        69 => "ISNULL",
        70 => "ORDER",
        71 => "JOIN",
        72 => "KEY",
        73 => "LEFT",
        74 => "LIKE",
        75 => "LIMIT",
        76 => "MATCH",
        77 => "NATURAL",
        78 => "NO",
        79 => "NOT",
        80 => "NOTNULL",
        81 => "NULL",
        82 => "OF",
        83 => "OFFSET",
        84 => "ON",
        85 => "OR",
        86 => "OUTER",
        87 => "PLAN",
        88 => "PRAGMA",
        89 => "PRIMARY",
        90 => "QUERY",
        91 => "RAISE",
        92 => "RECURSIVE",
        93 => "REFERENCES",
        94 => "REGEXP",
        95 => "REINDEX",
        96 => "RELEASE",
        97 => "RENAME",
        98 => "REPLACE",
        99 => "RESTRICT",
        100 => "RIGHT",
        101 => "ROLLBACK",
        102 => "ROW",
        103 => "SAVEPOINT",
        104 => "SELECT",
        105 => "SET",
        106 => "SPATIAL",
        107 => "TABLE",
        108 => "TEMP",
        109 => "TEMPORARY",
        110 => "THEN",
        111 => "TO",
        112 => "TRANSACTION",
        113 => "TRIGGER",
        114 => "UNION",
        115 => "UNIQUE",
        116 => "UPDATE",
        117 => "USING",
        118 => "VACUUM",
        119 => "VALUES",
        120 => "VIEW",
        121 => "VIRTUAL",
        122 => "WHEN",
        123 => "WHERE",
        124 => "WITH",
        _ => "WITHOUT",
    }
}

/// Characters that may follow a keyword: one of ` \n;()\t,=` or the end.
pub open spec fn keyword_follows(s: Seq<char>, q: int) -> bool {
    q == s.len() || (0 <= q < s.len() && (s[q] == ' ' || s[q] == '\n' || s[q] == ';' || s[q]
        == '(' || s[q] == ')' || s[q] == '\t' || s[q] == ',' || s[q] == '='))
}

fn keyword_follows_exec(src: &Input, q: usize) -> (r: bool)
    requires
        q <= src@.len(),
    ensures
        r == keyword_follows(src@, q as int),
{
    if q == src.len() {
        return true;
    }
    let c = src.at(q);
    c == ' ' || c == '\n' || c == ';' || c == '(' || c == ')' || c == '\t' || c == ',' || c == '='
}

/// Keyword number `i` occurs at `p`, ignoring case, followed by a follow character.
pub open spec fn keyword_at(s: Seq<char>, p: int, i: int) -> bool {
    has_tag_nc(s, p, keyword(i)) && keyword_follows(s, p + keyword(i).len())
}

/// End of the first keyword, from number `i` on, that occurs at `p`.
pub open spec fn keyword_search(s: Seq<char>, p: int, i: int) -> Option<int>
    decreases KEYWORD_COUNT - i,
{
    if 0 <= i < KEYWORD_COUNT {
        if keyword_at(s, p, i) {
            Some(p + keyword(i).len())
        } else {
            keyword_search(s, p, i + 1)
        }
    } else {
        None
    }
}

/// The keyword rule: end of the reserved word at `p`, if there is one.
pub open spec fn spec_sql_keyword(s: Seq<char>, p: int) -> Option<int> {
    keyword_search(s, p, 0)
}

pub fn sql_keyword_at(src: &Input, p: usize) -> (r: Option<usize>)
    requires
        p <= src@.len(),
    ensures
        r matches Some(q) ==> spec_sql_keyword(src@, p as int) == Some(q as int) && p <= q
            <= src@.len(),
        r is None ==> spec_sql_keyword(src@, p as int) is None,
{
    let n = src.len();
    let mut i: usize = 0;
    while i < KEYWORD_COUNT
        invariant
            i <= KEYWORD_COUNT,
            n == src@.len(),
            p <= src@.len(),
            keyword_search(src@, p as int, 0) == keyword_search(src@, p as int, i as int),
        decreases KEYWORD_COUNT - i,
    {
        let k = keyword_str(i);
        if src.tag_nc(p, k) {
            let e = p + k.unicode_len();
            if keyword_follows_exec(src, e) {
                return Some(e);
            }
        }
        i = i + 1;
    }
    None
}

/// A character allowed in an identifier: its low byte is an ASCII letter or
/// digit, or it is `_` or `@`.
pub open spec fn ident_char(c: char) -> bool {
    let b = c as u32 % 256;
    (97 <= b <= 122) || (65 <= b <= 90) || (48 <= b <= 57) || c == '_' || c == '@'
}

pub fn ident_char_exec(c: char) -> (r: bool)
    ensures
        r == ident_char(c),
{
    let b = (c as u32) % 256;
    (97 <= b && b <= 122) || (65 <= b && b <= 90) || (48 <= b && b <= 57) || c == '_' || c
        == '@'
}

pub open spec fn ident_end(s: Seq<char>, p: int) -> int {
    run_end(s, p, |c: char| ident_char(c))
}

pub open spec fn alpha_end(s: Seq<char>, p: int) -> int {
    run_end(s, p, |c: char| is_alpha(c))
}

fn skip_ident(src: &Input, p: usize) -> (q: usize)
    requires
        p <= src@.len(),
    ensures
        q == ident_end(src@, p as int),
        p <= q <= src@.len(),
{
    let mut q = p;
    while q < src.len() && ident_char_exec(src.at(q))
        invariant
            p <= q <= src@.len(),
            ident_end(src@, q as int) == ident_end(src@, p as int),
        decreases src@.len() - q,
    {
        q = q + 1;
    }
    q
}

fn skip_alpha(src: &Input, p: usize) -> (q: usize)
    requires
        p <= src@.len(),
    ensures
        q == alpha_end(src@, p as int),
        p <= q <= src@.len(),
{
    let mut q = p;
    while q < src.len() && is_alpha_exec(src.at(q))
        invariant
            p <= q <= src@.len(),
            alpha_end(src@, q as int) == alpha_end(src@, p as int),
        decreases src@.len() - q,
    {
        q = q + 1;
    }
    q
}

/// The identifier rule. An identifier is, in this order of preference:
/// a word that is not a reserved keyword, starting with a letter and going on
/// with identifier characters; `_` or `@` followed by identifier characters;
/// identifier characters enclosed in back quotes or in square brackets (the
/// value then excludes the enclosing characters).
/// The value is the range of the identifier's text.
pub open spec fn spec_sql_identifier(s: Seq<char>, p: int) -> Parsed<(int, int)> {
    if spec_sql_keyword(s, p) is None && 0 <= p < s.len() && is_alpha(s[p]) {
        let e = ident_end(s, alpha_end(s, p));
        Parsed::Done(e, (p, e))
    } else if char_at(s, p, '_') && p + 1 < s.len() && ident_char(s[p + 1]) {
        let e = ident_end(s, p + 1);
        Parsed::Done(e, (p, e))
    } else if char_at(s, p, '@') && p + 1 < s.len() && ident_char(s[p + 1]) {
        let e = ident_end(s, p + 1);
        Parsed::Done(e, (p, e))
    } else if char_at(s, p, '`') && p + 1 < s.len() && ident_char(s[p + 1]) && char_at(
        s,
        ident_end(s, p + 1),
        '`',
    ) {
        let e = ident_end(s, p + 1);
        Parsed::Done(e + 1, (p + 1, e))
    } else if char_at(s, p, '[') && p + 1 < s.len() && ident_char(s[p + 1]) && char_at(
        s,
        ident_end(s, p + 1),
        ']',
    ) {
        let e = ident_end(s, p + 1);
        Parsed::Done(e + 1, (p + 1, e))
    } else {
        Parsed::NoMatch
    }
}

pub proof fn lemma_sql_identifier_bounds(s: Seq<char>, p: int)
    requires
        0 <= p <= s.len(),
    ensures
        spec_sql_identifier(s, p) matches Parsed::Done(q, (a, b)) ==> p < q <= s.len() && p <= a
            < b <= q,
        !(spec_sql_identifier(s, p) is Abort),
{
    if 0 <= p < s.len() && is_alpha(s[p]) {
        lemma_run_end_bounds(s, p, |c: char| is_alpha(c));
        lemma_run_end_bounds(s, alpha_end(s, p), |c: char| ident_char(c));
    }
    if p + 1 < s.len() {
        lemma_run_end_bounds(s, p + 1, |c: char| ident_char(c));
    }
}

pub fn sql_identifier_at(src: &Input, p: usize) -> (r: Option<(usize, Span)>)
    requires
        p <= src@.len(),
    ensures
        agrees(r, spec_sql_identifier(src@, p as int)),
        r matches Some((q, sp)) ==> p < q <= src@.len() && p <= sp.start < sp.end <= q,
{
    proof {
        lemma_sql_identifier_bounds(src@, p as int);
    }
    let n = src.len();
    if p < n && is_alpha_exec(src.at(p)) && sql_keyword_at(src, p).is_none() {
        let e = skip_ident(src, skip_alpha(src, p));
        return Some((e, Span { start: p, end: e }));
    }
    if n - p > 1 && (src.at(p) == '_' || src.at(p) == '@') && ident_char_exec(src.at(p + 1)) {
        let e = skip_ident(src, p + 1);
        return Some((e, Span { start: p, end: e }));
    }
    if n - p > 1 && (src.at(p) == '`' || src.at(p) == '[') && ident_char_exec(src.at(p + 1)) {
        let e = skip_ident(src, p + 1);
        let close = if src.at(p) == '`' {
            '`'
        } else {
            ']'
        };
        if src.is_char(e, close) {
            return Some((e + 1, Span { start: p + 1, end: e }));
        }
    }
    None
}

/// The text of a range as an outcome over strings.
pub open spec fn text_of(s: Seq<char>, sp: Parsed<(int, int)>) -> Parsed<Seq<char>> {
    match sp {
        Parsed::Done(q, (a, b)) => Parsed::Done(q, s.subrange(a, b)),
        Parsed::NoMatch => Parsed::NoMatch,
        Parsed::Abort => Parsed::Abort,
    }
}


/// End of the characters from `p` that differ from `c`: the position of the
/// first `c` at or after `p`, or the end of the input.
pub open spec fn until_char(s: Seq<char>, p: int, c: char) -> int {
    run_end(s, p, |x: char| x != c)
}

pub fn skip_until(src: &Input, p: usize, c: char) -> (q: usize)
    requires
        p <= src@.len(),
    ensures
        q == until_char(src@, p as int, c),
        p <= q <= src@.len(),
{
    let mut q = p;
    while q < src.len() && src.at(q) != c
        invariant
            p <= q <= src@.len(),
            until_char(src@, q as int, c) == until_char(src@, p as int, c),
        decreases src@.len() - q,
    {
        q = q + 1;
    }
    q
}

/// `c text c` with `text` holding no `c`;
/// the value is the range of `text`.
pub open spec fn spec_quoted(s: Seq<char>, p: int, c: char) -> Parsed<(int, int)> {
    if char_at(s, p, c) && until_char(s, p + 1, c) < s.len() {
        Parsed::Done(until_char(s, p + 1, c) + 1, (p + 1, until_char(s, p + 1, c)))
    } else {
        Parsed::NoMatch
    }
}

pub fn quoted_at(src: &Input, p: usize, c: char) -> (r: Option<(usize, Span)>)
    requires
        p <= src@.len(),
    ensures
        agrees(r, spec_quoted(src@, p as int, c)),
        r matches Some((q, sp)) ==> p < q <= src@.len() && p < sp.start <= sp.end < q,
{
    if src.is_char(p, c) {
        let e = skip_until(src, p + 1, c);
        if e < src.len() {
            return Some((e + 1, Span { start: p + 1, end: e }));
        }
    }
    None
}

/// A quoted string: `'text'` or `"text"`.
pub open spec fn spec_quoted_string(s: Seq<char>, p: int) -> Parsed<(int, int)> {
    alt(spec_quoted(s, p, '\''), spec_quoted(s, p, '"'))
}

pub fn quoted_string_at(src: &Input, p: usize) -> (r: Option<(usize, Span)>)
    requires
        p <= src@.len(),
    ensures
        agrees(r, spec_quoted_string(src@, p as int)),
        r matches Some((q, sp)) ==> p < q <= src@.len() && p < sp.start <= sp.end < q,
{
    match quoted_at(src, p, '\'') {
        Some(x) => Some(x),
        None => quoted_at(src, p, '"'),
    }
}

/// An unsigned decimal number; numbers above `u64::MAX` abort.
pub open spec fn spec_unsigned_number(s: Seq<char>, p: int) -> Parsed<u64> {
    if digits_end(s, p) > p {
        let v = digits_value(s.subrange(p, digits_end(s, p)));
        if v <= u64::MAX {
            Parsed::Done(digits_end(s, p), v as u64)
        } else {
            Parsed::Abort
        }
    } else {
        Parsed::NoMatch
    }
}

pub fn unsigned_number_at(src: &Input, p: usize) -> (r: Option<(usize, u64)>)
    requires
        p <= src@.len(),
        !(spec_unsigned_number(src@, p as int) is Abort),
    ensures
        agrees(r, spec_unsigned_number(src@, p as int)),
        r matches Some((q, _)) ==> p < q <= src@.len(),
{
    let e = src.skip_digits(p);
    if e == p {
        return None;
    }
    proof {
        lemma_run_end_bounds(src@, p as int, |c: char| crate::base::input::is_digit(c));
    }
    match src.digits_upto(p, e, u64::MAX) {
        Some(v) => Some((e, v)),
        None => None,
    }
}

/// `(digits)`; the value is the range of the digits.
pub open spec fn spec_delim_digit(s: Seq<char>, p: int) -> Parsed<(int, int)> {
    if char_at(s, p, '(') && digits_end(s, p + 1) > p + 1 && char_at(s, digits_end(s, p + 1), ')') {
        Parsed::Done(digits_end(s, p + 1) + 1, (p + 1, digits_end(s, p + 1)))
    } else {
        Parsed::NoMatch
    }
}

pub fn delim_digit_at(src: &Input, p: usize) -> (r: Option<(usize, Span)>)
    requires
        p <= src@.len(),
    ensures
        agrees(r, spec_delim_digit(src@, p as int)),
        r matches Some((q, sp)) ==> p < q <= src@.len() && p < sp.start < sp.end < q,
{
    if src.is_char(p, '(') {
        let e = src.skip_digits(p + 1);
        if e > p + 1 && src.is_char(e, ')') {
            return Some((e + 1, Span { start: p + 1, end: e }));
        }
    }
    None
}

/// Value of the digits from `a` to `b` as a `u8`, aborting above 255.
pub open spec fn u8_of(s: Seq<char>, a: int, b: int) -> Option<u8> {
    if digits_value(s.subrange(a, b)) <= u8::MAX {
        Some(digits_value(s.subrange(a, b)) as u8)
    } else {
        None
    }
}

/// `(m[, d])` with `m` and `d` digits, white space allowed after the comma;
/// values above 255 abort.
pub open spec fn spec_precision(s: Seq<char>, p: int) -> Parsed<(u8, Option<u8>)> {
    let m_end = digits_end(s, p + 1);
    if char_at(s, p, '(') && m_end > p + 1 {
        let d_start = ws_end(s, m_end + 1);
        let d_end = digits_end(s, d_start);
        let has_d = char_at(s, m_end, ',') && d_end > d_start;
        let close = if has_d {
            d_end
        } else {
            m_end
        };
        if char_at(s, close, ')') {
            match u8_of(s, p + 1, m_end) {
                Some(m) => if has_d {
                    match u8_of(s, d_start, d_end) {
                        Some(d) => Parsed::Done(close + 1, (m, Some(d))),
                        None => Parsed::Abort,
                    }
                } else {
                    Parsed::Done(close + 1, (m, None))
                },
                None => Parsed::Abort,
            }
        } else {
            Parsed::NoMatch
        }
    } else {
        Parsed::NoMatch
    }
}

pub fn precision_at(src: &Input, p: usize) -> (r: Option<(usize, (u8, Option<u8>))>)
    requires
        p <= src@.len(),
        !(spec_precision(src@, p as int) is Abort),
    ensures
        agrees(r, spec_precision(src@, p as int)),
        r matches Some((q, _)) ==> p < q <= src@.len(),
{
    if !src.is_char(p, '(') {
        return None;
    }
    let m_end = src.skip_digits(p + 1);
    if m_end == p + 1 {
        return None;
    }
    proof {
        lemma_run_end_bounds(src@, p + 1, |c: char| crate::base::input::is_digit(c));
    }
    let mut d_span: Option<Span> = None;
    if src.is_char(m_end, ',') {
        let d_start = src.skip_ws(m_end + 1);
        let d_end = src.skip_digits(d_start);
        if d_end > d_start {
            proof {
                lemma_run_end_bounds(src@, d_start as int, |c: char| crate::base::input::is_digit(c));
            }
            d_span = Some(Span { start: d_start, end: d_end });
        }
    }
    let close = match d_span {
        Some(sp) => sp.end,
        None => m_end,
    };
    if !src.is_char(close, ')') {
        return None;
    }
    let m = match src.digits_upto(p + 1, m_end, 255) {
        Some(v) => v as u8,
        None => return None,
    };
    match d_span {
        Some(sp) => match src.digits_upto(sp.start, sp.end, 255) {
            Some(d) => Some((close + 1, (m, Some(d as u8)))),
            None => None,
        },
        None => Some((close + 1, (m, None))),
    }
}

/// `;`, a line ending or the end of the input, with white space around it.
pub open spec fn spec_statement_terminator(s: Seq<char>, p: int) -> Parsed<()> {
    let a = ws_end(s, p);
    let b = if char_at(s, a, ';') || char_at(s, a, '\n') {
        a + 1
    } else if char_at(s, a, '\r') && char_at(s, a + 1, '\n') {
        a + 2
    } else if a == s.len() {
        a
    } else {
        -1
    };
    if b >= 0 {
        Parsed::Done(ws_end(s, b), ())
    } else {
        Parsed::NoMatch
    }
}

pub fn statement_terminator_at(src: &Input, p: usize) -> (r: Option<(usize, ())>)
    requires
        p <= src@.len(),
    ensures
        agrees(r, spec_statement_terminator(src@, p as int)),
        r matches Some((q, _)) ==> p <= q <= src@.len(),
{
    let a = src.skip_ws(p);
    let b = if src.is_char(a, ';') || src.is_char(a, '\n') {
        a + 1
    } else if src.is_char(a, '\r') && src.is_char(a + 1, '\n') {
        a + 2
    } else if a == src.len() {
        a
    } else {
        return None;
    };
    Some((src.skip_ws(b), ()))
}

/// `white space [AS white space] identifier`; the value is the identifier's range.
pub open spec fn spec_as_alias(s: Seq<char>, p: int) -> Parsed<(int, int)> {
    let a = ws_end(s, p);
    if a > p {
        let b = if has_tag_nc(s, a, "AS"@) && ws_end(s, a + "AS"@.len()) > a + "AS"@.len() {
            ws_end(s, a + "AS"@.len())
        } else {
            a
        };
        spec_sql_identifier(s, b)
    } else {
        Parsed::NoMatch
    }
}

pub fn as_alias_at(src: &Input, p: usize) -> (r: Option<(usize, Span)>)
    requires
        p <= src@.len(),
    ensures
        agrees(r, spec_as_alias(src@, p as int)),
        r matches Some((q, sp)) ==> p < q <= src@.len() && p < sp.start < sp.end <= q,
{
    let a = src.skip_ws(p);
    if a == p {
        return None;
    }
    let mut b = a;
    if src.tag_nc(a, "AS") {
        let c = src.skip_ws(a + "AS".unicode_len());
        if c > a + "AS".unicode_len() {
            b = c;
        }
    }
    sql_identifier_at(src, b)
}

/// `white space c white space`; the value is the range of `c`.
pub open spec fn spec_ws_sep(s: Seq<char>, p: int, c: char) -> Parsed<(int, int)> {
    if char_at(s, ws_end(s, p), c) {
        Parsed::Done(ws_end(s, ws_end(s, p) + 1), (ws_end(s, p), ws_end(s, p) + 1))
    } else {
        Parsed::NoMatch
    }
}

pub fn ws_sep_at(src: &Input, p: usize, c: char) -> (r: Option<(usize, Span)>)
    requires
        p <= src@.len(),
    ensures
        agrees(r, spec_ws_sep(src@, p as int, c)),
        r matches Some((q, sp)) ==> p < q <= src@.len() && sp.start <= sp.end <= src@.len(),
{
    let a = src.skip_ws(p);
    if src.is_char(a, c) {
        Some((src.skip_ws(a + 1), Span { start: a, end: a + 1 }))
    } else {
        None
    }
}

/// `[white space] COMMENT white space quoted`, with `'` or `"` quotes; the
/// value is the range of the comment text.
pub open spec fn spec_parse_comment(s: Seq<char>, p: int) -> Parsed<(int, int)> {
    let a = ws_end(s, p);
    let b = a + "COMMENT"@.len();
    if has_tag_nc(s, a, "COMMENT"@) && ws_end(s, b) > b {
        spec_quoted_string(s, ws_end(s, b))
    } else {
        Parsed::NoMatch
    }
}

pub fn parse_comment_at(src: &Input, p: usize) -> (r: Option<(usize, Span)>)
    requires
        p <= src@.len(),
    ensures
        agrees(r, spec_parse_comment(src@, p as int)),
        r matches Some((q, sp)) ==> p < q <= src@.len() && sp.start <= sp.end <= src@.len(),
{
    let a = src.skip_ws(p);
    if !src.tag_nc(a, "COMMENT") {
        return None;
    }
    let b = a + "COMMENT".unicode_len();
    let c = src.skip_ws(b);
    if c == b {
        return None;
    }
    quoted_string_at(src, c)
}

/// `[white space] IF white space EXISTS [white space]`, optional; the value is
/// the range of the white space between `IF` and `EXISTS`.
pub open spec fn spec_parse_if_exists(s: Seq<char>, p: int) -> Parsed<Option<(int, int)>> {
    let a = ws_end(s, p);
    let b = a + "IF"@.len();
    let c = ws_end(s, b);
    if has_tag_nc(s, a, "IF"@) && c > b && has_tag_nc(s, c, "EXISTS"@) {
        Parsed::Done(ws_end(s, c + "EXISTS"@.len()), Some((b, c)))
    } else {
        Parsed::Done(p, None)
    }
}

pub fn parse_if_exists_at(src: &Input, p: usize) -> (r: Option<(usize, Option<Span>)>)
    requires
        p <= src@.len(),
    ensures
        agrees(r, spec_parse_if_exists(src@, p as int)),
        r matches Some((q, _)) ==> p <= q <= src@.len(),
{
    let a = src.skip_ws(p);
    if src.tag_nc(a, "IF") {
        let b = a + "IF".unicode_len();
        let c = src.skip_ws(b);
        if c > b && src.tag_nc(c, "EXISTS") {
            let e = src.skip_ws(c + "EXISTS".unicode_len());
            return Some((e, Some(Span { start: b, end: c })));
        }
    }
    Some((p, None))
}

/// Start of the value in `key [=] value`: after `key` and white space, or
/// after `key`, optional white space, `=` and optional white space. The first
/// form is tried first; when its value rule fails the second form is tried.
pub open spec fn key_space_start(s: Seq<char>, p: int, key: Seq<char>) -> int {
    if has_tag_nc(s, p, key) && ws_end(s, p + key.len()) > p + key.len() {
        ws_end(s, p + key.len())
    } else {
        -1
    }
}

pub open spec fn key_eq_start(s: Seq<char>, p: int, key: Seq<char>) -> int {
    if has_tag_nc(s, p, key) && char_at(s, ws_end(s, p + key.len()), '=') {
        ws_end(s, ws_end(s, p + key.len()) + 1)
    } else {
        -1
    }
}

pub fn key_space_start_at(src: &Input, p: usize, key: &str) -> (r: Option<usize>)
    requires
        p <= src@.len(),
    ensures
        r matches Some(q) ==> q == key_space_start(src@, p as int, key@),
        r is None <==> key_space_start(src@, p as int, key@) < 0,
        r matches Some(q) ==> p < q <= src@.len(),
{
    if src.tag_nc(p, key) {
        let b = p + key.unicode_len();
        let c = src.skip_ws(b);
        if c > b {
            return Some(c);
        }
    }
    None
}

pub fn key_eq_start_at(src: &Input, p: usize, key: &str) -> (r: Option<usize>)
    requires
        p <= src@.len(),
    ensures
        r matches Some(q) ==> q == key_eq_start(src@, p as int, key@),
        r is None <==> key_eq_start(src@, p as int, key@) < 0,
        r matches Some(q) ==> p < q <= src@.len(),
{
    if src.tag_nc(p, key) {
        let b = src.skip_ws(p + key.unicode_len());
        if src.is_char(b, '=') {
            return Some(src.skip_ws(b + 1));
        }
    }
    None
}

/// `key [=] 'value'` or `key [=] "value"`; the value's range.
pub open spec fn spec_quoted_value_with_key(s: Seq<char>, p: int, key: Seq<char>) -> Parsed<
    (int, int),
> {
    alt(
        if key_space_start(s, p, key) >= 0 {
            spec_quoted_string(s, key_space_start(s, p, key))
        } else {
            Parsed::NoMatch
        },
        if key_eq_start(s, p, key) >= 0 {
            spec_quoted_string(s, key_eq_start(s, p, key))
        } else {
            Parsed::NoMatch
        },
    )
}

pub fn quoted_value_with_key_at(src: &Input, p: usize, key: &str) -> (r: Option<(usize, Span)>)
    requires
        p <= src@.len(),
    ensures
        agrees(r, spec_quoted_value_with_key(src@, p as int, key@)),
        r matches Some((q, sp)) ==> p < q <= src@.len() && sp.start <= sp.end <= src@.len(),
{
    if let Some(a) = key_space_start_at(src, p, key) {
        if let Some(x) = quoted_string_at(src, a) {
            return Some(x);
        }
    }
    match key_eq_start_at(src, p, key) {
        Some(b) => quoted_string_at(src, b),
        None => None,
    }
}

/// `key [=] identifier`; the identifier's range.
pub open spec fn spec_string_value_with_key(s: Seq<char>, p: int, key: Seq<char>) -> Parsed<
    (int, int),
> {
    alt(
        if key_space_start(s, p, key) >= 0 {
            spec_sql_identifier(s, key_space_start(s, p, key))
        } else {
            Parsed::NoMatch
        },
        if key_eq_start(s, p, key) >= 0 {
            spec_sql_identifier(s, key_eq_start(s, p, key))
        } else {
            Parsed::NoMatch
        },
    )
}

pub fn string_value_with_key_at(src: &Input, p: usize, key: &str) -> (r: Option<(usize, Span)>)
    requires
        p <= src@.len(),
    ensures
        agrees(r, spec_string_value_with_key(src@, p as int, key@)),
        r matches Some((q, sp)) ==> p < q <= src@.len() && sp.start <= sp.end <= src@.len(),
{
    if let Some(a) = key_space_start_at(src, p, key) {
        if let Some(x) = sql_identifier_at(src, a) {
            return Some(x);
        }
    }
    match key_eq_start_at(src, p, key) {
        Some(b) => sql_identifier_at(src, b),
        None => None,
    }
}

/// `key identifier` or `key [white space] = [white space] digits`; the range
/// of the identifier or the digits.
pub open spec fn spec_digit_value_with_key(s: Seq<char>, p: int, key: Seq<char>) -> Parsed<
    (int, int),
> {
    alt(
        if key_space_start(s, p, key) >= 0 {
            spec_sql_identifier(s, key_space_start(s, p, key))
        } else {
            Parsed::NoMatch
        },
        if key_eq_start(s, p, key) >= 0 && digits_end(s, key_eq_start(s, p, key)) > key_eq_start(
            s,
            p,
            key,
        ) {
            Parsed::Done(
                digits_end(s, key_eq_start(s, p, key)),
                (key_eq_start(s, p, key), digits_end(s, key_eq_start(s, p, key))),
            )
        } else {
            Parsed::NoMatch
        },
    )
}

pub fn digit_value_with_key_at(src: &Input, p: usize, key: &str) -> (r: Option<(usize, Span)>)
    requires
        p <= src@.len(),
    ensures
        agrees(r, spec_digit_value_with_key(src@, p as int, key@)),
        r matches Some((q, sp)) ==> p < q <= src@.len() && sp.start <= sp.end <= src@.len(),
{
    if let Some(a) = key_space_start_at(src, p, key) {
        if let Some(x) = sql_identifier_at(src, a) {
            return Some(x);
        }
    }
    match key_eq_start_at(src, p, key) {
        Some(b) => {
            let e = src.skip_digits(b);
            if e > b {
                Some((e, Span { start: b, end: e }))
            } else {
                None
            }
        },
        None => None,
    }
}

/// `key ws value` or `key [ws] = [ws] value` with a value in `{0 | 1 | DEFAULT}`.
pub open spec fn spec_default_value_with_key(s: Seq<char>, p: int, key: Seq<char>) -> Parsed<
    DefaultOrZeroOrOne,
> {
    alt(
        if key_space_start(s, p, key) >= 0 {
            spec_default_or_zero_or_one(s, key_space_start(s, p, key))
        } else {
            Parsed::NoMatch
        },
        if key_eq_start(s, p, key) >= 0 {
            spec_default_or_zero_or_one(s, key_eq_start(s, p, key))
        } else {
            Parsed::NoMatch
        },
    )
}

pub fn default_value_with_key_at(src: &Input, p: usize, key: &str) -> (r: Option<
    (usize, DefaultOrZeroOrOne),
>)
    requires
        p <= src@.len(),
    ensures
        agrees(r, spec_default_value_with_key(src@, p as int, key@)),
        r matches Some((q, _)) ==> p < q <= src@.len(),
{
    if let Some(a) = key_space_start_at(src, p, key) {
        if let Some(x) = default_or_zero_or_one_at(src, a) {
            return Some(x);
        }
    }
    match key_eq_start_at(src, p, key) {
        Some(b) => default_or_zero_or_one_at(src, b),
        None => None,
    }
}

/// `ws identifier [ws]`, or nothing: the identifier's range.
pub open spec fn spec_opt_index_name(s: Seq<char>, p: int) -> Parsed<Option<(int, int)>> {
    let a = ws_end(s, p);
    if a > p {
        match spec_sql_identifier(s, a) {
            Parsed::Done(e, r) => Parsed::Done(ws_end(s, e), Some(r)),
            _ => Parsed::Done(p, None),
        }
    } else {
        Parsed::Done(p, None)
    }
}

pub fn opt_index_name_at(src: &Input, p: usize) -> (r: Option<(usize, Option<Span>)>)
    requires
        p <= src@.len(),
    ensures
        agrees(r, spec_opt_index_name(src@, p as int)),
        r matches Some((q, sp)) ==> p <= q <= src@.len() && (sp matches Some(x) ==> x.start
            <= x.end <= src@.len()),
{
    let a = src.skip_ws(p);
    if a > p {
        if let Some((e, sp)) = sql_identifier_at(src, a) {
            return Some((src.skip_ws(e), Some(sp)));
        }
    }
    Some((p, None))
}

/// The text of an optional range as an outcome over optional strings.
pub open spec fn opt_text_of(s: Seq<char>, sp: Parsed<Option<(int, int)>>) -> Parsed<
    Option<Seq<char>>,
> {
    match sp {
        Parsed::Done(q, Some((a, b))) => Parsed::Done(q, Some(s.subrange(a, b))),
        Parsed::Done(q, None) => Parsed::Done(q, None),
        Parsed::NoMatch => Parsed::NoMatch,
        Parsed::Abort => Parsed::Abort,
    }
}

/// The keyword rule as an outcome: the matched keyword text.
pub open spec fn keyword_outcome(s: Seq<char>, p: int) -> Parsed<Seq<char>> {
    match spec_sql_keyword(s, p) {
        Some(q) => Parsed::Done(q, s.subrange(p, q)),
        None => Parsed::NoMatch,
    }
}

/// Collection of commonly used parsers.
pub struct CommonParser;

impl CommonParser {
    /// Matches any SQL reserved keyword followed by a follow character or the end.
    pub fn sql_keyword(i: &str) -> (r: Result<(&str, &str), ParseSQLError>)
        ensures
            str_agrees(i@, r, keyword_outcome(i@, 0)),
    {
        let src = Input::new(i);
        match sql_keyword_at(&src, 0) {
            Some(q) => Ok((src.rest(q), src.slice(0, q))),
            None => Err(ParseSQLError::grammar(i)),
        }
    }

    /// An identifier (see [`spec_sql_identifier`]).
    pub fn sql_identifier(i: &str) -> (r: Result<(&str, &str), ParseSQLError>)
        ensures
            str_agrees(i@, r, text_of(i@, spec_sql_identifier(i@, 0))),
    {
        let src = Input::new(i);
        match sql_identifier_at(&src, 0) {
            Some((q, sp)) => Ok((src.rest(q), src.slice(sp.start, sp.end))),
            None => Err(ParseSQLError::grammar(i)),
        }
    }

    /// `(m[, d])`.
    pub fn precision(i: &str) -> (r: Result<(&str, (u8, Option<u8>)), ParseSQLError>)
        requires
            !(spec_precision(i@, 0) is Abort),
        ensures
            str_agrees(i@, r, spec_precision(i@, 0)),
    {
        let src = Input::new(i);
        match precision_at(&src, 0) {
            Some((q, v)) => Ok((src.rest(q), v)),
            None => Err(ParseSQLError::grammar(i)),
        }
    }

    /// `(digits)`; returns the digits.
    pub fn delim_digit(i: &str) -> (r: Result<(&str, &str), ParseSQLError>)
        ensures
            str_agrees(i@, r, text_of(i@, spec_delim_digit(i@, 0))),
    {
        let src = Input::new(i);
        match delim_digit_at(&src, 0) {
            Some((q, sp)) => Ok((src.rest(q), src.slice(sp.start, sp.end))),
            None => Err(ParseSQLError::grammar(i)),
        }
    }

    /// An unsigned integer.
    pub fn unsigned_number(i: &str) -> (r: Result<(&str, u64), ParseSQLError>)
        requires
            !(spec_unsigned_number(i@, 0) is Abort),
        ensures
            str_agrees(i@, r, spec_unsigned_number(i@, 0)),
    {
        let src = Input::new(i);
        match unsigned_number_at(&src, 0) {
            Some((q, v)) => Ok((src.rest(q), v)),
            None => Err(ParseSQLError::grammar(i)),
        }
    }

    /// Succeeds on the empty input only.
    pub fn eof(i: &str) -> (r: Result<(&str, &str), ParseSQLError>)
        ensures
            i@.len() == 0 ==> (r matches Ok((a, b)) && a@ == i@ && b@ == i@),
            i@.len() != 0 ==> (r matches Err(e) && is_grammar_error(i@, e)),
    {
        if i.unicode_len() == 0 {
            Ok((i, i))
        } else {
            Err(ParseSQLError::grammar(i))
        }
    }

    /// A terminator that ends a SQL statement.
    pub fn statement_terminator(i: &str) -> (r: Result<(&str, ()), ParseSQLError>)
        ensures
            str_agrees(i@, r, spec_statement_terminator(i@, 0)),
    {
        let src = Input::new(i);
        match statement_terminator_at(&src, 0) {
            Some((q, v)) => Ok((src.rest(q), v)),
            None => Err(ParseSQLError::grammar(i)),
        }
    }

    /// An `AS`-based alias; returns the alias.
    pub fn as_alias(i: &str) -> (r: Result<(&str, &str), ParseSQLError>)
        ensures
            str_agrees(i@, r, text_of(i@, spec_as_alias(i@, 0))),
    {
        let src = Input::new(i);
        match as_alias_at(&src, 0) {
            Some((q, sp)) => Ok((src.rest(q), src.slice(sp.start, sp.end))),
            None => Err(ParseSQLError::grammar(i)),
        }
    }

    /// A comma with optional white space around it.
    pub fn ws_sep_comma(i: &str) -> (r: Result<(&str, &str), ParseSQLError>)
        ensures
            str_agrees(i@, r, text_of(i@, spec_ws_sep(i@, 0, ','))),
    {
        let src = Input::new(i);
        match ws_sep_at(&src, 0, ',') {
            Some((q, sp)) => Ok((src.rest(q), src.slice(sp.start, sp.end))),
            None => Err(ParseSQLError::grammar(i)),
        }
    }

    /// An equals sign with optional white space around it.
    pub(crate) fn ws_sep_equals(i: &str) -> (r: Result<(&str, &str), ParseSQLError>)
        ensures
            str_agrees(i@, r, text_of(i@, spec_ws_sep(i@, 0, '='))),
    {
        let src = Input::new(i);
        match ws_sep_at(&src, 0, '=') {
            Some((q, sp)) => Ok((src.rest(q), src.slice(sp.start, sp.end))),
            None => Err(ParseSQLError::grammar(i)),
        }
    }

    /// `COMMENT 'comment content'` or `COMMENT "comment content"`.
    pub fn parse_comment(i: &str) -> (r: Result<(&str, String), ParseSQLError>)
        ensures
            str_agrees(i@, r, text_of(i@, spec_parse_comment(i@, 0))),
    {
        let src = Input::new(i);
        match parse_comment_at(&src, 0) {
            Some((q, sp)) => Ok((src.rest(q), src.string(sp.start, sp.end))),
            None => Err(ParseSQLError::grammar(i)),
        }
    }

    /// An optional `IF EXISTS`.
    pub fn parse_if_exists(i: &str) -> (r: Result<(&str, Option<&str>), ParseSQLError>)
        ensures
            str_agrees(i@, r, opt_text_of(i@, spec_parse_if_exists(i@, 0))),
    {
        let src = Input::new(i);
        match parse_if_exists_at(&src, 0) {
            Some((q, Some(sp))) => Ok((src.rest(q), Some(src.slice(sp.start, sp.end)))),
            Some((q, None)) => Ok((src.rest(q), None)),
            None => Err(ParseSQLError::grammar(i)),
        }
    }

    /// A string quoted by `'` or `"`.
    pub fn parse_quoted_string(i: &str) -> (r: Result<(&str, String), ParseSQLError>)
        ensures
            str_agrees(i@, r, text_of(i@, spec_quoted_string(i@, 0))),
    {
        let src = Input::new(i);
        match quoted_string_at(&src, 0) {
            Some((q, sp)) => Ok((src.rest(q), src.string(sp.start, sp.end))),
            None => Err(ParseSQLError::grammar(i)),
        }
    }

    /// The value of `key [=] 'value'` or `key [=] "value"`.
    pub fn parse_quoted_string_value_with_key(i: &str, key: String) -> (r: Result<
        (&str, String),
        ParseSQLError,
    >)
        ensures
            str_agrees(i@, r, text_of(i@, spec_quoted_value_with_key(i@, 0, key@))),
    {
        let src = Input::new(i);
        match quoted_value_with_key_at(&src, 0, key.as_str()) {
            Some((q, sp)) => Ok((src.rest(q), src.string(sp.start, sp.end))),
            None => Err(ParseSQLError::grammar(i)),
        }
    }

    /// The value of `key [=] value` with an identifier as value.
    pub fn parse_string_value_with_key(i: &str, key: String) -> (r: Result<
        (&str, String),
        ParseSQLError,
    >)
        ensures
            str_agrees(i@, r, text_of(i@, spec_string_value_with_key(i@, 0, key@))),
    {
        let src = Input::new(i);
        match string_value_with_key_at(&src, 0, key.as_str()) {
            Some((q, sp)) => Ok((src.rest(q), src.string(sp.start, sp.end))),
            None => Err(ParseSQLError::grammar(i)),
        }
    }

    /// The value of `key value` (an identifier) or `key = digits`.
    pub fn parse_digit_value_with_key(i: &str, key: String) -> (r: Result<
        (&str, String),
        ParseSQLError,
    >)
        ensures
            str_agrees(i@, r, text_of(i@, spec_digit_value_with_key(i@, 0, key@))),
    {
        let src = Input::new(i);
        match digit_value_with_key_at(&src, 0, key.as_str()) {
            Some((q, sp)) => Ok((src.rest(q), src.string(sp.start, sp.end))),
            None => Err(ParseSQLError::grammar(i)),
        }
    }

    /// `ws identifier [ws]`, or nothing (which always succeeds).
    pub fn opt_index_name(i: &str) -> (r: Result<(&str, Option<String>), ParseSQLError>)
        ensures
            str_agrees(i@, r, opt_text_of(i@, spec_opt_index_name(i@, 0))),
    {
        let src = Input::new(i);
        match opt_index_name_at(&src, 0) {
            Some((q, sp)) => Ok(
                (
                    src.rest(q),
                    match sp {
                        Some(x) => Some(src.string(x.start, x.end)),
                        None => None,
                    },
                ),
            ),
            None => Err(ParseSQLError::grammar(i)),
        }
    }

    /// `column [ws] [(length)] [ASC | DESC]`: the column, the length and the order.
    pub fn index_col_name(i: &str) -> (r: Result<
        (&str, (Column, Option<u16>, Option<OrderType>)),
        ParseSQLError,
    >)
        requires
            !(spec_index_col_name(i@, 0) is Abort),
        ensures
            str_agrees(i@, r, spec_index_col_name(i@, 0)),
    {
        let src = Input::new(i);
        match index_col_name_at(&src, 0) {
            Some((q, v)) => Ok((src.rest(q), v)),
            None => Err(ParseSQLError::grammar(i)),
        }
    }

    /// `key ws value` or `key [ws] = [ws] value`, the value in `{0 | 1 | DEFAULT}`.
    pub fn parse_default_value_with_key(i: &str, key: String) -> (r: Result<
        (&str, DefaultOrZeroOrOne),
        ParseSQLError,
    >)
        ensures
            str_agrees(i@, r, spec_default_value_with_key(i@, 0, key@)),
    {
        let src = Input::new(i);
        match default_value_with_key_at(&src, 0, key.as_str()) {
            Some((q, v)) => Ok((src.rest(q), v)),
            None => Err(ParseSQLError::grammar(i)),
        }
    }
}

} // verus!
