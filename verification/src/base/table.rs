//! Table references: `[schema.]name [[AS] alias]`.
use vstd::prelude::*;

use crate::base::common_parser::{
    as_alias_at, lemma_sql_identifier_bounds, spec_as_alias, spec_sql_identifier, sql_identifier_at,
    Span,
};
use crate::base::display_util::{escaped_name, DisplayUtil};
use crate::base::error::ParseSQLError;
use crate::base::input::{agrees, char_at, has_tag_nc, str_agrees, ws_end, Input, Parsed};
use crate::base::literal::{opt_comma_end, opt_comma_end_at, prepend};

verus! {

/// **Table Definition**
#[derive(Debug, Default, Eq, Hash, PartialEq)]
pub struct Table {
    /// Table name
    pub name: String,
    /// Optional table name alias
    pub alias: Option<String>,
    /// Optional schema/database name
    pub schema: Option<String>,
}

pub struct TableView {
    pub name: Seq<char>,
    pub alias: Option<Seq<char>>,
    pub schema: Option<Seq<char>>,
}

impl DeepView for Table {
    type V = TableView;

    open spec fn deep_view(&self) -> TableView {
        TableView { name: self.name@, alias: self.alias.deep_view(), schema: self.schema.deep_view() }
    }
}

/// Optional `identifier.` prefix; the value is the identifier's range.
pub open spec fn spec_schema_prefix(s: Seq<char>, p: int) -> Parsed<Option<(int, int)>> {
    match spec_sql_identifier(s, p) {
        Parsed::Done(q, r) => if char_at(s, q, '.') {
            Parsed::Done(q + 1, Some(r))
        } else {
            Parsed::Done(p, None)
        },
        _ => Parsed::Done(p, None),
    }
}

pub fn schema_prefix_at(src: &Input, p: usize) -> (r: Option<(usize, Option<Span>)>)
    requires
        p <= src@.len(),
    ensures
        agrees(r, spec_schema_prefix(src@, p as int)),
        r matches Some((q, sp)) ==> p <= q <= src@.len() && (sp matches Some(x) ==> x.start
            <= x.end <= src@.len()),
{
    match sql_identifier_at(src, p) {
        Some((q, sp)) => if src.is_char(q, '.') {
            Some((q + 1, Some(sp)))
        } else {
            Some((p, None))
        },
        None => Some((p, None)),
    }
}

/// The text of an optional range.
pub open spec fn opt_range_text(s: Seq<char>, r: Option<(int, int)>) -> Option<Seq<char>> {
    match r {
        Some((a, b)) => Some(s.subrange(a, b)),
        None => None,
    }
}

pub fn opt_span_string(src: &Input, r: Option<Span>) -> (t: Option<String>)
    requires
        r matches Some(x) ==> x.start <= x.end <= src@.len(),
    ensures
        t.deep_view() == opt_range_text(
            src@,
            match r {
                Some(x) => Some((x.start as int, x.end as int)),
                None => None,
            },
        ),
{
    match r {
        Some(x) => Some(src.string(x.start, x.end)),
        None => None,
    }
}

/// `[schema.]name [[AS] alias]`
pub open spec fn spec_schema_table_reference(s: Seq<char>, p: int) -> Parsed<TableView> {
    match spec_schema_prefix(s, p) {
        Parsed::Done(q, schema) => match spec_sql_identifier(s, q) {
            Parsed::Done(e, (a, b)) => match spec_as_alias(s, e) {
                Parsed::Done(f, al) => Parsed::Done(
                    f,
                    TableView {
                        name: s.subrange(a, b),
                        alias: opt_range_text(s, Some(al)),
                        schema: opt_range_text(s, schema),
                    },
                ),
                _ => Parsed::Done(
                    e,
                    TableView {
                        name: s.subrange(a, b),
                        alias: None,
                        schema: opt_range_text(s, schema),
                    },
                ),
            },
            _ => Parsed::NoMatch,
        },
        _ => Parsed::NoMatch,
    }
}

pub fn schema_table_reference_at(src: &Input, p: usize) -> (r: Option<(usize, Table)>)
    requires
        p <= src@.len(),
    ensures
        agrees(r, spec_schema_table_reference(src@, p as int)),
        r matches Some((q, _)) ==> p < q <= src@.len(),
{
    let (q, schema) = match schema_prefix_at(src, p) {
        Some(x) => x,
        None => return None,
    };
    let (e, sp) = match sql_identifier_at(src, q) {
        Some(x) => x,
        None => return None,
    };
    let schema = opt_span_string(src, schema);
    let name = src.string(sp.start, sp.end);
    match as_alias_at(src, e) {
        Some((f, al)) => Some((f, Table { name, alias: Some(src.string(al.start, al.end)), schema })),
        None => Some((e, Table { name, alias: None, schema })),
    }
}

/// `name [[AS] alias]`
pub open spec fn spec_table_reference(s: Seq<char>, p: int) -> Parsed<TableView> {
    match spec_sql_identifier(s, p) {
        Parsed::Done(e, (a, b)) => match spec_as_alias(s, e) {
            Parsed::Done(f, al) => Parsed::Done(
                f,
                TableView { name: s.subrange(a, b), alias: opt_range_text(s, Some(al)), schema: None },
            ),
            _ => Parsed::Done(e, TableView { name: s.subrange(a, b), alias: None, schema: None }),
        },
        _ => Parsed::NoMatch,
    }
}

pub fn table_reference_at(src: &Input, p: usize) -> (r: Option<(usize, Table)>)
    requires
        p <= src@.len(),
    ensures
        agrees(r, spec_table_reference(src@, p as int)),
        r matches Some((q, _)) ==> p < q <= src@.len(),
{
    let (e, sp) = match sql_identifier_at(src, p) {
        Some(x) => x,
        None => return None,
    };
    let name = src.string(sp.start, sp.end);
    match as_alias_at(src, e) {
        Some((f, al)) => Some(
            (f, Table { name, alias: Some(src.string(al.start, al.end)), schema: None }),
        ),
        None => Some((e, Table { name, alias: None, schema: None })),
    }
}

/// `[schema.]name`
pub open spec fn spec_table_without_alias(s: Seq<char>, p: int) -> Parsed<TableView> {
    match spec_schema_prefix(s, p) {
        Parsed::Done(q, schema) => match spec_sql_identifier(s, q) {
            Parsed::Done(e, (a, b)) => Parsed::Done(
                e,
                TableView { name: s.subrange(a, b), alias: None, schema: opt_range_text(s, schema) },
            ),
            _ => Parsed::NoMatch,
        },
        _ => Parsed::NoMatch,
    }
}

pub fn table_without_alias_at(src: &Input, p: usize) -> (r: Option<(usize, Table)>)
    requires
        p <= src@.len(),
    ensures
        agrees(r, spec_table_without_alias(src@, p as int)),
        r matches Some((q, _)) ==> p < q <= src@.len(),
{
    let (q, schema) = match schema_prefix_at(src, p) {
        Some(x) => x,
        None => return None,
    };
    let (e, sp) = match sql_identifier_at(src, q) {
        Some(x) => x,
        None => return None,
    };
    let schema = opt_span_string(src, schema);
    Some((e, Table { name: src.string(sp.start, sp.end), alias: None, schema }))
}

/// As many `schema_table_reference [ws , ws]` as match.
pub open spec fn spec_table_list(s: Seq<char>, p: int) -> Parsed<Seq<TableView>>
    decreases s.len() - p,
{
    match spec_schema_table_reference(s, p) {
        Parsed::Done(e, t) => {
            let f = opt_comma_end(s, e);
            if p < f <= s.len() {
                prepend(seq![t], spec_table_list(s, f))
            } else {
                Parsed::NoMatch
            }
        },
        _ => Parsed::Done(p, Seq::empty()),
    }
}

pub fn table_list_at(src: &Input, p: usize) -> (r: Option<(usize, Vec<Table>)>)
    requires
        p <= src@.len(),
    ensures
        agrees(r, spec_table_list(src@, p as int)),
        r matches Some((e, _)) ==> p <= e <= src@.len(),
{
    let mut acc: Vec<Table> = Vec::new();
    let mut k = p;
    loop
        invariant
            p <= k <= src@.len(),
            spec_table_list(src@, p as int) == prepend(acc.deep_view(), spec_table_list(src@, k as int)),
        decreases src@.len() - k,
    {
        match schema_table_reference_at(src, k) {
            Some((e, t)) => {
                let f = opt_comma_end_at(src, e);
                let ghost old_acc = acc.deep_view();
                let ghost tv = t.deep_view();
                acc.push(t);
                assert(acc.deep_view() =~= old_acc + seq![tv]);
                proof {
                    let tail = spec_table_list(src@, f as int);
                    match tail {
                        Parsed::Done(h, ys) => assert(old_acc + (seq![tv] + ys) =~= acc.deep_view() + ys),
                        _ => {},
                    }
                }
                k = f;
            },
            None => {
                assert(acc.deep_view() + Seq::<TableView>::empty() =~= acc.deep_view());
                return Some((k, acc));
            },
        }
    }
}

/// `table_reference [ws] TO ws table_reference`, both with optional schema and alias.
pub open spec fn spec_table_to_table(s: Seq<char>, p: int) -> Parsed<(TableView, TableView)> {
    match spec_schema_table_reference(s, p) {
        Parsed::Done(e, from) => {
            let a = ws_end(s, e);
            let b = a + "TO"@.len();
            if has_tag_nc(s, a, "TO"@) && ws_end(s, b) > b {
                match spec_schema_table_reference(s, ws_end(s, b)) {
                    Parsed::Done(f, to) => Parsed::Done(f, (from, to)),
                    _ => Parsed::NoMatch,
                }
            } else {
                Parsed::NoMatch
            }
        },
        _ => Parsed::NoMatch,
    }
}

pub fn table_to_table_at(src: &Input, p: usize) -> (r: Option<(usize, (Table, Table))>)
    requires
        p <= src@.len(),
    ensures
        agrees(r, spec_table_to_table(src@, p as int)),
        r matches Some((q, _)) ==> p < q <= src@.len(),
{
    let (e, from) = match schema_table_reference_at(src, p) {
        Some(x) => x,
        None => return None,
    };
    let a = src.skip_ws(e);
    if !src.tag_nc(a, "TO") {
        return None;
    }
    let b = a + "TO".unicode_len();
    let c = src.skip_ws(b);
    if c == b {
        return None;
    }
    match schema_table_reference_at(src, c) {
        Some((f, to)) => Some((f, (from, to))),
        None => None,
    }
}

/// `[schema.]name[ AS alias]`, each name escaped when it reads as a keyword.
pub open spec fn table_text(t: TableView) -> Seq<char> {
    (match t.schema {
        Some(sc) => escaped_name(sc) + seq!['.'],
        None => Seq::empty(),
    }) + escaped_name(t.name) + (match t.alias {
        Some(al) => " AS "@ + escaped_name(al),
        None => Seq::empty(),
    })
}

impl Table {
    /// A list of table names, separated by optional commas.
    pub fn table_list(i: &str) -> (r: Result<(&str, Vec<Table>), ParseSQLError>)
        ensures
            str_agrees(i@, r, spec_table_list(i@, 0)),
    {
        let src = Input::new(i);
        match table_list_at(&src, 0) {
            Some((q, v)) => Ok((src.rest(q), v)),
            None => Err(ParseSQLError::grammar(i)),
        }
    }

    /// A reference to a named schema.table, with an optional alias.
    pub fn schema_table_reference(i: &str) -> (r: Result<(&str, Table), ParseSQLError>)
        ensures
            str_agrees(i@, r, spec_schema_table_reference(i@, 0)),
    {
        let src = Input::new(i);
        match schema_table_reference_at(&src, 0) {
            Some((q, v)) => Ok((src.rest(q), v)),
            None => Err(ParseSQLError::grammar(i)),
        }
    }

    /// A reference to a named table, with an optional alias.
    pub fn table_reference(i: &str) -> (r: Result<(&str, Table), ParseSQLError>)
        ensures
            str_agrees(i@, r, spec_table_reference(i@, 0)),
    {
        let src = Input::new(i);
        match table_reference_at(&src, 0) {
            Some((q, v)) => Ok((src.rest(q), v)),
            None => Err(ParseSQLError::grammar(i)),
        }
    }

    /// A table name with an optional schema and no alias (as DROP, TRUNCATE
    /// and RENAME TABLE take it).
    pub fn without_alias(i: &str) -> (r: Result<(&str, Table), ParseSQLError>)
        ensures
            str_agrees(i@, r, spec_table_without_alias(i@, 0)),
    {
        let src = Input::new(i);
        match table_without_alias_at(&src, 0) {
            Some((q, v)) => Ok((src.rest(q), v)),
            None => Err(ParseSQLError::grammar(i)),
        }
    }

    /// `db_name.tb_name TO db_name.tb_name`
    pub fn schema_table_reference_to_schema_table_reference(i: &str) -> (r: Result<
        (&str, (Table, Table)),
        ParseSQLError,
    >)
        ensures
            str_agrees(i@, r, spec_table_to_table(i@, 0)),
    {
        let src = Input::new(i);
        match table_to_table_at(&src, 0) {
            Some((q, v)) => Ok((src.rest(q), v)),
            None => Err(ParseSQLError::grammar(i)),
        }
    }

    /// The SQL text of the table reference.
    pub fn to_string(&self) -> (r: String)
        ensures
            r@ == table_text(self.deep_view()),
    {
        let mut out = String::new();
        match &self.schema {
            Some(sc) => {
                out.append(DisplayUtil::escape_if_keyword(sc.as_str()).as_str());
                out.append(".");
                proof {
                    reveal_strlit(".");
                }
            },
            None => {},
        }
        out.append(DisplayUtil::escape_if_keyword(self.name.as_str()).as_str());
        match &self.alias {
            Some(al) => {
                out.append(" AS ");
                out.append(DisplayUtil::escape_if_keyword(al.as_str()).as_str());
            },
            None => {},
        }
        assert(out@ =~= table_text(self.deep_view()));
        out
    }

    /// A table with the given name and no alias or schema.
    pub fn from_name(t: &str) -> (r: Table)
        ensures
            r.deep_view() == (TableView { name: t@, alias: None, schema: None }),
    {
        Table { name: t.to_owned(), alias: None, schema: None }
    }

    /// A table with the given schema and name and no alias.
    pub fn from_schema_and_name(schema: &str, name: &str) -> (r: Table)
        ensures
            r.deep_view() == (TableView { name: name@, alias: None, schema: Some(schema@) }),
    {
        Table { name: name.to_owned(), alias: None, schema: Some(schema.to_owned()) }
    }
}

impl<'a> From<&'a str> for Table {
    fn from(t: &str) -> Table {
        Table::from_name(t)
    }
}

impl<'a> vstd::std_specs::convert::FromSpecImpl<&'a str> for Table {
    open spec fn obeys_from_spec() -> bool {
        false
    }

    open spec fn from_spec(t: &'a str) -> Table {
        vstd::pervasive::arbitrary()
    }
}

impl<'a> From<(&'a str, &'a str)> for Table {
    fn from(t: (&str, &str)) -> Table {
        Table::from_schema_and_name(t.0, t.1)
    }
}

impl<'a> vstd::std_specs::convert::FromSpecImpl<(&'a str, &'a str)> for Table {
    open spec fn obeys_from_spec() -> bool {
        false
    }

    open spec fn from_spec(t: (&'a str, &'a str)) -> Table {
        vstd::pervasive::arbitrary()
    }
}

} // verus!
