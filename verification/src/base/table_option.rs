//! table_option: `{AUTOEXTEND_SIZE [=] value | AUTO_INCREMENT [=] value
//! | AVG_ROW_LENGTH [=] value | [DEFAULT] CHARACTER SET [=] charset_name
//! | CHECKSUM [=] {0 | 1} | [DEFAULT] COLLATE [=] collation_name
//! | COMMENT [=] 'string' | COMPRESSION [=] {'ZLIB' | 'LZ4' | 'NONE'}
//! | CONNECTION [=] 'connect_string' | {DATA | INDEX} DIRECTORY [=] 'path'
//! | DELAY_KEY_WRITE [=] {0 | 1} | ENCRYPTION [=] {'Y' | 'N'} | ENGINE [=] engine_name
//! | ENGINE_ATTRIBUTE [=] 'string' | INSERT_METHOD [=] {NO | FIRST | LAST}
//! | KEY_BLOCK_SIZE [=] value | MAX_ROWS [=] value | MIN_ROWS [=] value
//! | PACK_KEYS [=] {0 | 1 | DEFAULT} | PASSWORD [=] 'string'
//! | ROW_FORMAT [=] {DEFAULT | DYNAMIC | FIXED | COMPRESSED | REDUNDANT | COMPACT}
//! | SECONDARY_ENGINE_ATTRIBUTE [=] 'string' | STATS_AUTO_RECALC [=] {DEFAULT | 0 | 1}
//! | STATS_PERSISTENT [=] {DEFAULT | 0 | 1} | STATS_SAMPLE_PAGES [=] value
//! | TABLESPACE tablespace_name [STORAGE {DISK | MEMORY}]
//! | UNION [=] (tbl_name[,tbl_name]...)}`
use vstd::prelude::*;

use crate::base::column::{spec_index_col_list, Column, ColumnView};
use crate::base::common_parser::{
    quoted_at, quoted_string_at, spec_quoted, spec_quoted_string, spec_sql_identifier,
    spec_unsigned_number, sql_identifier_at, unsigned_number_at, Span,
};
use crate::base::compression_type::{
    compression_type_at, compression_type_text, spec_compression_type, CompressionType,
};
use crate::base::default_or_zero_or_one::{
    default_or_zero_or_one_at, default_or_zero_or_one_text, spec_default_or_zero_or_one,
    DefaultOrZeroOrOne,
};
use crate::base::display_util::{nat_text, push_nat};
use crate::base::error::ParseSQLError;
use crate::base::index_option::{opt_equals, opt_equals_at};
use crate::base::input::{agrees, alt, char_at, has_tag, has_tag_nc, str_agrees, ws_end, Input, Parsed};
use crate::base::insert_method_type::{
    insert_method_type_at, insert_method_type_text, spec_insert_method_type, InsertMethodType,
};
use crate::base::row_format_type::{
    row_format_type_at, row_format_type_text, spec_row_format_type, RowFormatType,
};
use crate::base::tablespace_type::{
    spec_tablespace_type, tablespace_type_at, tablespace_type_text, TablespaceType,
};

verus! {

#[derive(Clone, Debug, Eq, Hash, PartialEq)]
pub enum TableOption {
    AutoextendSize(u64),
    AutoIncrement(u64),
    AvgRowLength(u64),
    DefaultCharacterSet(String),
    DefaultCharset(String),
    Checksum(u8),
    DefaultCollate(String),
    Comment(String),
    Compression(CompressionType),
    Connection(String),
    DataDirectory(String),
    IndexDirectory(String),
    DelayKeyWrite(u8),
    Encryption(bool),
    Engine(String),
    EngineAttribute(String),
    InsertMethod(InsertMethodType),
    KeyBlockSize(u64),
    MaxRows(u64),
    MinRows(u64),
    PackKeys(DefaultOrZeroOrOne),
    Password(String),
    RowFormat(RowFormatType),
    StartTransaction,
    SecondaryEngineAttribute(String),
    StatsAutoRecalc(DefaultOrZeroOrOne),
    StatsPersistent(DefaultOrZeroOrOne),
    StatsSamplePages(u64),
    Tablespace(String, Option<TablespaceType>),
    Union(Vec<String>),
}

pub enum TableOptionView {
    AutoextendSize(u64),
    AutoIncrement(u64),
    AvgRowLength(u64),
    DefaultCharacterSet(Seq<char>),
    DefaultCharset(Seq<char>),
    Checksum(u8),
    DefaultCollate(Seq<char>),
    Comment(Seq<char>),
    Compression(CompressionType),
    Connection(Seq<char>),
    DataDirectory(Seq<char>),
    IndexDirectory(Seq<char>),
    DelayKeyWrite(u8),
    Encryption(bool),
    Engine(Seq<char>),
    EngineAttribute(Seq<char>),
    InsertMethod(InsertMethodType),
    KeyBlockSize(u64),
    MaxRows(u64),
    MinRows(u64),
    PackKeys(DefaultOrZeroOrOne),
    Password(Seq<char>),
    RowFormat(RowFormatType),
    StartTransaction,
    SecondaryEngineAttribute(Seq<char>),
    StatsAutoRecalc(DefaultOrZeroOrOne),
    StatsPersistent(DefaultOrZeroOrOne),
    StatsSamplePages(u64),
    Tablespace(Seq<char>, Option<TablespaceType>),
    Union(Seq<Seq<char>>),
}

impl DeepView for TableOption {
    type V = TableOptionView;

    open spec fn deep_view(&self) -> TableOptionView {
        match self {
            TableOption::AutoextendSize(v) => TableOptionView::AutoextendSize(*v),
            TableOption::AutoIncrement(v) => TableOptionView::AutoIncrement(*v),
            TableOption::AvgRowLength(v) => TableOptionView::AvgRowLength(*v),
            TableOption::DefaultCharacterSet(v) => TableOptionView::DefaultCharacterSet(v@),
            TableOption::DefaultCharset(v) => TableOptionView::DefaultCharset(v@),
            TableOption::Checksum(v) => TableOptionView::Checksum(*v),
            TableOption::DefaultCollate(v) => TableOptionView::DefaultCollate(v@),
            TableOption::Comment(v) => TableOptionView::Comment(v@),
            TableOption::Compression(v) => TableOptionView::Compression(*v),
            TableOption::Connection(v) => TableOptionView::Connection(v@),
            TableOption::DataDirectory(v) => TableOptionView::DataDirectory(v@),
            TableOption::IndexDirectory(v) => TableOptionView::IndexDirectory(v@),
            TableOption::DelayKeyWrite(v) => TableOptionView::DelayKeyWrite(*v),
            TableOption::Encryption(v) => TableOptionView::Encryption(*v),
            TableOption::Engine(v) => TableOptionView::Engine(v@),
            TableOption::EngineAttribute(v) => TableOptionView::EngineAttribute(v@),
            TableOption::InsertMethod(v) => TableOptionView::InsertMethod(*v),
            TableOption::KeyBlockSize(v) => TableOptionView::KeyBlockSize(*v),
            TableOption::MaxRows(v) => TableOptionView::MaxRows(*v),
            TableOption::MinRows(v) => TableOptionView::MinRows(*v),
            TableOption::PackKeys(v) => TableOptionView::PackKeys(*v),
            TableOption::Password(v) => TableOptionView::Password(v@),
            TableOption::RowFormat(v) => TableOptionView::RowFormat(*v),
            TableOption::StartTransaction => TableOptionView::StartTransaction,
            TableOption::SecondaryEngineAttribute(v) => TableOptionView::SecondaryEngineAttribute(
                v@,
            ),
            TableOption::StatsAutoRecalc(v) => TableOptionView::StatsAutoRecalc(*v),
            TableOption::StatsPersistent(v) => TableOptionView::StatsPersistent(*v),
            TableOption::StatsSamplePages(v) => TableOptionView::StatsSamplePages(*v),
            TableOption::Tablespace(n, t) => TableOptionView::Tablespace(n@, *t),
            TableOption::Union(ns) => TableOptionView::Union(ns.deep_view()),
        }
    }
}

/// `key [ws] [=] [ws]`, the key ignoring case: where the value starts.
pub open spec fn value_start(s: Seq<char>, p: int, key: Seq<char>) -> Option<int> {
    if has_tag_nc(s, p, key) {
        Some(ws_end(s, opt_equals(s, ws_end(s, p + key.len()))))
    } else {
        None
    }
}

/// `key [=] digits`; a number above `u64::MAX` aborts.
pub open spec fn spec_key_number(s: Seq<char>, p: int, key: Seq<char>) -> Parsed<u64> {
    match value_start(s, p, key) {
        Some(q) => spec_unsigned_number(s, q),
        None => Parsed::NoMatch,
    }
}

/// `key [=] 'text'`: the text's range.
pub open spec fn spec_key_quoted(s: Seq<char>, p: int, key: Seq<char>) -> Parsed<(int, int)> {
    match value_start(s, p, key) {
        Some(q) => spec_quoted(s, q, '\''),
        None => Parsed::NoMatch,
    }
}

/// `key [=] identifier`: the identifier's range.
pub open spec fn spec_key_identifier(s: Seq<char>, p: int, key: Seq<char>) -> Parsed<(int, int)> {
    match value_start(s, p, key) {
        Some(q) => spec_sql_identifier(s, q),
        None => Parsed::NoMatch,
    }
}

/// `key [=] {0 | 1}`
pub open spec fn spec_key_zero_one(s: Seq<char>, p: int, key: Seq<char>) -> Parsed<u8> {
    match value_start(s, p, key) {
        Some(q) => if char_at(s, q, '0') {
            Parsed::Done(q + 1, 0)
        } else if char_at(s, q, '1') {
            Parsed::Done(q + 1, 1)
        } else {
            Parsed::NoMatch
        },
        None => Parsed::NoMatch,
    }
}

/// `key [=] {0 | 1 | DEFAULT}`
pub open spec fn spec_key_default_zero_one(s: Seq<char>, p: int, key: Seq<char>) -> Parsed<
    DefaultOrZeroOrOne,
> {
    match value_start(s, p, key) {
        Some(q) => spec_default_or_zero_or_one(s, q),
        None => Parsed::NoMatch,
    }
}

/// Position after an optional `prefix` (ignoring case) at `p`.
pub open spec fn opt_prefix_end(s: Seq<char>, p: int, prefix: Seq<char>) -> int {
    if has_tag_nc(s, p, prefix) {
        p + prefix.len()
    } else {
        p
    }
}

/// `[DEFAULT ][ws]CHARACTER ws SET [ws] [=] [ws] name`: the name's range.
pub open spec fn spec_default_character_set(s: Seq<char>, p: int) -> Parsed<(int, int)> {
    let b = ws_end(s, opt_prefix_end(s, p, "DEFAULT "@));
    let c = ws_end(s, b + "CHARACTER"@.len());
    if has_tag_nc(s, b, "CHARACTER"@) && c > b + "CHARACTER"@.len() {
        spec_key_identifier(s, c, "SET"@)
    } else {
        Parsed::NoMatch
    }
}

/// `[DEFAULT] [ws] CHARSET [ws] [=] [ws] name`: the name's range. After
/// `DEFAULT` at least one blank is needed.
pub open spec fn spec_default_charset(s: Seq<char>, p: int) -> Parsed<(int, int)> {
    let a = p + "DEFAULT"@.len();
    if has_tag_nc(s, p, "DEFAULT"@) && ws_end(s, a) > a {
        spec_key_identifier(s, ws_end(s, a), "CHARSET"@)
    } else {
        spec_key_identifier(s, ws_end(s, p), "CHARSET"@)
    }
}

/// `[DEFAULT ][ws]COLLATE ws [=] [ws] name`: the name's range.
pub open spec fn spec_default_collate(s: Seq<char>, p: int) -> Parsed<(int, int)> {
    let b = ws_end(s, opt_prefix_end(s, p, "DEFAULT "@));
    let c = ws_end(s, b + "COLLATE"@.len());
    if has_tag_nc(s, b, "COLLATE"@) && c > b + "COLLATE"@.len() {
        spec_sql_identifier(s, ws_end(s, opt_equals(s, c)))
    } else {
        Parsed::NoMatch
    }
}

/// `word ws DIRECTORY [ws] [=] [ws] quoted`: the path's range; with `double`,
/// `"path"` is accepted too.
pub open spec fn spec_directory(s: Seq<char>, p: int, word: Seq<char>, double: bool) -> Parsed<
    (int, int),
> {
    let a = ws_end(s, p + word.len());
    if has_tag_nc(s, p, word) && a > p + word.len() {
        match value_start(s, a, "DIRECTORY"@) {
            Some(q) => if double {
                spec_quoted_string(s, q)
            } else {
                spec_quoted(s, q, '\'')
            },
            None => Parsed::NoMatch,
        }
    } else {
        Parsed::NoMatch
    }
}

/// `ENCRYPTION [=] {'Y' | 'N'}`
pub open spec fn spec_encryption(s: Seq<char>, p: int) -> Parsed<bool> {
    match value_start(s, p, "ENCRYPTION"@) {
        Some(q) => if has_tag(s, q, "'Y'"@) {
            Parsed::Done(q + 3, true)
        } else if has_tag(s, q, "'N'"@) {
            Parsed::Done(q + 3, false)
        } else {
            Parsed::NoMatch
        },
        None => Parsed::NoMatch,
    }
}

/// `TABLESPACE ws name [ws] [STORAGE type]`
pub open spec fn spec_tablespace(s: Seq<char>, p: int) -> Parsed<TableOptionView> {
    let a = ws_end(s, p + "TABLESPACE"@.len());
    if has_tag_nc(s, p, "TABLESPACE"@) && a > p + "TABLESPACE"@.len() {
        match spec_sql_identifier(s, a) {
            Parsed::Done(e, (x, y)) => {
                let f = ws_end(s, e);
                match spec_tablespace_type(s, f) {
                    Parsed::Done(g, t) => Parsed::Done(
                        g,
                        TableOptionView::Tablespace(s.subrange(x, y), Some(t)),
                    ),
                    _ => Parsed::Done(f, TableOptionView::Tablespace(s.subrange(x, y), None)),
                }
            },
            _ => Parsed::NoMatch,
        }
    } else {
        Parsed::NoMatch
    }
}

/// `UNION [=] ( [ws] index columns [ws] )`: the names of the columns.
pub open spec fn spec_union(s: Seq<char>, p: int) -> Parsed<Seq<Seq<char>>> {
    match value_start(s, p, "UNION"@) {
        Some(q) => if char_at(s, q, '(') {
            match spec_index_col_list(s, ws_end(s, q + 1)) {
                Parsed::Done(e, cols) => if char_at(s, ws_end(s, e), ')') {
                    Parsed::Done(ws_end(s, e) + 1, cols.map_values(|c: ColumnView| c.name))
                } else {
                    Parsed::NoMatch
                },
                Parsed::NoMatch => Parsed::NoMatch,
                Parsed::Abort => Parsed::Abort,
            }
        } else {
            Parsed::NoMatch
        },
        None => Parsed::NoMatch,
    }
}

/// An outcome over ranges as an outcome over their texts, wrapped by `f`.
pub open spec fn text_option(
    s: Seq<char>,
    r: Parsed<(int, int)>,
    f: spec_fn(Seq<char>) -> TableOptionView,
) -> Parsed<TableOptionView> {
    match r {
        Parsed::Done(e, (a, b)) => Parsed::Done(e, f(s.subrange(a, b))),
        Parsed::NoMatch => Parsed::NoMatch,
        Parsed::Abort => Parsed::Abort,
    }
}

/// An outcome over a value, wrapped by `f`.
pub open spec fn wrap_option<T>(r: Parsed<T>, f: spec_fn(T) -> TableOptionView) -> Parsed<
    TableOptionView,
> {
    match r {
        Parsed::Done(e, v) => Parsed::Done(e, f(v)),
        Parsed::NoMatch => Parsed::NoMatch,
        Parsed::Abort => Parsed::Abort,
    }
}

/// The first group of options, tried in order.
pub open spec fn spec_table_option_part_1(s: Seq<char>, p: int) -> Parsed<TableOptionView> {
    alt(
        wrap_option(
            spec_key_number(s, p, "AUTOEXTEND_SIZE"@),
            |v: u64| TableOptionView::AutoextendSize(v),
        ),
        alt(
            wrap_option(
                spec_key_number(s, p, "AUTO_INCREMENT"@),
                |v: u64| TableOptionView::AutoIncrement(v),
            ),
            alt(
                wrap_option(
                    spec_key_number(s, p, "AVG_ROW_LENGTH"@),
                    |v: u64| TableOptionView::AvgRowLength(v),
                ),
                alt(
                    text_option(
                        s,
                        spec_default_character_set(s, p),
                        |v: Seq<char>| TableOptionView::DefaultCharacterSet(v),
                    ),
                    alt(
                        text_option(
                            s,
                            spec_default_charset(s, p),
                            |v: Seq<char>| TableOptionView::DefaultCharset(v),
                        ),
                        alt(
                            wrap_option(
                                spec_key_zero_one(s, p, "CHECKSUM"@),
                                |v: u8| TableOptionView::Checksum(v),
                            ),
                            alt(
                                text_option(
                                    s,
                                    spec_default_collate(s, p),
                                    |v: Seq<char>| TableOptionView::DefaultCollate(v),
                                ),
                                spec_table_option_part_1b(s, p),
                            ),
                        ),
                    ),
                ),
            ),
        ),
    )
}

/// The rest of the first group of options, tried in order.
pub open spec fn spec_table_option_part_1b(s: Seq<char>, p: int) -> Parsed<TableOptionView> {
    alt(
        text_option(
            s,
            spec_key_quoted(s, p, "COMMENT"@),
            |v: Seq<char>| TableOptionView::Comment(v),
        ),
        alt(
            wrap_option(
                spec_compression_type(s, p),
                |v: CompressionType| TableOptionView::Compression(v),
            ),
            alt(
                text_option(
                    s,
                    spec_key_quoted(s, p, "CONNECTION"@),
                    |v: Seq<char>| TableOptionView::Connection(v),
                ),
                alt(
                    text_option(
                        s,
                        spec_directory(s, p, "DATA"@, true),
                        |v: Seq<char>| TableOptionView::DataDirectory(v),
                    ),
                    alt(
                        text_option(
                            s,
                            spec_directory(s, p, "INDEX"@, false),
                            |v: Seq<char>| TableOptionView::IndexDirectory(v),
                        ),
                        alt(
                            wrap_option(
                                spec_key_zero_one(s, p, "DELAY_KEY_WRITE"@),
                                |v: u8| TableOptionView::DelayKeyWrite(v),
                            ),
                            alt(
                                wrap_option(
                                    spec_encryption(s, p),
                                    |v: bool| TableOptionView::Encryption(v),
                                ),
                                alt(
                                    text_option(
                                        s,
                                        spec_key_quoted(s, p, "ENGINE_ATTRIBUTE"@),
                                        |v: Seq<char>| TableOptionView::EngineAttribute(v),
                                    ),
                                    text_option(
                                        s,
                                        spec_key_identifier(s, p, "ENGINE"@),
                                        |v: Seq<char>| TableOptionView::Engine(v),
                                    ),
                                ),
                            ),
                        ),
                    ),
                ),
            ),
        ),
    )
}

/// The second group of options, tried in order.
pub open spec fn spec_table_option_part_2(s: Seq<char>, p: int) -> Parsed<TableOptionView> {
    alt(
        wrap_option(
            spec_insert_method_type(s, p),
            |v: InsertMethodType| TableOptionView::InsertMethod(v),
        ),
        alt(
            wrap_option(
                spec_key_number(s, p, "KEY_BLOCK_SIZE"@),
                |v: u64| TableOptionView::KeyBlockSize(v),
            ),
            alt(
                wrap_option(
                    spec_key_number(s, p, "MAX_ROWS"@),
                    |v: u64| TableOptionView::MaxRows(v),
                ),
                alt(
                    wrap_option(
                        spec_key_number(s, p, "MIN_ROWS"@),
                        |v: u64| TableOptionView::MinRows(v),
                    ),
                    alt(
                        wrap_option(
                            spec_key_default_zero_one(s, p, "PACK_KEYS"@),
                            |v: DefaultOrZeroOrOne| TableOptionView::PackKeys(v),
                        ),
                        alt(
                            text_option(
                                s,
                                spec_key_quoted(s, p, "PASSWORD"@),
                                |v: Seq<char>| TableOptionView::Password(v),
                            ),
                            spec_table_option_part_2b(s, p),
                        ),
                    ),
                ),
            ),
        ),
    )
}

/// The rest of the second group of options, tried in order.
pub open spec fn spec_table_option_part_2b(s: Seq<char>, p: int) -> Parsed<TableOptionView> {
    alt(
        wrap_option(
            spec_row_format_type(s, p),
            |v: RowFormatType| TableOptionView::RowFormat(v),
        ),
        alt(
            text_option(
                s,
                spec_key_quoted(s, p, "SECONDARY_ENGINE_ATTRIBUTE"@),
                |v: Seq<char>| TableOptionView::SecondaryEngineAttribute(v),
            ),
            alt(
                wrap_option(
                    spec_key_default_zero_one(s, p, "STATS_AUTO_RECALC"@),
                    |v: DefaultOrZeroOrOne| TableOptionView::StatsAutoRecalc(v),
                ),
                alt(
                    wrap_option(
                        spec_key_default_zero_one(s, p, "STATS_PERSISTENT"@),
                        |v: DefaultOrZeroOrOne| TableOptionView::StatsPersistent(v),
                    ),
                    alt(
                        wrap_option(
                            spec_key_number(s, p, "STATS_SAMPLE_PAGES"@),
                            |v: u64| TableOptionView::StatsSamplePages(v),
                        ),
                        alt(
                            spec_tablespace(s, p),
                            wrap_option(
                                spec_union(s, p),
                                |v: Seq<Seq<char>>| TableOptionView::Union(v),
                            ),
                        ),
                    ),
                ),
            ),
        ),
    )
}

/// A table option: the first group, then the second, in the order of the
/// grammar above (`ENGINE_ATTRIBUTE` is tried before `ENGINE`, which would
/// otherwise read its `_ATTRIBUTE` as an engine name).
pub open spec fn spec_table_option(s: Seq<char>, p: int) -> Parsed<TableOptionView> {
    alt(spec_table_option_part_1(s, p), spec_table_option_part_2(s, p))
}

/// Names separated by `,`.
pub open spec fn names_text(ns: Seq<Seq<char>>) -> Seq<char>
    decreases ns.len(),
{
    if ns.len() == 0 {
        Seq::empty()
    } else if ns.len() == 1 {
        ns[0]
    } else {
        names_text(ns.drop_last()) + ","@ + ns.last()
    }
}

pub open spec fn table_option_text(o: TableOptionView) -> Seq<char> {
    match o {
        TableOptionView::AutoextendSize(v) => "AUTOEXTEND_SIZE "@ + nat_text(v as nat),
        TableOptionView::AutoIncrement(v) => "AUTO_INCREMENT "@ + nat_text(v as nat),
        TableOptionView::AvgRowLength(v) => "AVG_ROW_LENGTH "@ + nat_text(v as nat),
        TableOptionView::DefaultCharacterSet(v) => "CHARACTER SET "@ + v,
        TableOptionView::DefaultCharset(v) => "CHARSET "@ + v,
        TableOptionView::Checksum(v) => "CHECKSUM "@ + nat_text(v as nat),
        TableOptionView::DefaultCollate(v) => "COLLATE "@ + v,
        TableOptionView::Comment(v) => "COMMENT '"@ + v + "'"@,
        TableOptionView::Compression(v) => compression_type_text(v),
        TableOptionView::Connection(v) => "CONNECTION '"@ + v + "'"@,
        TableOptionView::DataDirectory(v) => "DATA DIRECTORY '"@ + v + "'"@,
        TableOptionView::IndexDirectory(v) => "INDEX DIRECTORY '"@ + v + "'"@,
        TableOptionView::DelayKeyWrite(v) => "DELAY_KEY_WRITE "@ + nat_text(v as nat),
        TableOptionView::Encryption(v) => "ENCRYPTION '"@ + (if v {
            "Y"@
        } else {
            "N"@
        }) + "'"@,
        TableOptionView::Engine(v) => "ENGINE "@ + v,
        TableOptionView::EngineAttribute(v) => "ENGINE_ATTRIBUTE '"@ + v + "'"@,
        TableOptionView::InsertMethod(v) => insert_method_type_text(v),
        TableOptionView::KeyBlockSize(v) => "KEY_BLOCK_SIZE "@ + nat_text(v as nat),
        TableOptionView::MaxRows(v) => "MAX_ROWS "@ + nat_text(v as nat),
        TableOptionView::MinRows(v) => "MIN_ROWS "@ + nat_text(v as nat),
        TableOptionView::PackKeys(v) => "PACK_KEYS "@ + default_or_zero_or_one_text(v),
        TableOptionView::Password(v) => "PASSWORD '"@ + v + "'"@,
        TableOptionView::RowFormat(v) => row_format_type_text(v),
        TableOptionView::StartTransaction => "START TRANSACTION"@,
        TableOptionView::SecondaryEngineAttribute(v) => "SECONDARY_ENGINE_ATTRIBUTE '"@ + v
            + "'"@,
        TableOptionView::StatsAutoRecalc(v) => "STATS_AUTO_RECALC "@ + default_or_zero_or_one_text(
            v,
        ),
        TableOptionView::StatsPersistent(v) => "STATS_PERSISTENT "@ + default_or_zero_or_one_text(
            v,
        ),
        TableOptionView::StatsSamplePages(v) => "STATS_SAMPLE_PAGES "@ + nat_text(v as nat),
        TableOptionView::Tablespace(n, t) => "TABLESPACE "@ + n + match t {
            Some(x) => " "@ + tablespace_type_text(x),
            None => Seq::empty(),
        },
        TableOptionView::Union(ns) => "UNION ("@ + names_text(ns) + ")"@,
    }
}

/// Options separated by `, `.
pub open spec fn options_text(os: Seq<TableOptionView>) -> Seq<char>
    decreases os.len(),
{
    if os.len() == 0 {
        Seq::empty()
    } else if os.len() == 1 {
        table_option_text(os[0])
    } else {
        options_text(os.drop_last()) + ", "@ + table_option_text(os.last())
    }
}

fn value_start_at(src: &Input, p: usize, key: &str) -> (r: Option<usize>)
    requires
        p <= src@.len(),
    ensures
        match value_start(src@, p as int, key@) {
            Some(q) => r matches Some(q2) && q2 == q,
            None => r is None,
        },
        r matches Some(q) ==> p <= q <= src@.len(),
{
    if src.tag_nc(p, key) {
        Some(src.skip_ws(opt_equals_at(src, src.skip_ws(p + key.unicode_len()))))
    } else {
        None
    }
}

fn key_number_at(src: &Input, p: usize, key: &str) -> (r: Option<(usize, u64)>)
    requires
        p <= src@.len(),
        !(spec_key_number(src@, p as int, key@) is Abort),
    ensures
        agrees(r, spec_key_number(src@, p as int, key@)),
        r matches Some((e, _)) ==> p <= e <= src@.len(),
{
    match value_start_at(src, p, key) {
        Some(q) => unsigned_number_at(src, q),
        None => None,
    }
}

fn key_quoted_at(src: &Input, p: usize, key: &str) -> (r: Option<(usize, String)>)
    requires
        p <= src@.len(),
    ensures
        match spec_key_quoted(src@, p as int, key@) {
            Parsed::Done(e, (a, b)) => r matches Some((e2, x)) && e2 == e && x@ == src@.subrange(
                a,
                b,
            ),
            _ => r is None,
        },
        r matches Some((e, _)) ==> p <= e <= src@.len(),
{
    match value_start_at(src, p, key) {
        Some(q) => match quoted_at(src, q, '\'') {
            Some((e, sp)) => Some((e, src.string(sp.start, sp.end))),
            None => None,
        },
        None => None,
    }
}

fn identifier_text_at(src: &Input, q: usize) -> (r: Option<(usize, String)>)
    requires
        q <= src@.len(),
    ensures
        match spec_sql_identifier(src@, q as int) {
            Parsed::Done(e, (a, b)) => r matches Some((e2, x)) && e2 == e && x@ == src@.subrange(
                a,
                b,
            ),
            _ => r is None,
        },
        r matches Some((e, _)) ==> q <= e <= src@.len(),
{
    match sql_identifier_at(src, q) {
        Some((e, sp)) => Some((e, src.string(sp.start, sp.end))),
        None => None,
    }
}

fn key_identifier_at(src: &Input, p: usize, key: &str) -> (r: Option<(usize, String)>)
    requires
        p <= src@.len(),
    ensures
        match spec_key_identifier(src@, p as int, key@) {
            Parsed::Done(e, (a, b)) => r matches Some((e2, x)) && e2 == e && x@ == src@.subrange(
                a,
                b,
            ),
            _ => r is None,
        },
        r matches Some((e, _)) ==> p <= e <= src@.len(),
{
    match value_start_at(src, p, key) {
        Some(q) => identifier_text_at(src, q),
        None => None,
    }
}

fn key_zero_one_at(src: &Input, p: usize, key: &str) -> (r: Option<(usize, u8)>)
    requires
        p <= src@.len(),
    ensures
        agrees(r, spec_key_zero_one(src@, p as int, key@)),
        r matches Some((e, _)) ==> p <= e <= src@.len(),
{
    match value_start_at(src, p, key) {
        Some(q) => if src.is_char(q, '0') {
            Some((q + 1, 0))
        } else if src.is_char(q, '1') {
            Some((q + 1, 1))
        } else {
            None
        },
        None => None,
    }
}

fn key_default_zero_one_at(src: &Input, p: usize, key: &str) -> (r: Option<
    (usize, DefaultOrZeroOrOne),
>)
    requires
        p <= src@.len(),
    ensures
        agrees(r, spec_key_default_zero_one(src@, p as int, key@)),
        r matches Some((e, _)) ==> p <= e <= src@.len(),
{
    match value_start_at(src, p, key) {
        Some(q) => default_or_zero_or_one_at(src, q),
        None => None,
    }
}

fn opt_prefix_end_at(src: &Input, p: usize, prefix: &str) -> (r: usize)
    requires
        p <= src@.len(),
    ensures
        r == opt_prefix_end(src@, p as int, prefix@),
        p <= r <= src@.len(),
{
    if src.tag_nc(p, prefix) {
        p + prefix.unicode_len()
    } else {
        p
    }
}

/// The first group of options.
fn table_option_part_1_at(src: &Input, p: usize) -> (r: Option<(usize, TableOption)>)
    requires
        p <= src@.len(),
        !(spec_table_option_part_1(src@, p as int) is Abort),
    ensures
        agrees(r, spec_table_option_part_1(src@, p as int)),
        r matches Some((e, _)) ==> p <= e <= src@.len(),
{
    if let Some((e, v)) = key_number_at(src, p, "AUTOEXTEND_SIZE") {
        return Some((e, TableOption::AutoextendSize(v)));
    }
    if let Some((e, v)) = key_number_at(src, p, "AUTO_INCREMENT") {
        return Some((e, TableOption::AutoIncrement(v)));
    }
    if let Some((e, v)) = key_number_at(src, p, "AVG_ROW_LENGTH") {
        return Some((e, TableOption::AvgRowLength(v)));
    }
    let b = src.skip_ws(opt_prefix_end_at(src, p, "DEFAULT "));
    if src.tag_nc(b, "CHARACTER") {
        let c = src.skip_ws(b + "CHARACTER".unicode_len());
        if c > b + "CHARACTER".unicode_len() {
            if let Some((e, v)) = key_identifier_at(src, c, "SET") {
                return Some((e, TableOption::DefaultCharacterSet(v)));
            }
        }
    }
    let b2 = if src.tag_nc(p, "DEFAULT") && src.skip_ws(p + "DEFAULT".unicode_len()) > p
        + "DEFAULT".unicode_len() {
        src.skip_ws(p + "DEFAULT".unicode_len())
    } else {
        src.skip_ws(p)
    };
    if let Some((e, v)) = key_identifier_at(src, b2, "CHARSET") {
        return Some((e, TableOption::DefaultCharset(v)));
    }
    if let Some((e, v)) = key_zero_one_at(src, p, "CHECKSUM") {
        return Some((e, TableOption::Checksum(v)));
    }
    if src.tag_nc(b, "COLLATE") {
        let c = src.skip_ws(b + "COLLATE".unicode_len());
        if c > b + "COLLATE".unicode_len() {
            if let Some((e, v)) = identifier_text_at(src, src.skip_ws(opt_equals_at(src, c))) {
                return Some((e, TableOption::DefaultCollate(v)));
            }
        }
    }
    table_option_part_1b_at(src, p)
}

fn directory_at(src: &Input, p: usize, word: &str, double: bool) -> (r: Option<(usize, String)>)
    requires
        p <= src@.len(),
    ensures
        match spec_directory(src@, p as int, word@, double) {
            Parsed::Done(e, (a, b)) => r matches Some((e2, x)) && e2 == e && x@ == src@.subrange(
                a,
                b,
            ),
            _ => r is None,
        },
        r matches Some((e, _)) ==> p <= e <= src@.len(),
{
    if !src.tag_nc(p, word) {
        return None;
    }
    let a = src.skip_ws(p + word.unicode_len());
    if a == p + word.unicode_len() {
        return None;
    }
    let q = match value_start_at(src, a, "DIRECTORY") {
        Some(q) => q,
        None => return None,
    };
    let found = if double {
        quoted_string_at(src, q)
    } else {
        quoted_at(src, q, '\'')
    };
    match found {
        Some((e, sp)) => Some((e, src.string(sp.start, sp.end))),
        None => None,
    }
}

fn encryption_at(src: &Input, p: usize) -> (r: Option<(usize, bool)>)
    requires
        p <= src@.len(),
    ensures
        agrees(r, spec_encryption(src@, p as int)),
        r matches Some((e, _)) ==> p <= e <= src@.len(),
{
    proof {
        reveal_strlit("'Y'");
        reveal_strlit("'N'");
    }
    match value_start_at(src, p, "ENCRYPTION") {
        Some(q) => if src.tag(q, "'Y'") {
            Some((q + 3, true))
        } else if src.tag(q, "'N'") {
            Some((q + 3, false))
        } else {
            None
        },
        None => None,
    }
}

/// The rest of the first group of options.
fn table_option_part_1b_at(src: &Input, p: usize) -> (r: Option<(usize, TableOption)>)
    requires
        p <= src@.len(),
        !(spec_table_option_part_1b(src@, p as int) is Abort),
    ensures
        agrees(r, spec_table_option_part_1b(src@, p as int)),
        r matches Some((e, _)) ==> p <= e <= src@.len(),
{
    if let Some((e, v)) = key_quoted_at(src, p, "COMMENT") {
        return Some((e, TableOption::Comment(v)));
    }
    if let Some((e, v)) = compression_type_at(src, p) {
        return Some((e, TableOption::Compression(v)));
    }
    if let Some((e, v)) = key_quoted_at(src, p, "CONNECTION") {
        return Some((e, TableOption::Connection(v)));
    }
    if let Some((e, v)) = directory_at(src, p, "DATA", true) {
        return Some((e, TableOption::DataDirectory(v)));
    }
    if let Some((e, v)) = directory_at(src, p, "INDEX", false) {
        return Some((e, TableOption::IndexDirectory(v)));
    }
    if let Some((e, v)) = key_zero_one_at(src, p, "DELAY_KEY_WRITE") {
        return Some((e, TableOption::DelayKeyWrite(v)));
    }
    if let Some((e, v)) = encryption_at(src, p) {
        return Some((e, TableOption::Encryption(v)));
    }
    if let Some((e, v)) = key_quoted_at(src, p, "ENGINE_ATTRIBUTE") {
        return Some((e, TableOption::EngineAttribute(v)));
    }
    if let Some((e, v)) = key_identifier_at(src, p, "ENGINE") {
        return Some((e, TableOption::Engine(v)));
    }
    None
}

/// The second group of options.
fn table_option_part_2_at(src: &Input, p: usize) -> (r: Option<(usize, TableOption)>)
    requires
        p <= src@.len(),
        !(spec_table_option_part_2(src@, p as int) is Abort),
    ensures
        agrees(r, spec_table_option_part_2(src@, p as int)),
        r matches Some((e, _)) ==> p <= e <= src@.len(),
{
    if let Some((e, v)) = insert_method_type_at(src, p) {
        return Some((e, TableOption::InsertMethod(v)));
    }
    if let Some((e, v)) = key_number_at(src, p, "KEY_BLOCK_SIZE") {
        return Some((e, TableOption::KeyBlockSize(v)));
    }
    if let Some((e, v)) = key_number_at(src, p, "MAX_ROWS") {
        return Some((e, TableOption::MaxRows(v)));
    }
    if let Some((e, v)) = key_number_at(src, p, "MIN_ROWS") {
        return Some((e, TableOption::MinRows(v)));
    }
    if let Some((e, v)) = key_default_zero_one_at(src, p, "PACK_KEYS") {
        return Some((e, TableOption::PackKeys(v)));
    }
    if let Some((e, v)) = key_quoted_at(src, p, "PASSWORD") {
        return Some((e, TableOption::Password(v)));
    }
    table_option_part_2b_at(src, p)
}

fn tablespace_at(src: &Input, p: usize) -> (r: Option<(usize, TableOption)>)
    requires
        p <= src@.len(),
    ensures
        agrees(r, spec_tablespace(src@, p as int)),
        r matches Some((e, _)) ==> p <= e <= src@.len(),
{
    if !src.tag_nc(p, "TABLESPACE") {
        return None;
    }
    let a = src.skip_ws(p + "TABLESPACE".unicode_len());
    if a == p + "TABLESPACE".unicode_len() {
        return None;
    }
    match identifier_text_at(src, a) {
        Some((e, name)) => {
            let f = src.skip_ws(e);
            match tablespace_type_at(src, f) {
                Some((g, t)) => Some((g, TableOption::Tablespace(name, Some(t)))),
                None => Some((f, TableOption::Tablespace(name, None))),
            }
        },
        None => None,
    }
}

fn union_at(src: &Input, p: usize) -> (r: Option<(usize, Vec<String>)>)
    requires
        p <= src@.len(),
        !(spec_union(src@, p as int) is Abort),
    ensures
        agrees(r, spec_union(src@, p as int)),
        r matches Some((e, _)) ==> p <= e <= src@.len(),
{
    let q = match value_start_at(src, p, "UNION") {
        Some(q) => q,
        None => return None,
    };
    if !src.is_char(q, '(') {
        return None;
    }
    let (e, cols) = match crate::base::column::index_col_list_at(src, src.skip_ws(q + 1)) {
        Some(x) => x,
        None => return None,
    };
    let f = src.skip_ws(e);
    if !src.is_char(f, ')') {
        return None;
    }
    let mut names: Vec<String> = Vec::new();
    let n = cols.len();
    let mut k: usize = 0;
    while k < n
        invariant
            k <= n,
            n == cols@.len(),
            names.deep_view() == cols.deep_view().subrange(0, k as int).map_values(
                |c: ColumnView| c.name,
            ),
        decreases n - k,
    {
        let ghost prev = names.deep_view();
        let nm = cols[k].name.clone();
        assert(nm@ == cols.deep_view()[k as int].name);
        names.push(nm);
        assert(names.deep_view() =~= prev.push(nm@));
        assert(names.deep_view() =~= cols.deep_view().subrange(0, k + 1).map_values(
            |c: ColumnView| c.name,
        ));
        k = k + 1;
    }
    assert(cols.deep_view().subrange(0, n as int) =~= cols.deep_view());
    Some((f + 1, names))
}

/// The rest of the second group of options.
fn table_option_part_2b_at(src: &Input, p: usize) -> (r: Option<(usize, TableOption)>)
    requires
        p <= src@.len(),
        !(spec_table_option_part_2b(src@, p as int) is Abort),
    ensures
        agrees(r, spec_table_option_part_2b(src@, p as int)),
        r matches Some((e, _)) ==> p <= e <= src@.len(),
{
    if let Some((e, v)) = row_format_type_at(src, p) {
        return Some((e, TableOption::RowFormat(v)));
    }
    if let Some((e, v)) = key_quoted_at(src, p, "SECONDARY_ENGINE_ATTRIBUTE") {
        return Some((e, TableOption::SecondaryEngineAttribute(v)));
    }
    if let Some((e, v)) = key_default_zero_one_at(src, p, "STATS_AUTO_RECALC") {
        return Some((e, TableOption::StatsAutoRecalc(v)));
    }
    if let Some((e, v)) = key_default_zero_one_at(src, p, "STATS_PERSISTENT") {
        return Some((e, TableOption::StatsPersistent(v)));
    }
    if let Some((e, v)) = key_number_at(src, p, "STATS_SAMPLE_PAGES") {
        return Some((e, TableOption::StatsSamplePages(v)));
    }
    if let Some(x) = tablespace_at(src, p) {
        return Some(x);
    }
    match union_at(src, p) {
        Some((e, v)) => Some((e, TableOption::Union(v))),
        None => None,
    }
}

pub fn table_option_at(src: &Input, p: usize) -> (r: Option<(usize, TableOption)>)
    requires
        p <= src@.len(),
        !(spec_table_option(src@, p as int) is Abort),
    ensures
        agrees(r, spec_table_option(src@, p as int)),
        r matches Some((e, _)) ==> p <= e <= src@.len(),
{
    match table_option_part_1_at(src, p) {
        Some(x) => Some(x),
        None => table_option_part_2_at(src, p),
    }
}

impl TableOption {
    pub fn parse(i: &str) -> (r: Result<(&str, TableOption), ParseSQLError>)
        requires
            !(spec_table_option(i@, 0) is Abort),
        ensures
            str_agrees(i@, r, spec_table_option(i@, 0)),
    {
        let src = Input::new(i);
        match table_option_at(&src, 0) {
            Some((q, v)) => Ok((src.rest(q), v)),
            None => Err(ParseSQLError::grammar(i)),
        }
    }

    /// Appends the SQL text of the option.
    pub fn push_text(&self, out: &mut String)
        ensures
            final(out)@ == old(out)@ + table_option_text(self.deep_view()),
    {
        let ghost start = out@;
        match self {
            TableOption::AutoextendSize(v) => {
                out.append("AUTOEXTEND_SIZE ");
                push_nat(out, *v);
            },
            TableOption::AutoIncrement(v) => {
                out.append("AUTO_INCREMENT ");
                push_nat(out, *v);
            },
            TableOption::AvgRowLength(v) => {
                out.append("AVG_ROW_LENGTH ");
                push_nat(out, *v);
            },
            TableOption::DefaultCharacterSet(v) => {
                out.append("CHARACTER SET ");
                out.append(v.as_str());
            },
            TableOption::DefaultCharset(v) => {
                out.append("CHARSET ");
                out.append(v.as_str());
            },
            TableOption::Checksum(v) => {
                out.append("CHECKSUM ");
                push_nat(out, *v as u64);
            },
            TableOption::DefaultCollate(v) => {
                out.append("COLLATE ");
                out.append(v.as_str());
            },
            TableOption::Comment(v) => {
                out.append("COMMENT '");
                out.append(v.as_str());
                out.append("'");
            },
            TableOption::Compression(v) => {
                out.append(v.to_string().as_str());
            },
            TableOption::Connection(v) => {
                out.append("CONNECTION '");
                out.append(v.as_str());
                out.append("'");
            },
            TableOption::DataDirectory(v) => {
                out.append("DATA DIRECTORY '");
                out.append(v.as_str());
                out.append("'");
            },
            TableOption::IndexDirectory(v) => {
                out.append("INDEX DIRECTORY '");
                out.append(v.as_str());
                out.append("'");
            },
            TableOption::DelayKeyWrite(v) => {
                out.append("DELAY_KEY_WRITE ");
                push_nat(out, *v as u64);
            },
            TableOption::Encryption(v) => {
                out.append("ENCRYPTION '");
                out.append(
                    if *v {
                        "Y"
                    } else {
                        "N"
                    },
                );
                out.append("'");
            },
            TableOption::Engine(v) => {
                out.append("ENGINE ");
                out.append(v.as_str());
            },
            TableOption::EngineAttribute(v) => {
                out.append("ENGINE_ATTRIBUTE '");
                out.append(v.as_str());
                out.append("'");
            },
            TableOption::InsertMethod(v) => {
                out.append(v.to_string().as_str());
            },
            TableOption::KeyBlockSize(v) => {
                out.append("KEY_BLOCK_SIZE ");
                push_nat(out, *v);
            },
            TableOption::MaxRows(v) => {
                out.append("MAX_ROWS ");
                push_nat(out, *v);
            },
            TableOption::MinRows(v) => {
                out.append("MIN_ROWS ");
                push_nat(out, *v);
            },
            TableOption::PackKeys(v) => {
                out.append("PACK_KEYS ");
                out.append(v.to_string().as_str());
            },
            TableOption::Password(v) => {
                out.append("PASSWORD '");
                out.append(v.as_str());
                out.append("'");
            },
            TableOption::RowFormat(v) => {
                out.append(v.to_string().as_str());
            },
            TableOption::StartTransaction => {
                out.append("START TRANSACTION");
            },
            TableOption::SecondaryEngineAttribute(v) => {
                out.append("SECONDARY_ENGINE_ATTRIBUTE '");
                out.append(v.as_str());
                out.append("'");
            },
            TableOption::StatsAutoRecalc(v) => {
                out.append("STATS_AUTO_RECALC ");
                out.append(v.to_string().as_str());
            },
            TableOption::StatsPersistent(v) => {
                out.append("STATS_PERSISTENT ");
                out.append(v.to_string().as_str());
            },
            TableOption::StatsSamplePages(v) => {
                out.append("STATS_SAMPLE_PAGES ");
                push_nat(out, *v);
            },
            TableOption::Tablespace(n, t) => {
                out.append("TABLESPACE ");
                out.append(n.as_str());
                match t {
                    Some(x) => {
                        out.append(" ");
                        out.append(x.to_string().as_str());
                    },
                    None => {},
                }
            },
            TableOption::Union(ns) => {
                out.append("UNION (");
                let ghost head = out@;
                let n = ns.len();
                let mut k: usize = 0;
                assert(ns.deep_view().subrange(0, 0) =~= Seq::<Seq<char>>::empty());
                while k < n
                    invariant
                        k <= n,
                        n == ns@.len(),
                        out@ == head + names_text(ns.deep_view().subrange(0, k as int)),
                    decreases n - k,
                {
                    let ghost prev = ns.deep_view().subrange(0, k as int);
                    let ghost next = ns.deep_view().subrange(0, k + 1);
                    if k > 0 {
                        out.append(",");
                    }
                    out.append(ns[k].as_str());
                    proof {
                        reveal_strlit(",");
                        assert(next.drop_last() =~= prev);
                    }
                    assert(out@ =~= head + names_text(next));
                    k = k + 1;
                }
                assert(ns.deep_view().subrange(0, n as int) =~= ns.deep_view());
                out.append(")");
            },
        }
        assert(out@ =~= start + table_option_text(self.deep_view()));
    }

    /// The SQL text of the option.
    pub fn to_string(&self) -> (r: String)
        ensures
            r@ == table_option_text(self.deep_view()),
    {
        let mut out = String::new();
        self.push_text(&mut out);
        assert(out@ =~= table_option_text(self.deep_view()));
        out
    }

    /// The options' texts separated by `, `.
    pub fn format_list(list: &[TableOption]) -> (r: String)
        ensures
            r@ == options_text(Seq::new(list@.len(), |i: int| list@[i].deep_view())),
    {
        let ghost os = Seq::new(list@.len(), |i: int| list@[i].deep_view());
        let mut out = String::new();
        let n = list.len();
        let mut k: usize = 0;
        assert(os.subrange(0, 0) =~= Seq::<TableOptionView>::empty());
        while k < n
            invariant
                k <= n,
                n == list@.len(),
                os == Seq::new(list@.len(), |i: int| list@[i].deep_view()),
                out@ == options_text(os.subrange(0, k as int)),
            decreases n - k,
        {
            let ghost prev = os.subrange(0, k as int);
            let ghost next = os.subrange(0, k + 1);
            if k > 0 {
                out.append(", ");
            }
            list[k].push_text(&mut out);
            proof {
                reveal_strlit(", ");
                assert(next.drop_last() =~= prev);
            }
            assert(out@ =~= options_text(next));
            k = k + 1;
        }
        assert(os.subrange(0, n as int) =~= os);
        out
    }
}

/// `[CONSTRAINT [symbol]] CHECK (expr) [[NOT] ENFORCED]`
#[derive(Clone, Debug, Eq, Hash, PartialEq)]
pub struct CheckConstraintDefinition {
    pub symbol: Option<String>,
    pub expr: String,
    pub enforced: bool,
}

/// `CONSTRAINT[ symbol] CHECK expr[ NOT ENFORCED]`
pub open spec fn check_constraint_text(symbol: Option<Seq<char>>, expr: Seq<char>, enforced: bool) -> Seq<
    char,
> {
    "CONSTRAINT"@ + match symbol {
        Some(x) => " "@ + x,
        None => Seq::empty(),
    } + " CHECK "@ + expr + if enforced {
        Seq::empty()
    } else {
        " NOT ENFORCED"@
    }
}

impl CheckConstraintDefinition {
    /// The SQL text of the constraint.
    pub fn to_string(&self) -> (r: String)
        ensures
            r@ == check_constraint_text(self.symbol.deep_view(), self.expr@, self.enforced),
    {
        let mut out = "CONSTRAINT".to_owned();
        match &self.symbol {
            Some(x) => {
                out.append(" ");
                out.append(x.as_str());
            },
            None => {},
        }
        out.append(" CHECK ");
        out.append(self.expr.as_str());
        if !self.enforced {
            out.append(" NOT ENFORCED");
        }
        assert(out@ =~= check_constraint_text(self.symbol.deep_view(), self.expr@, self.enforced));
        out
    }
}

} // verus!
