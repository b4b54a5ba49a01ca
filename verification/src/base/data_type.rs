//! SQL column types.
use vstd::prelude::*;

use crate::base::common_parser::{
    delim_digit_at, precision_at, spec_delim_digit, spec_precision, u8_of, Span,
};
use crate::base::display_util::{nat_text, push_nat};
use crate::base::error::ParseSQLError;
use crate::base::input::{
    agrees, alt, char_at, digits_end, digits_value, eq_no_case, has_tag_nc, is_digit,
    lemma_run_end_stops, lemma_spelled_tag, lemma_tag_nc_mismatch, spelled, run_end, str_agrees, ws_end, Input, Parsed,
};
use crate::base::literal::{
    all_digits, lemma_nat_text_digits, sign_len, spec_value_list, value_list_at, Literal,
    LiteralView,
};

verus! {

#[derive(Clone, Debug, Eq, Hash, PartialEq)]
pub enum DataType {
    Bool,
    Char(u16),
    Varchar(u16),
    Int(u16),
    UnsignedInt(u16),
    Bigint(u16),
    UnsignedBigint(u16),
    Tinyint(u16),
    UnsignedTinyint(u16),
    Blob,
    Longblob,
    Mediumblob,
    Tinyblob,
    Double,
    Float,
    Real,
    Tinytext,
    Mediumtext,
    Longtext,
    Text,
    Json,
    Date,
    DateTime(u16),
    Timestamp,
    Binary(u16),
    Varbinary(u16),
    Enum(Vec<Literal>),
    Decimal(u8, u8),
}

pub enum DataTypeView {
    Bool,
    Char(u16),
    Varchar(u16),
    Int(u16),
    UnsignedInt(u16),
    Bigint(u16),
    UnsignedBigint(u16),
    Tinyint(u16),
    UnsignedTinyint(u16),
    Blob,
    Longblob,
    Mediumblob,
    Tinyblob,
    Double,
    Float,
    Real,
    Tinytext,
    Mediumtext,
    Longtext,
    Text,
    Json,
    Date,
    DateTime(u16),
    Timestamp,
    Binary(u16),
    Varbinary(u16),
    Enum(Seq<LiteralView>),
    Decimal(u8, u8),
}

impl DeepView for DataType {
    type V = DataTypeView;

    open spec fn deep_view(&self) -> DataTypeView {
        match self {
            DataType::Bool => DataTypeView::Bool,
            DataType::Char(n) => DataTypeView::Char(*n),
            DataType::Varchar(n) => DataTypeView::Varchar(*n),
            DataType::Int(n) => DataTypeView::Int(*n),
            DataType::UnsignedInt(n) => DataTypeView::UnsignedInt(*n),
            DataType::Bigint(n) => DataTypeView::Bigint(*n),
            DataType::UnsignedBigint(n) => DataTypeView::UnsignedBigint(*n),
            DataType::Tinyint(n) => DataTypeView::Tinyint(*n),
            DataType::UnsignedTinyint(n) => DataTypeView::UnsignedTinyint(*n),
            DataType::Blob => DataTypeView::Blob,
            DataType::Longblob => DataTypeView::Longblob,
            DataType::Mediumblob => DataTypeView::Mediumblob,
            DataType::Tinyblob => DataTypeView::Tinyblob,
            DataType::Double => DataTypeView::Double,
            DataType::Float => DataTypeView::Float,
            DataType::Real => DataTypeView::Real,
            DataType::Tinytext => DataTypeView::Tinytext,
            DataType::Mediumtext => DataTypeView::Mediumtext,
            DataType::Longtext => DataTypeView::Longtext,
            DataType::Text => DataTypeView::Text,
            DataType::Json => DataTypeView::Json,
            DataType::Date => DataTypeView::Date,
            DataType::DateTime(n) => DataTypeView::DateTime(*n),
            DataType::Timestamp => DataTypeView::Timestamp,
            DataType::Binary(n) => DataTypeView::Binary(*n),
            DataType::Varbinary(n) => DataTypeView::Varbinary(*n),
            DataType::Enum(v) => DataTypeView::Enum(v.deep_view()),
            DataType::Decimal(m, d) => DataTypeView::Decimal(*m, *d),
        }
    }
}

/// The value of text in the form `u16::from_str` accepts: an optional `+`
/// and at least one digit, at most 65535.
pub open spec fn u16_of_text(v: Seq<char>) -> Option<u16> {
    let a: int = if v.len() > 0 && v[0] == '+' {
        1
    } else {
        0
    };
    let d = v.subrange(a, v.len() as int);
    if d.len() > 0 && all_digits(d) && digits_value(d) <= u16::MAX {
        Some(digits_value(d) as u16)
    } else {
        None
    }
}

/// Length in the type's `(digits)`: `u16` value of the digits, aborting above 65535.
pub open spec fn spec_len(s: Seq<char>, p: int) -> Parsed<u16> {
    match spec_delim_digit(s, p) {
        Parsed::Done(e, (a, b)) => if digits_value(s.subrange(a, b)) <= u16::MAX {
            Parsed::Done(e, digits_value(s.subrange(a, b)) as u16)
        } else {
            Parsed::Abort
        },
        _ => Parsed::NoMatch,
    }
}

pub fn len_at(src: &Input, p: usize) -> (r: Option<(usize, u16)>)
    requires
        p <= src@.len(),
        !(spec_len(src@, p as int) is Abort),
    ensures
        agrees(r, spec_len(src@, p as int)),
        r matches Some((e, _)) ==> p < e <= src@.len(),
{
    match delim_digit_at(src, p) {
        Some((e, sp)) => {
            proof {
                crate::base::input::lemma_run_end_bounds(
                    src@,
                    p + 1,
                    |c: char| crate::base::input::is_digit(c),
                );
            }
            match src.digits_upto(sp.start, sp.end, 65535) {
                Some(v) => Some((e, v as u16)),
                None => None,
            }
        },
        None => None,
    }
}

/// Optional length: the length, or `default` with nothing read.
pub open spec fn spec_opt_len(s: Seq<char>, p: int, default: u16) -> Parsed<u16> {
    match spec_len(s, p) {
        Parsed::NoMatch => Parsed::Done(p, default),
        other => other,
    }
}

fn opt_len_at(src: &Input, p: usize, default: u16) -> (r: Option<(usize, u16)>)
    requires
        p <= src@.len(),
        !(spec_opt_len(src@, p as int, default) is Abort),
    ensures
        agrees(r, spec_opt_len(src@, p as int, default)),
        r matches Some((e, _)) ==> p <= e <= src@.len(),
{
    match len_at(src, p) {
        Some(x) => Some(x),
        None => Some((p, default)),
    }
}

/// End of an optional `UNSIGNED` or `SIGNED`, ignoring case.
pub open spec fn opt_signed_end(s: Seq<char>, p: int) -> int {
    if has_tag_nc(s, p, "unsigned"@) {
        p + "unsigned"@.len()
    } else if has_tag_nc(s, p, "signed"@) {
        p + "signed"@.len()
    } else {
        p
    }
}

fn opt_signed_end_at(src: &Input, p: usize) -> (r: usize)
    requires
        p <= src@.len(),
    ensures
        r == opt_signed_end(src@, p as int),
        p <= r <= src@.len(),
{
    if src.tag_nc(p, "unsigned") {
        p + "unsigned".unicode_len()
    } else if src.tag_nc(p, "signed") {
        p + "signed".unicode_len()
    } else {
        p
    }
}

/// After an integer type's keyword: `[ws] [(len)] [ws] [UNSIGNED | SIGNED]`;
/// the length (or `default`) and whether `UNSIGNED` was given.
pub open spec fn spec_int_tail(s: Seq<char>, q: int, default: u16) -> Parsed<(u16, bool)> {
    match spec_opt_len(s, ws_end(s, q), default) {
        Parsed::Done(b, len) => Parsed::Done(
            opt_signed_end(s, ws_end(s, b)),
            (len, has_tag_nc(s, ws_end(s, b), "unsigned"@)),
        ),
        Parsed::NoMatch => Parsed::NoMatch,
        Parsed::Abort => Parsed::Abort,
    }
}

fn int_tail_at(src: &Input, q: usize, default: u16) -> (r: Option<(usize, (u16, bool))>)
    requires
        q <= src@.len(),
        !(spec_int_tail(src@, q as int, default) is Abort),
    ensures
        agrees(r, spec_int_tail(src@, q as int, default)),
        r matches Some((e, _)) ==> q <= e <= src@.len(),
{
    let a = src.skip_ws(q);
    match opt_len_at(src, a, default) {
        Some((b, len)) => {
            let c = src.skip_ws(b);
            let unsigned = src.tag_nc(c, "unsigned");
            Some((opt_signed_end_at(src, c), (len, unsigned)))
        },
        None => None,
    }
}

/// End of the keyword of `INTEGER`, `INT` or `SMALLINT` (tried in this order).
pub open spec fn int_keyword_end(s: Seq<char>, p: int) -> int {
    if has_tag_nc(s, p, "integer"@) {
        p + "integer"@.len()
    } else if has_tag_nc(s, p, "int"@) {
        p + "int"@.len()
    } else if has_tag_nc(s, p, "smallint"@) {
        p + "smallint"@.len()
    } else {
        -1
    }
}

/// `TINYINT`, `BIGINT` or `INTEGER | INT | SMALLINT`, each with [`spec_int_tail`];
/// default lengths 1, 1 and 32.
pub open spec fn spec_int_types(s: Seq<char>, p: int) -> Parsed<DataTypeView> {
    alt(
        if has_tag_nc(s, p, "tinyint"@) {
            match spec_int_tail(s, p + "tinyint"@.len(), 1) {
                Parsed::Done(e, (n, u)) => Parsed::Done(
                    e,
                    if u {
                        DataTypeView::UnsignedTinyint(n)
                    } else {
                        DataTypeView::Tinyint(n)
                    },
                ),
                Parsed::NoMatch => Parsed::NoMatch,
                Parsed::Abort => Parsed::Abort,
            }
        } else {
            Parsed::NoMatch
        },
        alt(
            if has_tag_nc(s, p, "bigint"@) {
                match spec_int_tail(s, p + "bigint"@.len(), 1) {
                    Parsed::Done(e, (n, u)) => Parsed::Done(
                        e,
                        if u {
                            DataTypeView::UnsignedBigint(n)
                        } else {
                            DataTypeView::Bigint(n)
                        },
                    ),
                    Parsed::NoMatch => Parsed::NoMatch,
                    Parsed::Abort => Parsed::Abort,
                }
            } else {
                Parsed::NoMatch
            },
            if int_keyword_end(s, p) >= 0 {
                match spec_int_tail(s, int_keyword_end(s, p), 32) {
                    Parsed::Done(e, (n, u)) => Parsed::Done(
                        e,
                        if u {
                            DataTypeView::UnsignedInt(n)
                        } else {
                            DataTypeView::Int(n)
                        },
                    ),
                    Parsed::NoMatch => Parsed::NoMatch,
                    Parsed::Abort => Parsed::Abort,
                }
            } else {
                Parsed::NoMatch
            },
        ),
    )
}

fn int_types_at(src: &Input, p: usize) -> (r: Option<(usize, DataType)>)
    requires
        p <= src@.len(),
        !(spec_int_types(src@, p as int) is Abort),
    ensures
        agrees(r, spec_int_types(src@, p as int)),
        r matches Some((e, _)) ==> p <= e <= src@.len(),
{
    if src.tag_nc(p, "tinyint") {
        match int_tail_at(src, p + "tinyint".unicode_len(), 1) {
            Some((e, (n, u))) => {
                return Some(
                    (
                        e,
                        if u {
                            DataType::UnsignedTinyint(n)
                        } else {
                            DataType::Tinyint(n)
                        },
                    ),
                );
            },
            None => {},
        }
    }
    if src.tag_nc(p, "bigint") {
        match int_tail_at(src, p + "bigint".unicode_len(), 1) {
            Some((e, (n, u))) => {
                return Some(
                    (
                        e,
                        if u {
                            DataType::UnsignedBigint(n)
                        } else {
                            DataType::Bigint(n)
                        },
                    ),
                );
            },
            None => {},
        }
    }
    let k = if src.tag_nc(p, "integer") {
        p + "integer".unicode_len()
    } else if src.tag_nc(p, "int") {
        p + "int".unicode_len()
    } else if src.tag_nc(p, "smallint") {
        p + "smallint".unicode_len()
    } else {
        return None;
    };
    match int_tail_at(src, k, 32) {
        Some((e, (n, u))) => Some(
            (
                e,
                if u {
                    DataType::UnsignedInt(n)
                } else {
                    DataType::Int(n)
                },
            ),
        ),
        None => None,
    }
}

/// `kw (len) [ws] [kw2]` with the length; `kw2` ignored when absent.
pub open spec fn spec_kw_len(s: Seq<char>, p: int, kw: Seq<char>, kw2: Seq<char>) -> Parsed<u16> {
    if has_tag_nc(s, p, kw) {
        match spec_len(s, p + kw.len()) {
            Parsed::Done(e, n) => {
                let f = ws_end(s, e);
                Parsed::Done(
                    if has_tag_nc(s, f, kw2) {
                        f + kw2.len()
                    } else {
                        f
                    },
                    n,
                )
            },
            other => other,
        }
    } else {
        Parsed::NoMatch
    }
}

fn kw_len_at(src: &Input, p: usize, kw: &str, kw2: &str) -> (r: Option<(usize, u16)>)
    requires
        p <= src@.len(),
        !(spec_kw_len(src@, p as int, kw@, kw2@) is Abort),
    ensures
        agrees(r, spec_kw_len(src@, p as int, kw@, kw2@)),
        r matches Some((e, _)) ==> p <= e <= src@.len(),
{
    if !src.tag_nc(p, kw) {
        return None;
    }
    match len_at(src, p + kw.unicode_len()) {
        Some((e, n)) => {
            let f = src.skip_ws(e);
            if src.tag_nc(f, kw2) {
                Some((f + kw2.unicode_len(), n))
            } else {
                Some((f, n))
            }
        },
        None => None,
    }
}

/// The types whose keyword stands alone, in the order they are tried: `bool`,
/// `date`, `text`, `json` (after the others of the first group have failed).
pub open spec fn plain_type(s: Seq<char>, p: int, kw: Seq<char>, t: DataTypeView) -> Parsed<DataTypeView> {
    if has_tag_nc(s, p, kw) {
        Parsed::Done(p + kw.len(), t)
    } else {
        Parsed::NoMatch
    }
}

/// `kw [ws] [UNSIGNED | SIGNED]`
pub open spec fn signed_type(s: Seq<char>, p: int, kw: Seq<char>, t: DataTypeView) -> Parsed<DataTypeView> {
    if has_tag_nc(s, p, kw) {
        Parsed::Done(opt_signed_end(s, ws_end(s, p + kw.len())), t)
    } else {
        Parsed::NoMatch
    }
}

/// `DATETIME[(len)]`, length 0 when absent.
pub open spec fn spec_datetime(s: Seq<char>, p: int) -> Parsed<DataTypeView> {
    if has_tag_nc(s, p, "datetime"@) {
        match spec_opt_len(s, p + "datetime"@.len(), 0) {
            Parsed::Done(e, n) => Parsed::Done(e, DataTypeView::DateTime(n)),
            Parsed::NoMatch => Parsed::NoMatch,
            Parsed::Abort => Parsed::Abort,
        }
    } else {
        Parsed::NoMatch
    }
}

/// `ENUM(value_list) [ws]`
pub open spec fn spec_enum_type(s: Seq<char>, p: int) -> Parsed<DataTypeView> {
    let a = p + "enum"@.len();
    if has_tag_nc(s, p, "enum"@) && char_at(s, a, '(') {
        match spec_value_list(s, a + 1) {
            Parsed::Done(e, v) => if char_at(s, e, ')') {
                Parsed::Done(ws_end(s, e + 1), DataTypeView::Enum(v))
            } else {
                Parsed::NoMatch
            },
            Parsed::NoMatch => Parsed::NoMatch,
            Parsed::Abort => Parsed::Abort,
        }
    } else {
        Parsed::NoMatch
    }
}

/// `FLOAT [ws] [precision] [ws]`
pub open spec fn spec_float_type(s: Seq<char>, p: int) -> Parsed<DataTypeView> {
    if has_tag_nc(s, p, "float"@) {
        let a = ws_end(s, p + "float"@.len());
        match spec_precision(s, a) {
            Parsed::Done(e, _) => Parsed::Done(ws_end(s, e), DataTypeView::Float),
            Parsed::NoMatch => Parsed::Done(ws_end(s, a), DataTypeView::Float),
            Parsed::Abort => Parsed::Abort,
        }
    } else {
        Parsed::NoMatch
    }
}

/// `TIMESTAMP[(digits)] [ws]`
pub open spec fn spec_timestamp(s: Seq<char>, p: int) -> Parsed<DataTypeView> {
    if has_tag_nc(s, p, "timestamp"@) {
        let a = p + "timestamp"@.len();
        match spec_delim_digit(s, a) {
            Parsed::Done(e, _) => Parsed::Done(ws_end(s, e), DataTypeView::Timestamp),
            _ => Parsed::Done(ws_end(s, a), DataTypeView::Timestamp),
        }
    } else {
        Parsed::NoMatch
    }
}

/// `{DECIMAL | NUMERIC} [precision] [ws]`; precision 32 and scale 0 by default.
pub open spec fn spec_decimal(s: Seq<char>, p: int) -> Parsed<DataTypeView> {
    let a = if has_tag_nc(s, p, "decimal"@) {
        p + "decimal"@.len()
    } else if has_tag_nc(s, p, "numeric"@) {
        p + "numeric"@.len()
    } else {
        -1
    };
    if a >= 0 {
        match spec_precision(s, a) {
            Parsed::Done(e, (m, d)) => Parsed::Done(
                ws_end(s, e),
                DataTypeView::Decimal(
                    m,
                    match d {
                        Some(x) => x,
                        None => 0,
                    },
                ),
            ),
            Parsed::NoMatch => Parsed::Done(ws_end(s, a), DataTypeView::Decimal(32, 0)),
            Parsed::Abort => Parsed::Abort,
        }
    } else {
        Parsed::NoMatch
    }
}

/// Wraps a length outcome into a type.
pub open spec fn with_len(r: Parsed<u16>, k: int) -> Parsed<DataTypeView> {
    match r {
        Parsed::Done(e, n) => Parsed::Done(
            e,
            if k == 0 {
                DataTypeView::Char(n)
            } else if k == 1 {
                DataTypeView::Varchar(n)
            } else if k == 2 {
                DataTypeView::Binary(n)
            } else {
                DataTypeView::Varbinary(n)
            },
        ),
        Parsed::NoMatch => Parsed::NoMatch,
        Parsed::Abort => Parsed::Abort,
    }
}

/// The first group of type rules, tried in order.
pub open spec fn spec_type_first_half(s: Seq<char>, p: int) -> Parsed<DataTypeView> {
    alt(
        spec_int_types(s, p),
        alt(
            plain_type(s, p, "bool"@, DataTypeView::Bool),
            alt(
                with_len(spec_kw_len(s, p, "char"@, "binary"@), 0),
                alt(
                    spec_datetime(s, p),
                    alt(
                        plain_type(s, p, "date"@, DataTypeView::Date),
                        alt(
                            signed_type(s, p, "double"@, DataTypeView::Double),
                            alt(
                                spec_enum_type(s, p),
                                alt(
                                    spec_float_type(s, p),
                                    alt(
                                        signed_type(s, p, "real"@, DataTypeView::Real),
                                        alt(
                                            plain_type(s, p, "text"@, DataTypeView::Text),
                                            alt(
                                                plain_type(s, p, "json"@, DataTypeView::Json),
                                                alt(
                                                    spec_timestamp(s, p),
                                                    alt(
                                                        with_len(
                                                            spec_kw_len(s, p, "varchar"@, "binary"@),
                                                            1,
                                                        ),
                                                        spec_decimal(s, p),
                                                    ),
                                                ),
                                            ),
                                        ),
                                    ),
                                ),
                            ),
                        ),
                    ),
                ),
            ),
        ),
    )
}

/// The second group of type rules, tried in order.
pub open spec fn spec_type_second_half(s: Seq<char>, p: int) -> Parsed<DataTypeView> {
    alt(
        with_len(spec_kw_len(s, p, "binary"@, ""@), 2),
        alt(
            plain_type(s, p, "blob"@, DataTypeView::Blob),
            alt(
                plain_type(s, p, "longblob"@, DataTypeView::Longblob),
                alt(
                    plain_type(s, p, "mediumblob"@, DataTypeView::Mediumblob),
                    alt(
                        plain_type(s, p, "mediumtext"@, DataTypeView::Mediumtext),
                        alt(
                            plain_type(s, p, "longtext"@, DataTypeView::Longtext),
                            alt(
                                plain_type(s, p, "tinyblob"@, DataTypeView::Tinyblob),
                                alt(
                                    plain_type(s, p, "tinytext"@, DataTypeView::Tinytext),
                                    with_len(spec_kw_len(s, p, "varbinary"@, ""@), 3),
                                ),
                            ),
                        ),
                    ),
                ),
            ),
        ),
    )
}

/// A SQL type specifier.
#[verifier::opaque]
pub open spec fn spec_type_identifier(s: Seq<char>, p: int) -> Parsed<DataTypeView> {
    alt(spec_type_first_half(s, p), spec_type_second_half(s, p))
}

fn plain_type_at(src: &Input, p: usize, kw: &str) -> (r: Option<usize>)
    requires
        p <= src@.len(),
    ensures
        r matches Some(e) ==> has_tag_nc(src@, p as int, kw@) && e == p + kw@.len() && e
            <= src@.len(),
        r is None ==> !has_tag_nc(src@, p as int, kw@),
{
    if src.tag_nc(p, kw) {
        Some(p + kw.unicode_len())
    } else {
        None
    }
}

fn signed_type_at(src: &Input, p: usize, kw: &str) -> (r: Option<usize>)
    requires
        p <= src@.len(),
    ensures
        r matches Some(e) ==> has_tag_nc(src@, p as int, kw@) && e == opt_signed_end(
            src@,
            ws_end(src@, p + kw@.len()),
        ) && p <= e <= src@.len(),
        r is None ==> !has_tag_nc(src@, p as int, kw@),
{
    if src.tag_nc(p, kw) {
        Some(opt_signed_end_at(src, src.skip_ws(p + kw.unicode_len())))
    } else {
        None
    }
}

fn datetime_at(src: &Input, p: usize) -> (r: Option<(usize, DataType)>)
    requires
        p <= src@.len(),
        !(spec_datetime(src@, p as int) is Abort),
    ensures
        agrees(r, spec_datetime(src@, p as int)),
        r matches Some((e, _)) ==> p <= e <= src@.len(),
{
    if !src.tag_nc(p, "datetime") {
        return None;
    }
    match opt_len_at(src, p + "datetime".unicode_len(), 0) {
        Some((e, n)) => Some((e, DataType::DateTime(n))),
        None => None,
    }
}

fn enum_type_at(src: &Input, p: usize) -> (r: Option<(usize, DataType)>)
    requires
        p <= src@.len(),
        !(spec_enum_type(src@, p as int) is Abort),
    ensures
        agrees(r, spec_enum_type(src@, p as int)),
        r matches Some((e, _)) ==> p <= e <= src@.len(),
{
    if !src.tag_nc(p, "enum") {
        return None;
    }
    let a = p + "enum".unicode_len();
    if !src.is_char(a, '(') {
        return None;
    }
    match value_list_at(src, a + 1) {
        Some((e, v)) => if src.is_char(e, ')') {
            Some((src.skip_ws(e + 1), DataType::Enum(v)))
        } else {
            None
        },
        None => None,
    }
}

fn float_type_at(src: &Input, p: usize) -> (r: Option<(usize, DataType)>)
    requires
        p <= src@.len(),
        !(spec_float_type(src@, p as int) is Abort),
    ensures
        agrees(r, spec_float_type(src@, p as int)),
        r matches Some((e, _)) ==> p <= e <= src@.len(),
{
    if !src.tag_nc(p, "float") {
        return None;
    }
    let a = src.skip_ws(p + "float".unicode_len());
    match precision_at(src, a) {
        Some((e, _)) => Some((src.skip_ws(e), DataType::Float)),
        None => Some((src.skip_ws(a), DataType::Float)),
    }
}

fn timestamp_at(src: &Input, p: usize) -> (r: Option<(usize, DataType)>)
    requires
        p <= src@.len(),
    ensures
        agrees(r, spec_timestamp(src@, p as int)),
        r matches Some((e, _)) ==> p <= e <= src@.len(),
{
    if !src.tag_nc(p, "timestamp") {
        return None;
    }
    let a = p + "timestamp".unicode_len();
    match delim_digit_at(src, a) {
        Some((e, _)) => Some((src.skip_ws(e), DataType::Timestamp)),
        None => Some((src.skip_ws(a), DataType::Timestamp)),
    }
}

fn decimal_at(src: &Input, p: usize) -> (r: Option<(usize, DataType)>)
    requires
        p <= src@.len(),
        !(spec_decimal(src@, p as int) is Abort),
    ensures
        agrees(r, spec_decimal(src@, p as int)),
        r matches Some((e, _)) ==> p <= e <= src@.len(),
{
    let a = if src.tag_nc(p, "decimal") {
        p + "decimal".unicode_len()
    } else if src.tag_nc(p, "numeric") {
        p + "numeric".unicode_len()
    } else {
        return None;
    };
    match precision_at(src, a) {
        Some((e, (m, d))) => Some(
            (
                src.skip_ws(e),
                DataType::Decimal(
                    m,
                    match d {
                        Some(x) => x,
                        None => 0,
                    },
                ),
            ),
        ),
        None => Some((src.skip_ws(a), DataType::Decimal(32, 0))),
    }
}

fn type_first_half_at(src: &Input, p: usize) -> (r: Option<(usize, DataType)>)
    requires
        p <= src@.len(),
        !(spec_type_first_half(src@, p as int) is Abort),
    ensures
        agrees(r, spec_type_first_half(src@, p as int)),
        r matches Some((e, _)) ==> p <= e <= src@.len(),
{
    if let Some(x) = int_types_at(src, p) {
        return Some(x);
    }
    if let Some(e) = plain_type_at(src, p, "bool") {
        return Some((e, DataType::Bool));
    }
    if let Some((e, n)) = kw_len_at(src, p, "char", "binary") {
        return Some((e, DataType::Char(n)));
    }
    if let Some(x) = datetime_at(src, p) {
        return Some(x);
    }
    if let Some(e) = plain_type_at(src, p, "date") {
        return Some((e, DataType::Date));
    }
    if let Some(e) = signed_type_at(src, p, "double") {
        return Some((e, DataType::Double));
    }
    if let Some(x) = enum_type_at(src, p) {
        return Some(x);
    }
    if let Some(x) = float_type_at(src, p) {
        return Some(x);
    }
    if let Some(e) = signed_type_at(src, p, "real") {
        return Some((e, DataType::Real));
    }
    if let Some(e) = plain_type_at(src, p, "text") {
        return Some((e, DataType::Text));
    }
    if let Some(e) = plain_type_at(src, p, "json") {
        return Some((e, DataType::Json));
    }
    if let Some(x) = timestamp_at(src, p) {
        return Some(x);
    }
    if let Some((e, n)) = kw_len_at(src, p, "varchar", "binary") {
        return Some((e, DataType::Varchar(n)));
    }
    decimal_at(src, p)
}

fn type_second_half_at(src: &Input, p: usize) -> (r: Option<(usize, DataType)>)
    requires
        p <= src@.len(),
        !(spec_type_second_half(src@, p as int) is Abort),
    ensures
        agrees(r, spec_type_second_half(src@, p as int)),
        r matches Some((e, _)) ==> p <= e <= src@.len(),
{
    if let Some((e, n)) = kw_len_at(src, p, "binary", "") {
        return Some((e, DataType::Binary(n)));
    }
    if let Some(e) = plain_type_at(src, p, "blob") {
        return Some((e, DataType::Blob));
    }
    if let Some(e) = plain_type_at(src, p, "longblob") {
        return Some((e, DataType::Longblob));
    }
    if let Some(e) = plain_type_at(src, p, "mediumblob") {
        return Some((e, DataType::Mediumblob));
    }
    if let Some(e) = plain_type_at(src, p, "mediumtext") {
        return Some((e, DataType::Mediumtext));
    }
    if let Some(e) = plain_type_at(src, p, "longtext") {
        return Some((e, DataType::Longtext));
    }
    if let Some(e) = plain_type_at(src, p, "tinyblob") {
        return Some((e, DataType::Tinyblob));
    }
    if let Some(e) = plain_type_at(src, p, "tinytext") {
        return Some((e, DataType::Tinytext));
    }
    match kw_len_at(src, p, "varbinary", "") {
        Some((e, n)) => Some((e, DataType::Varbinary(n))),
        None => None,
    }
}

pub fn type_identifier_at(src: &Input, p: usize) -> (r: Option<(usize, DataType)>)
    requires
        p <= src@.len(),
        !(spec_type_identifier(src@, p as int) is Abort),
    ensures
        agrees(r, spec_type_identifier(src@, p as int)),
        r matches Some((e, _)) ==> p <= e <= src@.len(),
{
    proof {
        reveal(spec_type_identifier);
    }
    match type_first_half_at(src, p) {
        Some(x) => Some(x),
        None => type_second_half_at(src, p),
    }
}

/// `name(n)suffix`
pub open spec fn sized_text(name: Seq<char>, n: nat, suffix: Seq<char>) -> Seq<char> {
    name + seq!['('] + nat_text(n) + seq![')'] + suffix
}

/// The SQL text of a type.
pub open spec fn data_type_text(t: DataTypeView) -> Seq<char> {
    match t {
        DataTypeView::Bool => "BOOL"@,
        DataTypeView::Char(n) => sized_text("CHAR"@, n as nat, Seq::empty()),
        DataTypeView::Varchar(n) => sized_text("VARCHAR"@, n as nat, Seq::empty()),
        DataTypeView::Int(n) => sized_text("INT"@, n as nat, Seq::empty()),
        DataTypeView::UnsignedInt(n) => sized_text("INT"@, n as nat, " UNSIGNED"@),
        DataTypeView::Bigint(n) => sized_text("BIGINT"@, n as nat, Seq::empty()),
        DataTypeView::UnsignedBigint(n) => sized_text("BIGINT"@, n as nat, " UNSIGNED"@),
        DataTypeView::Tinyint(n) => sized_text("TINYINT"@, n as nat, Seq::empty()),
        DataTypeView::UnsignedTinyint(n) => sized_text("TINYINT"@, n as nat, " UNSIGNED"@),
        DataTypeView::Blob => "BLOB"@,
        DataTypeView::Longblob => "LONGBLOB"@,
        DataTypeView::Mediumblob => "MEDIUMBLOB"@,
        DataTypeView::Tinyblob => "TINYBLOB"@,
        DataTypeView::Double => "DOUBLE"@,
        DataTypeView::Float => "FLOAT"@,
        DataTypeView::Real => "REAL"@,
        DataTypeView::Tinytext => "TINYTEXT"@,
        DataTypeView::Mediumtext => "MEDIUMTEXT"@,
        DataTypeView::Longtext => "LONGTEXT"@,
        DataTypeView::Text => "TEXT"@,
        DataTypeView::Json => "JSON"@,
        DataTypeView::Date => "DATE"@,
        DataTypeView::DateTime(n) => sized_text("DATETIME"@, n as nat, Seq::empty()),
        DataTypeView::Timestamp => "TIMESTAMP"@,
        DataTypeView::Binary(n) => sized_text("BINARY"@, n as nat, Seq::empty()),
        DataTypeView::Varbinary(n) => sized_text("VARBINARY"@, n as nat, Seq::empty()),
        DataTypeView::Enum(_) => "ENUM(...)"@,
        DataTypeView::Decimal(m, d) => "DECIMAL("@ + nat_text(m as nat) + ", "@ + nat_text(d as nat)
            + seq![')'],
    }
}

fn push_sized(out: &mut String, name: &str, n: u64, suffix: &str)
    ensures
        final(out)@ == old(out)@ + sized_text(name@, n as nat, suffix@),
{
    out.append(name);
    out.append("(");
    push_nat(out, n);
    out.append(")");
    out.append(suffix);
    proof {
        reveal_strlit("(");
        reveal_strlit(")");
    }
    assert(final(out)@ =~= old(out)@ + sized_text(name@, n as nat, suffix@));
}

impl DataType {
    /// A SQL type specifier.
    pub fn type_identifier(i: &str) -> (r: Result<(&str, DataType), ParseSQLError>)
        requires
            !(spec_type_identifier(i@, 0) is Abort),
        ensures
            str_agrees(i@, r, spec_type_identifier(i@, 0)),
    {
        let src = Input::new(i);
        match type_identifier_at(&src, 0) {
            Some((q, v)) => Ok((src.rest(q), v)),
            None => Err(ParseSQLError::grammar(i)),
        }
    }

    /// The value of a length text; the text must denote a `u16`.
    pub fn len_as_u16(len: &str) -> (r: u16)
        requires
            u16_of_text(len@) is Some,
        ensures
            u16_of_text(len@) == Some(r),
    {
        let src = Input::new(len);
        let n = src.len();
        let a: usize = if n > 0 && src.at(0) == '+' {
            1
        } else {
            0
        };
        proof {
            let d = len@.subrange(a as int, len@.len() as int);
            assert(all_digits(d));
            assert forall|j: int| a <= j < n implies is_digit(#[trigger] src@[j]) by {
                assert(d[j - a] == src@[j]);
            }
            assert(src@.subrange(a as int, n as int) =~= d);
        }
        match src.digits_upto(a, n, 65535) {
            Some(v) => v as u16,
            None => 0,
        }
    }

    /// The SQL text of the type.
    pub fn to_string(&self) -> (r: String)
        ensures
            r@ == data_type_text(self.deep_view()),
    {
        let mut out = String::new();
        match self {
            DataType::Bool => out.append("BOOL"),
            DataType::Char(n) => push_sized(&mut out, "CHAR", *n as u64, ""),
            DataType::Varchar(n) => push_sized(&mut out, "VARCHAR", *n as u64, ""),
            DataType::Int(n) => push_sized(&mut out, "INT", *n as u64, ""),
            DataType::UnsignedInt(n) => push_sized(&mut out, "INT", *n as u64, " UNSIGNED"),
            DataType::Bigint(n) => push_sized(&mut out, "BIGINT", *n as u64, ""),
            DataType::UnsignedBigint(n) => push_sized(&mut out, "BIGINT", *n as u64, " UNSIGNED"),
            DataType::Tinyint(n) => push_sized(&mut out, "TINYINT", *n as u64, ""),
            DataType::UnsignedTinyint(n) => push_sized(&mut out, "TINYINT", *n as u64, " UNSIGNED"),
            DataType::Blob => out.append("BLOB"),
            DataType::Longblob => out.append("LONGBLOB"),
            DataType::Mediumblob => out.append("MEDIUMBLOB"),
            DataType::Tinyblob => out.append("TINYBLOB"),
            DataType::Double => out.append("DOUBLE"),
            DataType::Float => out.append("FLOAT"),
            DataType::Real => out.append("REAL"),
            DataType::Tinytext => out.append("TINYTEXT"),
            DataType::Mediumtext => out.append("MEDIUMTEXT"),
            DataType::Longtext => out.append("LONGTEXT"),
            DataType::Text => out.append("TEXT"),
            DataType::Json => out.append("JSON"),
            DataType::Date => out.append("DATE"),
            DataType::DateTime(n) => push_sized(&mut out, "DATETIME", *n as u64, ""),
            DataType::Timestamp => out.append("TIMESTAMP"),
            DataType::Binary(n) => push_sized(&mut out, "BINARY", *n as u64, ""),
            DataType::Varbinary(n) => push_sized(&mut out, "VARBINARY", *n as u64, ""),
            DataType::Enum(_) => out.append("ENUM(...)"),
            DataType::Decimal(m, d) => {
                out.append("DECIMAL(");
                push_nat(&mut out, *m as u64);
                out.append(", ");
                push_nat(&mut out, *d as u64);
                out.append(")");
                proof {
                    reveal_strlit(")");
                }
            },
        }
        proof {
            reveal_strlit("");
        }
        assert(out@ =~= data_type_text(self.deep_view()));
        out
    }
}


/// Digits of `n` between `pre` and a non-digit: the run of digits ends after
/// them and reads back as `n`.
proof fn lemma_digits_in(pre: Seq<char>, n: nat, post: Seq<char>)
    requires
        post.len() > 0,
        !is_digit(post[0]),
    ensures
        digits_end(pre + nat_text(n) + post, pre.len() as int) == pre.len() + nat_text(n).len(),
        (pre + nat_text(n) + post).subrange(pre.len() as int, (pre.len() + nat_text(n).len()) as int)
            == nat_text(n),
        digits_value(nat_text(n)) == n,
        nat_text(n).len() >= 1,
{
    let s = pre + nat_text(n) + post;
    let a = pre.len() as int;
    let l = nat_text(n).len() as int;
    lemma_nat_text_digits(n);
    assert forall|j: int| a <= j < a + l implies is_digit(#[trigger] s[j]) by {
        assert(s[j] == nat_text(n)[j - a]);
    }
    assert(s[a + l] == post[0]);
    lemma_run_end_stops(s, a, a + l, |c: char| is_digit(c));
    assert(s.subrange(a, a + l) =~= nat_text(n));
}

#[verifier::spinoff_prover]
#[verifier::rlimit(40)]
proof fn lemma_type_text_bool()
    ensures
        spec_type_identifier(data_type_text(DataTypeView::Bool), 0) == Parsed::Done(
            data_type_text(DataTypeView::Bool).len() as int,
            DataTypeView::Bool,
        ),
{
    let t = DataTypeView::Bool;
    let s = data_type_text(t);
    reveal_strlit("bigint");
    reveal_strlit("binary");
    reveal_strlit("blob");
    reveal_strlit("bool");
    reveal_strlit("char");
    reveal_strlit("date");
    reveal_strlit("datetime");
    reveal_strlit("decimal");
    reveal_strlit("double");
    reveal_strlit("enum");
    reveal_strlit("float");
    reveal_strlit("int");
    reveal_strlit("integer");
    reveal_strlit("json");
    reveal_strlit("longblob");
    reveal_strlit("longtext");
    reveal_strlit("mediumblob");
    reveal_strlit("mediumtext");
    reveal_strlit("numeric");
    reveal_strlit("real");
    reveal_strlit("smallint");
    reveal_strlit("text");
    reveal_strlit("timestamp");
    reveal_strlit("tinyblob");
    reveal_strlit("tinyint");
    reveal_strlit("tinytext");
    reveal_strlit("varbinary");
    reveal_strlit("varchar");
    reveal_strlit("unsigned");
    reveal_strlit("signed");
    reveal_strlit("binary");
    reveal_strlit("");
    reveal_strlit("enum");
    reveal_with_fuel(run_end, 2);
    assert(s =~= seq!['B', 'O', 'O', 'L']) by { reveal_strlit("BOOL"); }
    lemma_tag_nc_mismatch(s, 0, "tinyint"@, 0);
    lemma_tag_nc_mismatch(s, 0, "bigint"@, 1);
    lemma_tag_nc_mismatch(s, 0, "integer"@, 0);
    lemma_tag_nc_mismatch(s, 0, "int"@, 0);
    lemma_tag_nc_mismatch(s, 0, "smallint"@, 0);
    assert(spec_int_types(s, 0) is NoMatch);
    assert(has_tag_nc(s, 0, "bool"@)) by {
        assert forall|j: int| 0 <= j < 4 implies #[trigger] eq_no_case(s[0 + j], "bool"@[j]) by {
            if j == 0 {} else if j == 1 {} else if j == 2 {} else if j == 3 {}
        }
    }
    assert(plain_type(s, 0, "bool"@, DataTypeView::Bool) == Parsed::Done(s.len() as int, t));
    assert(spec_type_first_half(s, 0) == Parsed::Done(s.len() as int, t));
    reveal(spec_type_identifier);
}

#[verifier::spinoff_prover]
#[verifier::rlimit(40)]
proof fn lemma_type_text_char(n: u16)
    ensures
        spec_type_identifier(data_type_text(DataTypeView::Char(n)), 0) == Parsed::Done(
            data_type_text(DataTypeView::Char(n)).len() as int,
            DataTypeView::Char(n),
        ),
{
    let t = DataTypeView::Char(n);
    let s = data_type_text(t);
    reveal_strlit("bigint");
    reveal_strlit("binary");
    reveal_strlit("blob");
    reveal_strlit("bool");
    reveal_strlit("char");
    reveal_strlit("date");
    reveal_strlit("datetime");
    reveal_strlit("decimal");
    reveal_strlit("double");
    reveal_strlit("enum");
    reveal_strlit("float");
    reveal_strlit("int");
    reveal_strlit("integer");
    reveal_strlit("json");
    reveal_strlit("longblob");
    reveal_strlit("longtext");
    reveal_strlit("mediumblob");
    reveal_strlit("mediumtext");
    reveal_strlit("numeric");
    reveal_strlit("real");
    reveal_strlit("smallint");
    reveal_strlit("text");
    reveal_strlit("timestamp");
    reveal_strlit("tinyblob");
    reveal_strlit("tinyint");
    reveal_strlit("tinytext");
    reveal_strlit("varbinary");
    reveal_strlit("varchar");
    reveal_strlit("unsigned");
    reveal_strlit("signed");
    reveal_strlit("binary");
    reveal_strlit("");
    reveal_strlit("enum");
    reveal_with_fuel(run_end, 2);
    assert(s =~= seq!['C', 'H', 'A', 'R', '('] + nat_text(n as nat) + seq![')']) by { reveal_strlit("CHAR"); }
    lemma_digits_in(seq!['C', 'H', 'A', 'R', '('], n as nat, seq![')']);
    let e: int = 6 + nat_text(n as nat).len() as int;
    assert(spec_len(s, 4) == Parsed::Done(e, n));
    lemma_tag_nc_mismatch(s, 0, "tinyint"@, 0);
    lemma_tag_nc_mismatch(s, 0, "bigint"@, 0);
    lemma_tag_nc_mismatch(s, 0, "integer"@, 0);
    lemma_tag_nc_mismatch(s, 0, "int"@, 0);
    lemma_tag_nc_mismatch(s, 0, "smallint"@, 0);
    assert(spec_int_types(s, 0) is NoMatch);
    lemma_tag_nc_mismatch(s, 0, "bool"@, 0);
    assert(plain_type(s, 0, "bool"@, DataTypeView::Bool) is NoMatch);
    assert(has_tag_nc(s, 0, "char"@)) by {
        assert forall|j: int| 0 <= j < 4 implies #[trigger] eq_no_case(s[0 + j], "char"@[j]) by {
            if j == 0 {} else if j == 1 {} else if j == 2 {} else if j == 3 {}
        }
    }
    assert(spec_kw_len(s, 0, "char"@, "binary"@) == Parsed::Done(s.len() as int, n));
    assert(spec_type_first_half(s, 0) == Parsed::Done(s.len() as int, t));
    reveal(spec_type_identifier);
}

#[verifier::spinoff_prover]
#[verifier::rlimit(40)]
proof fn lemma_type_text_varchar(n: u16)
    ensures
        spec_type_identifier(data_type_text(DataTypeView::Varchar(n)), 0) == Parsed::Done(
            data_type_text(DataTypeView::Varchar(n)).len() as int,
            DataTypeView::Varchar(n),
        ),
{
    let t = DataTypeView::Varchar(n);
    let s = data_type_text(t);
    reveal_strlit("bigint");
    reveal_strlit("binary");
    reveal_strlit("blob");
    reveal_strlit("bool");
    reveal_strlit("char");
    reveal_strlit("date");
    reveal_strlit("datetime");
    reveal_strlit("decimal");
    reveal_strlit("double");
    reveal_strlit("enum");
    reveal_strlit("float");
    reveal_strlit("int");
    reveal_strlit("integer");
    reveal_strlit("json");
    reveal_strlit("longblob");
    reveal_strlit("longtext");
    reveal_strlit("mediumblob");
    reveal_strlit("mediumtext");
    reveal_strlit("numeric");
    reveal_strlit("real");
    reveal_strlit("smallint");
    reveal_strlit("text");
    reveal_strlit("timestamp");
    reveal_strlit("tinyblob");
    reveal_strlit("tinyint");
    reveal_strlit("tinytext");
    reveal_strlit("varbinary");
    reveal_strlit("varchar");
    reveal_strlit("unsigned");
    reveal_strlit("signed");
    reveal_strlit("binary");
    reveal_strlit("");
    reveal_strlit("enum");
    reveal_with_fuel(run_end, 2);
    assert(s =~= seq!['V', 'A', 'R', 'C', 'H', 'A', 'R', '('] + nat_text(n as nat) + seq![')']) by { reveal_strlit("VARCHAR"); }
    lemma_digits_in(seq!['V', 'A', 'R', 'C', 'H', 'A', 'R', '('], n as nat, seq![')']);
    let e: int = 9 + nat_text(n as nat).len() as int;
    assert(spec_len(s, 7) == Parsed::Done(e, n));
    lemma_tag_nc_mismatch(s, 0, "tinyint"@, 0);
    lemma_tag_nc_mismatch(s, 0, "bigint"@, 0);
    lemma_tag_nc_mismatch(s, 0, "integer"@, 0);
    lemma_tag_nc_mismatch(s, 0, "int"@, 0);
    lemma_tag_nc_mismatch(s, 0, "smallint"@, 0);
    assert(spec_int_types(s, 0) is NoMatch);
    lemma_tag_nc_mismatch(s, 0, "bool"@, 0);
    assert(plain_type(s, 0, "bool"@, DataTypeView::Bool) is NoMatch);
    lemma_tag_nc_mismatch(s, 0, "char"@, 0);
    assert(spec_kw_len(s, 0, "char"@, "binary"@) is NoMatch);
    lemma_tag_nc_mismatch(s, 0, "datetime"@, 0);
    assert(spec_datetime(s, 0) is NoMatch);
    lemma_tag_nc_mismatch(s, 0, "date"@, 0);
    assert(plain_type(s, 0, "date"@, DataTypeView::Date) is NoMatch);
    lemma_tag_nc_mismatch(s, 0, "double"@, 0);
    assert(signed_type(s, 0, "double"@, DataTypeView::Double) is NoMatch);
    lemma_tag_nc_mismatch(s, 0, "enum"@, 0);
    assert(spec_enum_type(s, 0) is NoMatch);
    lemma_tag_nc_mismatch(s, 0, "float"@, 0);
    assert(spec_float_type(s, 0) is NoMatch);
    lemma_tag_nc_mismatch(s, 0, "real"@, 0);
    assert(signed_type(s, 0, "real"@, DataTypeView::Real) is NoMatch);
    lemma_tag_nc_mismatch(s, 0, "text"@, 0);
    assert(plain_type(s, 0, "text"@, DataTypeView::Text) is NoMatch);
    lemma_tag_nc_mismatch(s, 0, "json"@, 0);
    assert(plain_type(s, 0, "json"@, DataTypeView::Json) is NoMatch);
    lemma_tag_nc_mismatch(s, 0, "timestamp"@, 0);
    assert(spec_timestamp(s, 0) is NoMatch);
    assert(has_tag_nc(s, 0, "varchar"@)) by {
        assert forall|j: int| 0 <= j < 7 implies #[trigger] eq_no_case(s[0 + j], "varchar"@[j]) by {
            if j == 0 {} else if j == 1 {} else if j == 2 {} else if j == 3 {} else if j == 4 {} else if j == 5 {} else if j == 6 {}
        }
    }
    assert(spec_kw_len(s, 0, "varchar"@, "binary"@) == Parsed::Done(s.len() as int, n));
    assert(spec_type_first_half(s, 0) == Parsed::Done(s.len() as int, t));
    reveal(spec_type_identifier);
}

#[verifier::spinoff_prover]
#[verifier::rlimit(40)]
proof fn lemma_type_text_int(n: u16)
    ensures
        spec_type_identifier(data_type_text(DataTypeView::Int(n)), 0) == Parsed::Done(
            data_type_text(DataTypeView::Int(n)).len() as int,
            DataTypeView::Int(n),
        ),
{
    let t = DataTypeView::Int(n);
    let s = data_type_text(t);
    reveal_strlit("bigint");
    reveal_strlit("binary");
    reveal_strlit("blob");
    reveal_strlit("bool");
    reveal_strlit("char");
    reveal_strlit("date");
    reveal_strlit("datetime");
    reveal_strlit("decimal");
    reveal_strlit("double");
    reveal_strlit("enum");
    reveal_strlit("float");
    reveal_strlit("int");
    reveal_strlit("integer");
    reveal_strlit("json");
    reveal_strlit("longblob");
    reveal_strlit("longtext");
    reveal_strlit("mediumblob");
    reveal_strlit("mediumtext");
    reveal_strlit("numeric");
    reveal_strlit("real");
    reveal_strlit("smallint");
    reveal_strlit("text");
    reveal_strlit("timestamp");
    reveal_strlit("tinyblob");
    reveal_strlit("tinyint");
    reveal_strlit("tinytext");
    reveal_strlit("varbinary");
    reveal_strlit("varchar");
    reveal_strlit("unsigned");
    reveal_strlit("signed");
    reveal_strlit("binary");
    reveal_strlit("");
    reveal_strlit("enum");
    reveal_with_fuel(run_end, 2);
    assert(s =~= seq!['I', 'N', 'T', '('] + nat_text(n as nat) + seq![')']) by { reveal_strlit("INT"); }
    lemma_digits_in(seq!['I', 'N', 'T', '('], n as nat, seq![')']);
    let e: int = 5 + nat_text(n as nat).len() as int;
    assert(spec_len(s, 3) == Parsed::Done(e, n));
    lemma_tag_nc_mismatch(s, 0, "tinyint"@, 0);
    lemma_tag_nc_mismatch(s, 0, "bigint"@, 0);
    lemma_tag_nc_mismatch(s, 0, "integer"@, 3);
    assert(has_tag_nc(s, 0, "int"@)) by {
        assert forall|j: int| 0 <= j < 3 implies #[trigger] eq_no_case(s[0 + j], "int"@[j]) by {
            if j == 0 {} else if j == 1 {} else if j == 2 {}
        }
    }
    assert(ws_end(s, 3) == 3);
    assert(spec_opt_len(s, 3, 32) == Parsed::Done(e, n));
    assert(e == s.len());
    assert(ws_end(s, e) == e);
    assert(opt_signed_end(s, e) == e);
    assert(spec_int_tail(s, 3, 32) == Parsed::Done(s.len() as int, (n, false)));
    assert(int_keyword_end(s, 0) == 3);
    assert(spec_int_types(s, 0) == Parsed::Done(s.len() as int, t));
    assert(spec_type_first_half(s, 0) == Parsed::Done(s.len() as int, t));
    reveal(spec_type_identifier);
}

#[verifier::spinoff_prover]
#[verifier::rlimit(100)]
proof fn lemma_type_text_unsigned_int_part(n: u16)
    ensures
        spec_int_types(data_type_text(DataTypeView::UnsignedInt(n)), 0) == Parsed::Done(
            data_type_text(DataTypeView::UnsignedInt(n)).len() as int,
            DataTypeView::UnsignedInt(n),
        ),
{
    let t = DataTypeView::UnsignedInt(n);
    let s = data_type_text(t);
    reveal_strlit("bigint");
    reveal_strlit("binary");
    reveal_strlit("blob");
    reveal_strlit("bool");
    reveal_strlit("char");
    reveal_strlit("date");
    reveal_strlit("datetime");
    reveal_strlit("decimal");
    reveal_strlit("double");
    reveal_strlit("enum");
    reveal_strlit("float");
    reveal_strlit("int");
    reveal_strlit("integer");
    reveal_strlit("json");
    reveal_strlit("longblob");
    reveal_strlit("longtext");
    reveal_strlit("mediumblob");
    reveal_strlit("mediumtext");
    reveal_strlit("numeric");
    reveal_strlit("real");
    reveal_strlit("smallint");
    reveal_strlit("text");
    reveal_strlit("timestamp");
    reveal_strlit("tinyblob");
    reveal_strlit("tinyint");
    reveal_strlit("tinytext");
    reveal_strlit("varbinary");
    reveal_strlit("varchar");
    reveal_strlit("unsigned");
    reveal_strlit("signed");
    reveal_strlit("binary");
    reveal_strlit("");
    reveal_strlit("enum");
    reveal_with_fuel(run_end, 2);
    assert(s =~= seq!['I', 'N', 'T', '('] + nat_text(n as nat) + seq![')', ' ', 'U', 'N', 'S', 'I', 'G', 'N', 'E', 'D']) by { reveal_strlit("INT"); reveal_strlit(" UNSIGNED"); }
    lemma_digits_in(seq!['I', 'N', 'T', '('], n as nat, seq![')', ' ', 'U', 'N', 'S', 'I', 'G', 'N', 'E', 'D']);
    let e: int = 5 + nat_text(n as nat).len() as int;
    assert(spec_len(s, 3) == Parsed::Done(e, n));
    lemma_tag_nc_mismatch(s, 0, "tinyint"@, 0);
    lemma_tag_nc_mismatch(s, 0, "bigint"@, 0);
    lemma_tag_nc_mismatch(s, 0, "integer"@, 3);
    assert(has_tag_nc(s, 0, "int"@)) by {
        assert forall|j: int| 0 <= j < 3 implies #[trigger] eq_no_case(s[0 + j], "int"@[j]) by {
            if j == 0 {} else if j == 1 {} else if j == 2 {}
        }
    }
    assert(ws_end(s, 3) == 3);
    assert(spec_opt_len(s, 3, 32) == Parsed::Done(e, n));
    assert(s[e] == ' ');
    assert(ws_end(s, e) == e + 1);
    assert(has_tag_nc(s, e + 1, "unsigned"@)) by {
        assert forall|j: int| 0 <= j < 8 implies #[trigger] eq_no_case(s[e + 1 + j], "unsigned"@[j]) by {
            if j == 0 {} else if j == 1 {} else if j == 2 {} else if j == 3 {} else if j == 4 {} else if j == 5 {} else if j == 6 {} else if j == 7 {}
        }
    }
    assert(opt_signed_end(s, e + 1) == s.len());
    assert(spec_int_tail(s, 3, 32) == Parsed::Done(s.len() as int, (n, true)));
    assert(int_keyword_end(s, 0) == 3);
    assert(spec_int_types(s, 0) == Parsed::Done(s.len() as int, t));
}

#[verifier::spinoff_prover]
#[verifier::rlimit(100)]
proof fn lemma_type_text_unsigned_int(n: u16)
    ensures
        spec_type_identifier(data_type_text(DataTypeView::UnsignedInt(n)), 0) == Parsed::Done(
            data_type_text(DataTypeView::UnsignedInt(n)).len() as int,
            DataTypeView::UnsignedInt(n),
        ),
{
    let t = DataTypeView::UnsignedInt(n);
    let s = data_type_text(t);
    lemma_type_text_unsigned_int_part(n);
    assert(spec_type_first_half(s, 0) == Parsed::Done(s.len() as int, t));
    reveal(spec_type_identifier);
}

#[verifier::spinoff_prover]
#[verifier::rlimit(40)]
proof fn lemma_type_text_bigint(n: u16)
    ensures
        spec_type_identifier(data_type_text(DataTypeView::Bigint(n)), 0) == Parsed::Done(
            data_type_text(DataTypeView::Bigint(n)).len() as int,
            DataTypeView::Bigint(n),
        ),
{
    let t = DataTypeView::Bigint(n);
    let s = data_type_text(t);
    reveal_strlit("bigint");
    reveal_strlit("binary");
    reveal_strlit("blob");
    reveal_strlit("bool");
    reveal_strlit("char");
    reveal_strlit("date");
    reveal_strlit("datetime");
    reveal_strlit("decimal");
    reveal_strlit("double");
    reveal_strlit("enum");
    reveal_strlit("float");
    reveal_strlit("int");
    reveal_strlit("integer");
    reveal_strlit("json");
    reveal_strlit("longblob");
    reveal_strlit("longtext");
    reveal_strlit("mediumblob");
    reveal_strlit("mediumtext");
    reveal_strlit("numeric");
    reveal_strlit("real");
    reveal_strlit("smallint");
    reveal_strlit("text");
    reveal_strlit("timestamp");
    reveal_strlit("tinyblob");
    reveal_strlit("tinyint");
    reveal_strlit("tinytext");
    reveal_strlit("varbinary");
    reveal_strlit("varchar");
    reveal_strlit("unsigned");
    reveal_strlit("signed");
    reveal_strlit("binary");
    reveal_strlit("");
    reveal_strlit("enum");
    reveal_with_fuel(run_end, 2);
    assert(s =~= seq!['B', 'I', 'G', 'I', 'N', 'T', '('] + nat_text(n as nat) + seq![')']) by { reveal_strlit("BIGINT"); }
    lemma_digits_in(seq!['B', 'I', 'G', 'I', 'N', 'T', '('], n as nat, seq![')']);
    let e: int = 8 + nat_text(n as nat).len() as int;
    assert(spec_len(s, 6) == Parsed::Done(e, n));
    lemma_tag_nc_mismatch(s, 0, "tinyint"@, 0);
    assert(has_tag_nc(s, 0, "bigint"@)) by {
        assert forall|j: int| 0 <= j < 6 implies #[trigger] eq_no_case(s[0 + j], "bigint"@[j]) by {
            if j == 0 {} else if j == 1 {} else if j == 2 {} else if j == 3 {} else if j == 4 {} else if j == 5 {}
        }
    }
    assert(ws_end(s, 6) == 6);
    assert(spec_opt_len(s, 6, 1) == Parsed::Done(e, n));
    assert(e == s.len());
    assert(ws_end(s, e) == e);
    assert(opt_signed_end(s, e) == e);
    assert(spec_int_tail(s, 6, 1) == Parsed::Done(s.len() as int, (n, false)));
    assert(spec_int_types(s, 0) == Parsed::Done(s.len() as int, t));
    assert(spec_type_first_half(s, 0) == Parsed::Done(s.len() as int, t));
    reveal(spec_type_identifier);
}

#[verifier::spinoff_prover]
#[verifier::rlimit(100)]
proof fn lemma_type_text_unsigned_bigint(n: u16)
    ensures
        spec_type_identifier(data_type_text(DataTypeView::UnsignedBigint(n)), 0) == Parsed::Done(
            data_type_text(DataTypeView::UnsignedBigint(n)).len() as int,
            DataTypeView::UnsignedBigint(n),
        ),
{
    let t = DataTypeView::UnsignedBigint(n);
    let s = data_type_text(t);
    reveal_strlit("bigint");
    reveal_strlit("binary");
    reveal_strlit("blob");
    reveal_strlit("bool");
    reveal_strlit("char");
    reveal_strlit("date");
    reveal_strlit("datetime");
    reveal_strlit("decimal");
    reveal_strlit("double");
    reveal_strlit("enum");
    reveal_strlit("float");
    reveal_strlit("int");
    reveal_strlit("integer");
    reveal_strlit("json");
    reveal_strlit("longblob");
    reveal_strlit("longtext");
    reveal_strlit("mediumblob");
    reveal_strlit("mediumtext");
    reveal_strlit("numeric");
    reveal_strlit("real");
    reveal_strlit("smallint");
    reveal_strlit("text");
    reveal_strlit("timestamp");
    reveal_strlit("tinyblob");
    reveal_strlit("tinyint");
    reveal_strlit("tinytext");
    reveal_strlit("varbinary");
    reveal_strlit("varchar");
    reveal_strlit("unsigned");
    reveal_strlit("signed");
    reveal_strlit("binary");
    reveal_strlit("");
    reveal_strlit("enum");
    reveal_with_fuel(run_end, 2);
    assert(s =~= seq!['B', 'I', 'G', 'I', 'N', 'T', '('] + nat_text(n as nat) + seq![')', ' ', 'U', 'N', 'S', 'I', 'G', 'N', 'E', 'D']) by { reveal_strlit("BIGINT"); reveal_strlit(" UNSIGNED"); }
    lemma_digits_in(seq!['B', 'I', 'G', 'I', 'N', 'T', '('], n as nat, seq![')', ' ', 'U', 'N', 'S', 'I', 'G', 'N', 'E', 'D']);
    let e: int = 8 + nat_text(n as nat).len() as int;
    assert(spec_len(s, 6) == Parsed::Done(e, n));
    lemma_tag_nc_mismatch(s, 0, "tinyint"@, 0);
    assert(has_tag_nc(s, 0, "bigint"@)) by {
        assert forall|j: int| 0 <= j < 6 implies #[trigger] eq_no_case(s[0 + j], "bigint"@[j]) by {
            if j == 0 {} else if j == 1 {} else if j == 2 {} else if j == 3 {} else if j == 4 {} else if j == 5 {}
        }
    }
    assert(ws_end(s, 6) == 6);
    assert(spec_opt_len(s, 6, 1) == Parsed::Done(e, n));
    assert(s[e] == ' ');
    assert(ws_end(s, e) == e + 1);
    assert(has_tag_nc(s, e + 1, "unsigned"@)) by {
        assert forall|j: int| 0 <= j < 8 implies #[trigger] eq_no_case(s[e + 1 + j], "unsigned"@[j]) by {
            if j == 0 {} else if j == 1 {} else if j == 2 {} else if j == 3 {} else if j == 4 {} else if j == 5 {} else if j == 6 {} else if j == 7 {}
        }
    }
    assert(opt_signed_end(s, e + 1) == s.len());
    assert(spec_int_tail(s, 6, 1) == Parsed::Done(s.len() as int, (n, true)));
    assert(spec_int_types(s, 0) == Parsed::Done(s.len() as int, t));
    assert(spec_type_first_half(s, 0) == Parsed::Done(s.len() as int, t));
    reveal(spec_type_identifier);
}

#[verifier::spinoff_prover]
#[verifier::rlimit(40)]
proof fn lemma_type_text_tinyint(n: u16)
    ensures
        spec_type_identifier(data_type_text(DataTypeView::Tinyint(n)), 0) == Parsed::Done(
            data_type_text(DataTypeView::Tinyint(n)).len() as int,
            DataTypeView::Tinyint(n),
        ),
{
    let t = DataTypeView::Tinyint(n);
    let s = data_type_text(t);
    reveal_strlit("bigint");
    reveal_strlit("binary");
    reveal_strlit("blob");
    reveal_strlit("bool");
    reveal_strlit("char");
    reveal_strlit("date");
    reveal_strlit("datetime");
    reveal_strlit("decimal");
    reveal_strlit("double");
    reveal_strlit("enum");
    reveal_strlit("float");
    reveal_strlit("int");
    reveal_strlit("integer");
    reveal_strlit("json");
    reveal_strlit("longblob");
    reveal_strlit("longtext");
    reveal_strlit("mediumblob");
    reveal_strlit("mediumtext");
    reveal_strlit("numeric");
    reveal_strlit("real");
    reveal_strlit("smallint");
    reveal_strlit("text");
    reveal_strlit("timestamp");
    reveal_strlit("tinyblob");
    reveal_strlit("tinyint");
    reveal_strlit("tinytext");
    reveal_strlit("varbinary");
    reveal_strlit("varchar");
    reveal_strlit("unsigned");
    reveal_strlit("signed");
    reveal_strlit("binary");
    reveal_strlit("");
    reveal_strlit("enum");
    reveal_with_fuel(run_end, 2);
    assert(s =~= seq!['T', 'I', 'N', 'Y', 'I', 'N', 'T', '('] + nat_text(n as nat) + seq![')']) by { reveal_strlit("TINYINT"); }
    lemma_digits_in(seq!['T', 'I', 'N', 'Y', 'I', 'N', 'T', '('], n as nat, seq![')']);
    let e: int = 9 + nat_text(n as nat).len() as int;
    assert(spec_len(s, 7) == Parsed::Done(e, n));
    assert(has_tag_nc(s, 0, "tinyint"@)) by {
        assert forall|j: int| 0 <= j < 7 implies #[trigger] eq_no_case(s[0 + j], "tinyint"@[j]) by {
            if j == 0 {} else if j == 1 {} else if j == 2 {} else if j == 3 {} else if j == 4 {} else if j == 5 {} else if j == 6 {}
        }
    }
    assert(ws_end(s, 7) == 7);
    assert(spec_opt_len(s, 7, 1) == Parsed::Done(e, n));
    assert(e == s.len());
    assert(ws_end(s, e) == e);
    assert(opt_signed_end(s, e) == e);
    assert(spec_int_tail(s, 7, 1) == Parsed::Done(s.len() as int, (n, false)));
    assert(spec_int_types(s, 0) == Parsed::Done(s.len() as int, t));
    assert(spec_type_first_half(s, 0) == Parsed::Done(s.len() as int, t));
    reveal(spec_type_identifier);
}

#[verifier::spinoff_prover]
#[verifier::rlimit(40)]
proof fn lemma_type_text_unsigned_tinyint(n: u16)
    ensures
        spec_type_identifier(data_type_text(DataTypeView::UnsignedTinyint(n)), 0) == Parsed::Done(
            data_type_text(DataTypeView::UnsignedTinyint(n)).len() as int,
            DataTypeView::UnsignedTinyint(n),
        ),
{
    let t = DataTypeView::UnsignedTinyint(n);
    let s = data_type_text(t);
    reveal_strlit("bigint");
    reveal_strlit("binary");
    reveal_strlit("blob");
    reveal_strlit("bool");
    reveal_strlit("char");
    reveal_strlit("date");
    reveal_strlit("datetime");
    reveal_strlit("decimal");
    reveal_strlit("double");
    reveal_strlit("enum");
    reveal_strlit("float");
    reveal_strlit("int");
    reveal_strlit("integer");
    reveal_strlit("json");
    reveal_strlit("longblob");
    reveal_strlit("longtext");
    reveal_strlit("mediumblob");
    reveal_strlit("mediumtext");
    reveal_strlit("numeric");
    reveal_strlit("real");
    reveal_strlit("smallint");
    reveal_strlit("text");
    reveal_strlit("timestamp");
    reveal_strlit("tinyblob");
    reveal_strlit("tinyint");
    reveal_strlit("tinytext");
    reveal_strlit("varbinary");
    reveal_strlit("varchar");
    reveal_strlit("unsigned");
    reveal_strlit("signed");
    reveal_strlit("binary");
    reveal_strlit("");
    reveal_strlit("enum");
    reveal_with_fuel(run_end, 2);
    assert(s =~= seq!['T', 'I', 'N', 'Y', 'I', 'N', 'T', '('] + nat_text(n as nat) + seq![')', ' ', 'U', 'N', 'S', 'I', 'G', 'N', 'E', 'D']) by { reveal_strlit("TINYINT"); reveal_strlit(" UNSIGNED"); }
    lemma_digits_in(seq!['T', 'I', 'N', 'Y', 'I', 'N', 'T', '('], n as nat, seq![')', ' ', 'U', 'N', 'S', 'I', 'G', 'N', 'E', 'D']);
    let e: int = 9 + nat_text(n as nat).len() as int;
    assert(spec_len(s, 7) == Parsed::Done(e, n));
    assert(has_tag_nc(s, 0, "tinyint"@)) by {
        assert forall|j: int| 0 <= j < 7 implies #[trigger] eq_no_case(s[0 + j], "tinyint"@[j]) by {
            if j == 0 {} else if j == 1 {} else if j == 2 {} else if j == 3 {} else if j == 4 {} else if j == 5 {} else if j == 6 {}
        }
    }
    assert(ws_end(s, 7) == 7);
    assert(spec_opt_len(s, 7, 1) == Parsed::Done(e, n));
    assert(s[e] == ' ');
    assert(ws_end(s, e) == e + 1);
    assert(has_tag_nc(s, e + 1, "unsigned"@)) by {
        assert forall|j: int| 0 <= j < 8 implies #[trigger] eq_no_case(s[e + 1 + j], "unsigned"@[j]) by {
            if j == 0 {} else if j == 1 {} else if j == 2 {} else if j == 3 {} else if j == 4 {} else if j == 5 {} else if j == 6 {} else if j == 7 {}
        }
    }
    assert(opt_signed_end(s, e + 1) == s.len());
    assert(spec_int_tail(s, 7, 1) == Parsed::Done(s.len() as int, (n, true)));
    assert(spec_int_types(s, 0) == Parsed::Done(s.len() as int, t));
    assert(spec_type_first_half(s, 0) == Parsed::Done(s.len() as int, t));
    reveal(spec_type_identifier);
}

#[verifier::spinoff_prover]
#[verifier::rlimit(40)]
proof fn lemma_type_text_blob()
    ensures
        spec_type_identifier(data_type_text(DataTypeView::Blob), 0) == Parsed::Done(
            data_type_text(DataTypeView::Blob).len() as int,
            DataTypeView::Blob,
        ),
{
    let t = DataTypeView::Blob;
    let s = data_type_text(t);
    reveal_strlit("bigint");
    reveal_strlit("binary");
    reveal_strlit("blob");
    reveal_strlit("bool");
    reveal_strlit("char");
    reveal_strlit("date");
    reveal_strlit("datetime");
    reveal_strlit("decimal");
    reveal_strlit("double");
    reveal_strlit("enum");
    reveal_strlit("float");
    reveal_strlit("int");
    reveal_strlit("integer");
    reveal_strlit("json");
    reveal_strlit("longblob");
    reveal_strlit("longtext");
    reveal_strlit("mediumblob");
    reveal_strlit("mediumtext");
    reveal_strlit("numeric");
    reveal_strlit("real");
    reveal_strlit("smallint");
    reveal_strlit("text");
    reveal_strlit("timestamp");
    reveal_strlit("tinyblob");
    reveal_strlit("tinyint");
    reveal_strlit("tinytext");
    reveal_strlit("varbinary");
    reveal_strlit("varchar");
    reveal_strlit("unsigned");
    reveal_strlit("signed");
    reveal_strlit("binary");
    reveal_strlit("");
    reveal_strlit("enum");
    reveal_with_fuel(run_end, 2);
    assert(s =~= seq!['B', 'L', 'O', 'B']) by { reveal_strlit("BLOB"); }
    lemma_tag_nc_mismatch(s, 0, "tinyint"@, 0);
    lemma_tag_nc_mismatch(s, 0, "bigint"@, 1);
    lemma_tag_nc_mismatch(s, 0, "integer"@, 0);
    lemma_tag_nc_mismatch(s, 0, "int"@, 0);
    lemma_tag_nc_mismatch(s, 0, "smallint"@, 0);
    assert(spec_int_types(s, 0) is NoMatch);
    lemma_tag_nc_mismatch(s, 0, "bool"@, 1);
    assert(plain_type(s, 0, "bool"@, DataTypeView::Bool) is NoMatch);
    lemma_tag_nc_mismatch(s, 0, "char"@, 0);
    assert(spec_kw_len(s, 0, "char"@, "binary"@) is NoMatch);
    lemma_tag_nc_mismatch(s, 0, "datetime"@, 0);
    assert(spec_datetime(s, 0) is NoMatch);
    lemma_tag_nc_mismatch(s, 0, "date"@, 0);
    assert(plain_type(s, 0, "date"@, DataTypeView::Date) is NoMatch);
    lemma_tag_nc_mismatch(s, 0, "double"@, 0);
    assert(signed_type(s, 0, "double"@, DataTypeView::Double) is NoMatch);
    lemma_tag_nc_mismatch(s, 0, "enum"@, 0);
    assert(spec_enum_type(s, 0) is NoMatch);
    lemma_tag_nc_mismatch(s, 0, "float"@, 0);
    assert(spec_float_type(s, 0) is NoMatch);
    lemma_tag_nc_mismatch(s, 0, "real"@, 0);
    assert(signed_type(s, 0, "real"@, DataTypeView::Real) is NoMatch);
    lemma_tag_nc_mismatch(s, 0, "text"@, 0);
    assert(plain_type(s, 0, "text"@, DataTypeView::Text) is NoMatch);
    lemma_tag_nc_mismatch(s, 0, "json"@, 0);
    assert(plain_type(s, 0, "json"@, DataTypeView::Json) is NoMatch);
    lemma_tag_nc_mismatch(s, 0, "timestamp"@, 0);
    assert(spec_timestamp(s, 0) is NoMatch);
    lemma_tag_nc_mismatch(s, 0, "varchar"@, 0);
    assert(spec_kw_len(s, 0, "varchar"@, "binary"@) is NoMatch);
    lemma_tag_nc_mismatch(s, 0, "decimal"@, 0);
    lemma_tag_nc_mismatch(s, 0, "numeric"@, 0);
    assert(spec_decimal(s, 0) is NoMatch);
    lemma_tag_nc_mismatch(s, 0, "binary"@, 1);
    assert(spec_kw_len(s, 0, "binary"@, ""@) is NoMatch);
    assert(has_tag_nc(s, 0, "blob"@)) by {
        assert forall|j: int| 0 <= j < 4 implies #[trigger] eq_no_case(s[0 + j], "blob"@[j]) by {
            if j == 0 {} else if j == 1 {} else if j == 2 {} else if j == 3 {}
        }
    }
    assert(plain_type(s, 0, "blob"@, DataTypeView::Blob) == Parsed::Done(s.len() as int, t));
    assert(spec_type_first_half(s, 0) is NoMatch);
    assert(spec_type_second_half(s, 0) == Parsed::Done(s.len() as int, t));
    reveal(spec_type_identifier);
}

#[verifier::spinoff_prover]
#[verifier::rlimit(40)]
proof fn lemma_type_text_longblob()
    ensures
        spec_type_identifier(data_type_text(DataTypeView::Longblob), 0) == Parsed::Done(
            data_type_text(DataTypeView::Longblob).len() as int,
            DataTypeView::Longblob,
        ),
{
    let t = DataTypeView::Longblob;
    let s = data_type_text(t);
    reveal_strlit("bigint");
    reveal_strlit("binary");
    reveal_strlit("blob");
    reveal_strlit("bool");
    reveal_strlit("char");
    reveal_strlit("date");
    reveal_strlit("datetime");
    reveal_strlit("decimal");
    reveal_strlit("double");
    reveal_strlit("enum");
    reveal_strlit("float");
    reveal_strlit("int");
    reveal_strlit("integer");
    reveal_strlit("json");
    reveal_strlit("longblob");
    reveal_strlit("longtext");
    reveal_strlit("mediumblob");
    reveal_strlit("mediumtext");
    reveal_strlit("numeric");
    reveal_strlit("real");
    reveal_strlit("smallint");
    reveal_strlit("text");
    reveal_strlit("timestamp");
    reveal_strlit("tinyblob");
    reveal_strlit("tinyint");
    reveal_strlit("tinytext");
    reveal_strlit("varbinary");
    reveal_strlit("varchar");
    reveal_strlit("unsigned");
    reveal_strlit("signed");
    reveal_strlit("binary");
    reveal_strlit("");
    reveal_strlit("enum");
    reveal_with_fuel(run_end, 2);
    assert(s =~= seq!['L', 'O', 'N', 'G', 'B', 'L', 'O', 'B']) by { reveal_strlit("LONGBLOB"); }
    lemma_tag_nc_mismatch(s, 0, "tinyint"@, 0);
    lemma_tag_nc_mismatch(s, 0, "bigint"@, 0);
    lemma_tag_nc_mismatch(s, 0, "integer"@, 0);
    lemma_tag_nc_mismatch(s, 0, "int"@, 0);
    lemma_tag_nc_mismatch(s, 0, "smallint"@, 0);
    assert(spec_int_types(s, 0) is NoMatch);
    lemma_tag_nc_mismatch(s, 0, "bool"@, 0);
    assert(plain_type(s, 0, "bool"@, DataTypeView::Bool) is NoMatch);
    lemma_tag_nc_mismatch(s, 0, "char"@, 0);
    assert(spec_kw_len(s, 0, "char"@, "binary"@) is NoMatch);
    lemma_tag_nc_mismatch(s, 0, "datetime"@, 0);
    assert(spec_datetime(s, 0) is NoMatch);
    lemma_tag_nc_mismatch(s, 0, "date"@, 0);
    assert(plain_type(s, 0, "date"@, DataTypeView::Date) is NoMatch);
    lemma_tag_nc_mismatch(s, 0, "double"@, 0);
    assert(signed_type(s, 0, "double"@, DataTypeView::Double) is NoMatch);
    lemma_tag_nc_mismatch(s, 0, "enum"@, 0);
    assert(spec_enum_type(s, 0) is NoMatch);
    lemma_tag_nc_mismatch(s, 0, "float"@, 0);
    assert(spec_float_type(s, 0) is NoMatch);
    lemma_tag_nc_mismatch(s, 0, "real"@, 0);
    assert(signed_type(s, 0, "real"@, DataTypeView::Real) is NoMatch);
    lemma_tag_nc_mismatch(s, 0, "text"@, 0);
    assert(plain_type(s, 0, "text"@, DataTypeView::Text) is NoMatch);
    lemma_tag_nc_mismatch(s, 0, "json"@, 0);
    assert(plain_type(s, 0, "json"@, DataTypeView::Json) is NoMatch);
    lemma_tag_nc_mismatch(s, 0, "timestamp"@, 0);
    assert(spec_timestamp(s, 0) is NoMatch);
    lemma_tag_nc_mismatch(s, 0, "varchar"@, 0);
    assert(spec_kw_len(s, 0, "varchar"@, "binary"@) is NoMatch);
    lemma_tag_nc_mismatch(s, 0, "decimal"@, 0);
    lemma_tag_nc_mismatch(s, 0, "numeric"@, 0);
    assert(spec_decimal(s, 0) is NoMatch);
    lemma_tag_nc_mismatch(s, 0, "binary"@, 0);
    assert(spec_kw_len(s, 0, "binary"@, ""@) is NoMatch);
    lemma_tag_nc_mismatch(s, 0, "blob"@, 0);
    assert(plain_type(s, 0, "blob"@, DataTypeView::Blob) is NoMatch);
    assert(has_tag_nc(s, 0, "longblob"@)) by {
        assert forall|j: int| 0 <= j < 8 implies #[trigger] eq_no_case(s[0 + j], "longblob"@[j]) by {
            if j == 0 {} else if j == 1 {} else if j == 2 {} else if j == 3 {} else if j == 4 {} else if j == 5 {} else if j == 6 {} else if j == 7 {}
        }
    }
    assert(plain_type(s, 0, "longblob"@, DataTypeView::Longblob) == Parsed::Done(s.len() as int, t));
    assert(spec_type_first_half(s, 0) is NoMatch);
    assert(spec_type_second_half(s, 0) == Parsed::Done(s.len() as int, t));
    reveal(spec_type_identifier);
}

#[verifier::spinoff_prover]
#[verifier::rlimit(40)]
proof fn lemma_type_text_mediumblob()
    ensures
        spec_type_identifier(data_type_text(DataTypeView::Mediumblob), 0) == Parsed::Done(
            data_type_text(DataTypeView::Mediumblob).len() as int,
            DataTypeView::Mediumblob,
        ),
{
    let t = DataTypeView::Mediumblob;
    let s = data_type_text(t);
    reveal_strlit("bigint");
    reveal_strlit("binary");
    reveal_strlit("blob");
    reveal_strlit("bool");
    reveal_strlit("char");
    reveal_strlit("date");
    reveal_strlit("datetime");
    reveal_strlit("decimal");
    reveal_strlit("double");
    reveal_strlit("enum");
    reveal_strlit("float");
    reveal_strlit("int");
    reveal_strlit("integer");
    reveal_strlit("json");
    reveal_strlit("longblob");
    reveal_strlit("longtext");
    reveal_strlit("mediumblob");
    reveal_strlit("mediumtext");
    reveal_strlit("numeric");
    reveal_strlit("real");
    reveal_strlit("smallint");
    reveal_strlit("text");
    reveal_strlit("timestamp");
    reveal_strlit("tinyblob");
    reveal_strlit("tinyint");
    reveal_strlit("tinytext");
    reveal_strlit("varbinary");
    reveal_strlit("varchar");
    reveal_strlit("unsigned");
    reveal_strlit("signed");
    reveal_strlit("binary");
    reveal_strlit("");
    reveal_strlit("enum");
    reveal_with_fuel(run_end, 2);
    assert(s =~= seq!['M', 'E', 'D', 'I', 'U', 'M', 'B', 'L', 'O', 'B']) by { reveal_strlit("MEDIUMBLOB"); }
    lemma_tag_nc_mismatch(s, 0, "tinyint"@, 0);
    lemma_tag_nc_mismatch(s, 0, "bigint"@, 0);
    lemma_tag_nc_mismatch(s, 0, "integer"@, 0);
    lemma_tag_nc_mismatch(s, 0, "int"@, 0);
    lemma_tag_nc_mismatch(s, 0, "smallint"@, 0);
    assert(spec_int_types(s, 0) is NoMatch);
    lemma_tag_nc_mismatch(s, 0, "bool"@, 0);
    assert(plain_type(s, 0, "bool"@, DataTypeView::Bool) is NoMatch);
    lemma_tag_nc_mismatch(s, 0, "char"@, 0);
    assert(spec_kw_len(s, 0, "char"@, "binary"@) is NoMatch);
    lemma_tag_nc_mismatch(s, 0, "datetime"@, 0);
    assert(spec_datetime(s, 0) is NoMatch);
    lemma_tag_nc_mismatch(s, 0, "date"@, 0);
    assert(plain_type(s, 0, "date"@, DataTypeView::Date) is NoMatch);
    lemma_tag_nc_mismatch(s, 0, "double"@, 0);
    assert(signed_type(s, 0, "double"@, DataTypeView::Double) is NoMatch);
    lemma_tag_nc_mismatch(s, 0, "enum"@, 0);
    assert(spec_enum_type(s, 0) is NoMatch);
    lemma_tag_nc_mismatch(s, 0, "float"@, 0);
    assert(spec_float_type(s, 0) is NoMatch);
    lemma_tag_nc_mismatch(s, 0, "real"@, 0);
    assert(signed_type(s, 0, "real"@, DataTypeView::Real) is NoMatch);
    lemma_tag_nc_mismatch(s, 0, "text"@, 0);
    assert(plain_type(s, 0, "text"@, DataTypeView::Text) is NoMatch);
    lemma_tag_nc_mismatch(s, 0, "json"@, 0);
    assert(plain_type(s, 0, "json"@, DataTypeView::Json) is NoMatch);
    lemma_tag_nc_mismatch(s, 0, "timestamp"@, 0);
    assert(spec_timestamp(s, 0) is NoMatch);
    lemma_tag_nc_mismatch(s, 0, "varchar"@, 0);
    assert(spec_kw_len(s, 0, "varchar"@, "binary"@) is NoMatch);
    lemma_tag_nc_mismatch(s, 0, "decimal"@, 0);
    lemma_tag_nc_mismatch(s, 0, "numeric"@, 0);
    assert(spec_decimal(s, 0) is NoMatch);
    lemma_tag_nc_mismatch(s, 0, "binary"@, 0);
    assert(spec_kw_len(s, 0, "binary"@, ""@) is NoMatch);
    lemma_tag_nc_mismatch(s, 0, "blob"@, 0);
    assert(plain_type(s, 0, "blob"@, DataTypeView::Blob) is NoMatch);
    lemma_tag_nc_mismatch(s, 0, "longblob"@, 0);
    assert(plain_type(s, 0, "longblob"@, DataTypeView::Longblob) is NoMatch);
    assert(has_tag_nc(s, 0, "mediumblob"@)) by {
        assert forall|j: int| 0 <= j < 10 implies #[trigger] eq_no_case(s[0 + j], "mediumblob"@[j]) by {
            if j == 0 {} else if j == 1 {} else if j == 2 {} else if j == 3 {} else if j == 4 {} else if j == 5 {} else if j == 6 {} else if j == 7 {} else if j == 8 {} else if j == 9 {}
        }
    }
    assert(plain_type(s, 0, "mediumblob"@, DataTypeView::Mediumblob) == Parsed::Done(s.len() as int, t));
    assert(spec_type_first_half(s, 0) is NoMatch);
    assert(spec_type_second_half(s, 0) == Parsed::Done(s.len() as int, t));
    reveal(spec_type_identifier);
}

#[verifier::spinoff_prover]
#[verifier::rlimit(40)]
proof fn lemma_type_text_tinyblob()
    ensures
        spec_type_identifier(data_type_text(DataTypeView::Tinyblob), 0) == Parsed::Done(
            data_type_text(DataTypeView::Tinyblob).len() as int,
            DataTypeView::Tinyblob,
        ),
{
    let t = DataTypeView::Tinyblob;
    let s = data_type_text(t);
    reveal_strlit("bigint");
    reveal_strlit("binary");
    reveal_strlit("blob");
    reveal_strlit("bool");
    reveal_strlit("char");
    reveal_strlit("date");
    reveal_strlit("datetime");
    reveal_strlit("decimal");
    reveal_strlit("double");
    reveal_strlit("enum");
    reveal_strlit("float");
    reveal_strlit("int");
    reveal_strlit("integer");
    reveal_strlit("json");
    reveal_strlit("longblob");
    reveal_strlit("longtext");
    reveal_strlit("mediumblob");
    reveal_strlit("mediumtext");
    reveal_strlit("numeric");
    reveal_strlit("real");
    reveal_strlit("smallint");
    reveal_strlit("text");
    reveal_strlit("timestamp");
    reveal_strlit("tinyblob");
    reveal_strlit("tinyint");
    reveal_strlit("tinytext");
    reveal_strlit("varbinary");
    reveal_strlit("varchar");
    reveal_strlit("unsigned");
    reveal_strlit("signed");
    reveal_strlit("binary");
    reveal_strlit("");
    reveal_strlit("enum");
    reveal_with_fuel(run_end, 2);
    assert(s =~= seq!['T', 'I', 'N', 'Y', 'B', 'L', 'O', 'B']) by { reveal_strlit("TINYBLOB"); }
    lemma_tag_nc_mismatch(s, 0, "tinyint"@, 4);
    lemma_tag_nc_mismatch(s, 0, "bigint"@, 0);
    lemma_tag_nc_mismatch(s, 0, "integer"@, 0);
    lemma_tag_nc_mismatch(s, 0, "int"@, 0);
    lemma_tag_nc_mismatch(s, 0, "smallint"@, 0);
    assert(spec_int_types(s, 0) is NoMatch);
    lemma_tag_nc_mismatch(s, 0, "bool"@, 0);
    assert(plain_type(s, 0, "bool"@, DataTypeView::Bool) is NoMatch);
    lemma_tag_nc_mismatch(s, 0, "char"@, 0);
    assert(spec_kw_len(s, 0, "char"@, "binary"@) is NoMatch);
    lemma_tag_nc_mismatch(s, 0, "datetime"@, 0);
    assert(spec_datetime(s, 0) is NoMatch);
    lemma_tag_nc_mismatch(s, 0, "date"@, 0);
    assert(plain_type(s, 0, "date"@, DataTypeView::Date) is NoMatch);
    lemma_tag_nc_mismatch(s, 0, "double"@, 0);
    assert(signed_type(s, 0, "double"@, DataTypeView::Double) is NoMatch);
    lemma_tag_nc_mismatch(s, 0, "enum"@, 0);
    assert(spec_enum_type(s, 0) is NoMatch);
    lemma_tag_nc_mismatch(s, 0, "float"@, 0);
    assert(spec_float_type(s, 0) is NoMatch);
    lemma_tag_nc_mismatch(s, 0, "real"@, 0);
    assert(signed_type(s, 0, "real"@, DataTypeView::Real) is NoMatch);
    lemma_tag_nc_mismatch(s, 0, "text"@, 1);
    assert(plain_type(s, 0, "text"@, DataTypeView::Text) is NoMatch);
    lemma_tag_nc_mismatch(s, 0, "json"@, 0);
    assert(plain_type(s, 0, "json"@, DataTypeView::Json) is NoMatch);
    lemma_tag_nc_mismatch(s, 0, "timestamp"@, 2);
    assert(spec_timestamp(s, 0) is NoMatch);
    lemma_tag_nc_mismatch(s, 0, "varchar"@, 0);
    assert(spec_kw_len(s, 0, "varchar"@, "binary"@) is NoMatch);
    lemma_tag_nc_mismatch(s, 0, "decimal"@, 0);
    lemma_tag_nc_mismatch(s, 0, "numeric"@, 0);
    assert(spec_decimal(s, 0) is NoMatch);
    lemma_tag_nc_mismatch(s, 0, "binary"@, 0);
    assert(spec_kw_len(s, 0, "binary"@, ""@) is NoMatch);
    lemma_tag_nc_mismatch(s, 0, "blob"@, 0);
    assert(plain_type(s, 0, "blob"@, DataTypeView::Blob) is NoMatch);
    lemma_tag_nc_mismatch(s, 0, "longblob"@, 0);
    assert(plain_type(s, 0, "longblob"@, DataTypeView::Longblob) is NoMatch);
    lemma_tag_nc_mismatch(s, 0, "mediumblob"@, 0);
    assert(plain_type(s, 0, "mediumblob"@, DataTypeView::Mediumblob) is NoMatch);
    lemma_tag_nc_mismatch(s, 0, "mediumtext"@, 0);
    assert(plain_type(s, 0, "mediumtext"@, DataTypeView::Mediumtext) is NoMatch);
    lemma_tag_nc_mismatch(s, 0, "longtext"@, 0);
    assert(plain_type(s, 0, "longtext"@, DataTypeView::Longtext) is NoMatch);
    assert(has_tag_nc(s, 0, "tinyblob"@)) by {
        assert forall|j: int| 0 <= j < 8 implies #[trigger] eq_no_case(s[0 + j], "tinyblob"@[j]) by {
            if j == 0 {} else if j == 1 {} else if j == 2 {} else if j == 3 {} else if j == 4 {} else if j == 5 {} else if j == 6 {} else if j == 7 {}
        }
    }
    assert(plain_type(s, 0, "tinyblob"@, DataTypeView::Tinyblob) == Parsed::Done(s.len() as int, t));
    assert(spec_type_first_half(s, 0) is NoMatch);
    assert(spec_type_second_half(s, 0) == Parsed::Done(s.len() as int, t));
    reveal(spec_type_identifier);
}

#[verifier::spinoff_prover]
#[verifier::rlimit(40)]
proof fn lemma_type_text_double()
    ensures
        spec_type_identifier(data_type_text(DataTypeView::Double), 0) == Parsed::Done(
            data_type_text(DataTypeView::Double).len() as int,
            DataTypeView::Double,
        ),
{
    let t = DataTypeView::Double;
    let s = data_type_text(t);
    reveal_strlit("bigint");
    reveal_strlit("binary");
    reveal_strlit("blob");
    reveal_strlit("bool");
    reveal_strlit("char");
    reveal_strlit("date");
    reveal_strlit("datetime");
    reveal_strlit("decimal");
    reveal_strlit("double");
    reveal_strlit("enum");
    reveal_strlit("float");
    reveal_strlit("int");
    reveal_strlit("integer");
    reveal_strlit("json");
    reveal_strlit("longblob");
    reveal_strlit("longtext");
    reveal_strlit("mediumblob");
    reveal_strlit("mediumtext");
    reveal_strlit("numeric");
    reveal_strlit("real");
    reveal_strlit("smallint");
    reveal_strlit("text");
    reveal_strlit("timestamp");
    reveal_strlit("tinyblob");
    reveal_strlit("tinyint");
    reveal_strlit("tinytext");
    reveal_strlit("varbinary");
    reveal_strlit("varchar");
    reveal_strlit("unsigned");
    reveal_strlit("signed");
    reveal_strlit("binary");
    reveal_strlit("");
    reveal_strlit("enum");
    reveal_with_fuel(run_end, 2);
    assert(s =~= seq!['D', 'O', 'U', 'B', 'L', 'E']) by { reveal_strlit("DOUBLE"); }
    lemma_tag_nc_mismatch(s, 0, "tinyint"@, 0);
    lemma_tag_nc_mismatch(s, 0, "bigint"@, 0);
    lemma_tag_nc_mismatch(s, 0, "integer"@, 0);
    lemma_tag_nc_mismatch(s, 0, "int"@, 0);
    lemma_tag_nc_mismatch(s, 0, "smallint"@, 0);
    assert(spec_int_types(s, 0) is NoMatch);
    lemma_tag_nc_mismatch(s, 0, "bool"@, 0);
    assert(plain_type(s, 0, "bool"@, DataTypeView::Bool) is NoMatch);
    lemma_tag_nc_mismatch(s, 0, "char"@, 0);
    assert(spec_kw_len(s, 0, "char"@, "binary"@) is NoMatch);
    lemma_tag_nc_mismatch(s, 0, "datetime"@, 1);
    assert(spec_datetime(s, 0) is NoMatch);
    lemma_tag_nc_mismatch(s, 0, "date"@, 1);
    assert(plain_type(s, 0, "date"@, DataTypeView::Date) is NoMatch);
    assert(has_tag_nc(s, 0, "double"@)) by {
        assert forall|j: int| 0 <= j < 6 implies #[trigger] eq_no_case(s[0 + j], "double"@[j]) by {
            if j == 0 {} else if j == 1 {} else if j == 2 {} else if j == 3 {} else if j == 4 {} else if j == 5 {}
        }
    }
    assert(signed_type(s, 0, "double"@, DataTypeView::Double) == Parsed::Done(s.len() as int, t));
    assert(spec_type_first_half(s, 0) == Parsed::Done(s.len() as int, t));
    reveal(spec_type_identifier);
}

#[verifier::spinoff_prover]
#[verifier::rlimit(40)]
proof fn lemma_type_text_float()
    ensures
        spec_type_identifier(data_type_text(DataTypeView::Float), 0) == Parsed::Done(
            data_type_text(DataTypeView::Float).len() as int,
            DataTypeView::Float,
        ),
{
    let t = DataTypeView::Float;
    let s = data_type_text(t);
    reveal_strlit("bigint");
    reveal_strlit("binary");
    reveal_strlit("blob");
    reveal_strlit("bool");
    reveal_strlit("char");
    reveal_strlit("date");
    reveal_strlit("datetime");
    reveal_strlit("decimal");
    reveal_strlit("double");
    reveal_strlit("enum");
    reveal_strlit("float");
    reveal_strlit("int");
    reveal_strlit("integer");
    reveal_strlit("json");
    reveal_strlit("longblob");
    reveal_strlit("longtext");
    reveal_strlit("mediumblob");
    reveal_strlit("mediumtext");
    reveal_strlit("numeric");
    reveal_strlit("real");
    reveal_strlit("smallint");
    reveal_strlit("text");
    reveal_strlit("timestamp");
    reveal_strlit("tinyblob");
    reveal_strlit("tinyint");
    reveal_strlit("tinytext");
    reveal_strlit("varbinary");
    reveal_strlit("varchar");
    reveal_strlit("unsigned");
    reveal_strlit("signed");
    reveal_strlit("binary");
    reveal_strlit("");
    reveal_strlit("enum");
    reveal_with_fuel(run_end, 2);
    assert(s =~= seq!['F', 'L', 'O', 'A', 'T']) by { reveal_strlit("FLOAT"); }
    lemma_tag_nc_mismatch(s, 0, "tinyint"@, 0);
    lemma_tag_nc_mismatch(s, 0, "bigint"@, 0);
    lemma_tag_nc_mismatch(s, 0, "integer"@, 0);
    lemma_tag_nc_mismatch(s, 0, "int"@, 0);
    lemma_tag_nc_mismatch(s, 0, "smallint"@, 0);
    assert(spec_int_types(s, 0) is NoMatch);
    lemma_tag_nc_mismatch(s, 0, "bool"@, 0);
    assert(plain_type(s, 0, "bool"@, DataTypeView::Bool) is NoMatch);
    lemma_tag_nc_mismatch(s, 0, "char"@, 0);
    assert(spec_kw_len(s, 0, "char"@, "binary"@) is NoMatch);
    lemma_tag_nc_mismatch(s, 0, "datetime"@, 0);
    assert(spec_datetime(s, 0) is NoMatch);
    lemma_tag_nc_mismatch(s, 0, "date"@, 0);
    assert(plain_type(s, 0, "date"@, DataTypeView::Date) is NoMatch);
    lemma_tag_nc_mismatch(s, 0, "double"@, 0);
    assert(signed_type(s, 0, "double"@, DataTypeView::Double) is NoMatch);
    lemma_tag_nc_mismatch(s, 0, "enum"@, 0);
    assert(spec_enum_type(s, 0) is NoMatch);
    assert(has_tag_nc(s, 0, "float"@)) by {
        assert forall|j: int| 0 <= j < 5 implies #[trigger] eq_no_case(s[0 + j], "float"@[j]) by {
            if j == 0 {} else if j == 1 {} else if j == 2 {} else if j == 3 {} else if j == 4 {}
        }
    }
    assert(spec_float_type(s, 0) == Parsed::Done(s.len() as int, t));
    assert(spec_type_first_half(s, 0) == Parsed::Done(s.len() as int, t));
    reveal(spec_type_identifier);
}

#[verifier::spinoff_prover]
#[verifier::rlimit(40)]
proof fn lemma_type_text_real()
    ensures
        spec_type_identifier(data_type_text(DataTypeView::Real), 0) == Parsed::Done(
            data_type_text(DataTypeView::Real).len() as int,
            DataTypeView::Real,
        ),
{
    let t = DataTypeView::Real;
    let s = data_type_text(t);
    reveal_strlit("bigint");
    reveal_strlit("binary");
    reveal_strlit("blob");
    reveal_strlit("bool");
    reveal_strlit("char");
    reveal_strlit("date");
    reveal_strlit("datetime");
    reveal_strlit("decimal");
    reveal_strlit("double");
    reveal_strlit("enum");
    reveal_strlit("float");
    reveal_strlit("int");
    reveal_strlit("integer");
    reveal_strlit("json");
    reveal_strlit("longblob");
    reveal_strlit("longtext");
    reveal_strlit("mediumblob");
    reveal_strlit("mediumtext");
    reveal_strlit("numeric");
    reveal_strlit("real");
    reveal_strlit("smallint");
    reveal_strlit("text");
    reveal_strlit("timestamp");
    reveal_strlit("tinyblob");
    reveal_strlit("tinyint");
    reveal_strlit("tinytext");
    reveal_strlit("varbinary");
    reveal_strlit("varchar");
    reveal_strlit("unsigned");
    reveal_strlit("signed");
    reveal_strlit("binary");
    reveal_strlit("");
    reveal_strlit("enum");
    reveal_with_fuel(run_end, 2);
    assert(s =~= seq!['R', 'E', 'A', 'L']) by { reveal_strlit("REAL"); }
    lemma_tag_nc_mismatch(s, 0, "tinyint"@, 0);
    lemma_tag_nc_mismatch(s, 0, "bigint"@, 0);
    lemma_tag_nc_mismatch(s, 0, "integer"@, 0);
    lemma_tag_nc_mismatch(s, 0, "int"@, 0);
    lemma_tag_nc_mismatch(s, 0, "smallint"@, 0);
    assert(spec_int_types(s, 0) is NoMatch);
    lemma_tag_nc_mismatch(s, 0, "bool"@, 0);
    assert(plain_type(s, 0, "bool"@, DataTypeView::Bool) is NoMatch);
    lemma_tag_nc_mismatch(s, 0, "char"@, 0);
    assert(spec_kw_len(s, 0, "char"@, "binary"@) is NoMatch);
    lemma_tag_nc_mismatch(s, 0, "datetime"@, 0);
    assert(spec_datetime(s, 0) is NoMatch);
    lemma_tag_nc_mismatch(s, 0, "date"@, 0);
    assert(plain_type(s, 0, "date"@, DataTypeView::Date) is NoMatch);
    lemma_tag_nc_mismatch(s, 0, "double"@, 0);
    assert(signed_type(s, 0, "double"@, DataTypeView::Double) is NoMatch);
    lemma_tag_nc_mismatch(s, 0, "enum"@, 0);
    assert(spec_enum_type(s, 0) is NoMatch);
    lemma_tag_nc_mismatch(s, 0, "float"@, 0);
    assert(spec_float_type(s, 0) is NoMatch);
    assert(has_tag_nc(s, 0, "real"@)) by {
        assert forall|j: int| 0 <= j < 4 implies #[trigger] eq_no_case(s[0 + j], "real"@[j]) by {
            if j == 0 {} else if j == 1 {} else if j == 2 {} else if j == 3 {}
        }
    }
    assert(signed_type(s, 0, "real"@, DataTypeView::Real) == Parsed::Done(s.len() as int, t));
    assert(spec_type_first_half(s, 0) == Parsed::Done(s.len() as int, t));
    reveal(spec_type_identifier);
}

#[verifier::spinoff_prover]
#[verifier::rlimit(40)]
proof fn lemma_type_text_tinytext()
    ensures
        spec_type_identifier(data_type_text(DataTypeView::Tinytext), 0) == Parsed::Done(
            data_type_text(DataTypeView::Tinytext).len() as int,
            DataTypeView::Tinytext,
        ),
{
    let t = DataTypeView::Tinytext;
    let s = data_type_text(t);
    reveal_strlit("bigint");
    reveal_strlit("binary");
    reveal_strlit("blob");
    reveal_strlit("bool");
    reveal_strlit("char");
    reveal_strlit("date");
    reveal_strlit("datetime");
    reveal_strlit("decimal");
    reveal_strlit("double");
    reveal_strlit("enum");
    reveal_strlit("float");
    reveal_strlit("int");
    reveal_strlit("integer");
    reveal_strlit("json");
    reveal_strlit("longblob");
    reveal_strlit("longtext");
    reveal_strlit("mediumblob");
    reveal_strlit("mediumtext");
    reveal_strlit("numeric");
    reveal_strlit("real");
    reveal_strlit("smallint");
    reveal_strlit("text");
    reveal_strlit("timestamp");
    reveal_strlit("tinyblob");
    reveal_strlit("tinyint");
    reveal_strlit("tinytext");
    reveal_strlit("varbinary");
    reveal_strlit("varchar");
    reveal_strlit("unsigned");
    reveal_strlit("signed");
    reveal_strlit("binary");
    reveal_strlit("");
    reveal_strlit("enum");
    reveal_with_fuel(run_end, 2);
    assert(s =~= seq!['T', 'I', 'N', 'Y', 'T', 'E', 'X', 'T']) by { reveal_strlit("TINYTEXT"); }
    lemma_tag_nc_mismatch(s, 0, "tinyint"@, 4);
    lemma_tag_nc_mismatch(s, 0, "bigint"@, 0);
    lemma_tag_nc_mismatch(s, 0, "integer"@, 0);
    lemma_tag_nc_mismatch(s, 0, "int"@, 0);
    lemma_tag_nc_mismatch(s, 0, "smallint"@, 0);
    assert(spec_int_types(s, 0) is NoMatch);
    lemma_tag_nc_mismatch(s, 0, "bool"@, 0);
    assert(plain_type(s, 0, "bool"@, DataTypeView::Bool) is NoMatch);
    lemma_tag_nc_mismatch(s, 0, "char"@, 0);
    assert(spec_kw_len(s, 0, "char"@, "binary"@) is NoMatch);
    lemma_tag_nc_mismatch(s, 0, "datetime"@, 0);
    assert(spec_datetime(s, 0) is NoMatch);
    lemma_tag_nc_mismatch(s, 0, "date"@, 0);
    assert(plain_type(s, 0, "date"@, DataTypeView::Date) is NoMatch);
    lemma_tag_nc_mismatch(s, 0, "double"@, 0);
    assert(signed_type(s, 0, "double"@, DataTypeView::Double) is NoMatch);
    lemma_tag_nc_mismatch(s, 0, "enum"@, 0);
    assert(spec_enum_type(s, 0) is NoMatch);
    lemma_tag_nc_mismatch(s, 0, "float"@, 0);
    assert(spec_float_type(s, 0) is NoMatch);
    lemma_tag_nc_mismatch(s, 0, "real"@, 0);
    assert(signed_type(s, 0, "real"@, DataTypeView::Real) is NoMatch);
    lemma_tag_nc_mismatch(s, 0, "text"@, 1);
    assert(plain_type(s, 0, "text"@, DataTypeView::Text) is NoMatch);
    lemma_tag_nc_mismatch(s, 0, "json"@, 0);
    assert(plain_type(s, 0, "json"@, DataTypeView::Json) is NoMatch);
    lemma_tag_nc_mismatch(s, 0, "timestamp"@, 2);
    assert(spec_timestamp(s, 0) is NoMatch);
    lemma_tag_nc_mismatch(s, 0, "varchar"@, 0);
    assert(spec_kw_len(s, 0, "varchar"@, "binary"@) is NoMatch);
    lemma_tag_nc_mismatch(s, 0, "decimal"@, 0);
    lemma_tag_nc_mismatch(s, 0, "numeric"@, 0);
    assert(spec_decimal(s, 0) is NoMatch);
    lemma_tag_nc_mismatch(s, 0, "binary"@, 0);
    assert(spec_kw_len(s, 0, "binary"@, ""@) is NoMatch);
    lemma_tag_nc_mismatch(s, 0, "blob"@, 0);
    assert(plain_type(s, 0, "blob"@, DataTypeView::Blob) is NoMatch);
    lemma_tag_nc_mismatch(s, 0, "longblob"@, 0);
    assert(plain_type(s, 0, "longblob"@, DataTypeView::Longblob) is NoMatch);
    lemma_tag_nc_mismatch(s, 0, "mediumblob"@, 0);
    assert(plain_type(s, 0, "mediumblob"@, DataTypeView::Mediumblob) is NoMatch);
    lemma_tag_nc_mismatch(s, 0, "mediumtext"@, 0);
    assert(plain_type(s, 0, "mediumtext"@, DataTypeView::Mediumtext) is NoMatch);
    lemma_tag_nc_mismatch(s, 0, "longtext"@, 0);
    assert(plain_type(s, 0, "longtext"@, DataTypeView::Longtext) is NoMatch);
    lemma_tag_nc_mismatch(s, 0, "tinyblob"@, 4);
    assert(plain_type(s, 0, "tinyblob"@, DataTypeView::Tinyblob) is NoMatch);
    assert(has_tag_nc(s, 0, "tinytext"@)) by {
        assert forall|j: int| 0 <= j < 8 implies #[trigger] eq_no_case(s[0 + j], "tinytext"@[j]) by {
            if j == 0 {} else if j == 1 {} else if j == 2 {} else if j == 3 {} else if j == 4 {} else if j == 5 {} else if j == 6 {} else if j == 7 {}
        }
    }
    assert(plain_type(s, 0, "tinytext"@, DataTypeView::Tinytext) == Parsed::Done(s.len() as int, t));
    assert(spec_type_first_half(s, 0) is NoMatch);
    assert(spec_type_second_half(s, 0) == Parsed::Done(s.len() as int, t));
    reveal(spec_type_identifier);
}

#[verifier::spinoff_prover]
#[verifier::rlimit(40)]
proof fn lemma_type_text_mediumtext()
    ensures
        spec_type_identifier(data_type_text(DataTypeView::Mediumtext), 0) == Parsed::Done(
            data_type_text(DataTypeView::Mediumtext).len() as int,
            DataTypeView::Mediumtext,
        ),
{
    let t = DataTypeView::Mediumtext;
    let s = data_type_text(t);
    reveal_strlit("bigint");
    reveal_strlit("binary");
    reveal_strlit("blob");
    reveal_strlit("bool");
    reveal_strlit("char");
    reveal_strlit("date");
    reveal_strlit("datetime");
    reveal_strlit("decimal");
    reveal_strlit("double");
    reveal_strlit("enum");
    reveal_strlit("float");
    reveal_strlit("int");
    reveal_strlit("integer");
    reveal_strlit("json");
    reveal_strlit("longblob");
    reveal_strlit("longtext");
    reveal_strlit("mediumblob");
    reveal_strlit("mediumtext");
    reveal_strlit("numeric");
    reveal_strlit("real");
    reveal_strlit("smallint");
    reveal_strlit("text");
    reveal_strlit("timestamp");
    reveal_strlit("tinyblob");
    reveal_strlit("tinyint");
    reveal_strlit("tinytext");
    reveal_strlit("varbinary");
    reveal_strlit("varchar");
    reveal_strlit("unsigned");
    reveal_strlit("signed");
    reveal_strlit("binary");
    reveal_strlit("");
    reveal_strlit("enum");
    reveal_with_fuel(run_end, 2);
    assert(s =~= seq!['M', 'E', 'D', 'I', 'U', 'M', 'T', 'E', 'X', 'T']) by { reveal_strlit("MEDIUMTEXT"); }
    lemma_tag_nc_mismatch(s, 0, "tinyint"@, 0);
    lemma_tag_nc_mismatch(s, 0, "bigint"@, 0);
    lemma_tag_nc_mismatch(s, 0, "integer"@, 0);
    lemma_tag_nc_mismatch(s, 0, "int"@, 0);
    lemma_tag_nc_mismatch(s, 0, "smallint"@, 0);
    assert(spec_int_types(s, 0) is NoMatch);
    lemma_tag_nc_mismatch(s, 0, "bool"@, 0);
    assert(plain_type(s, 0, "bool"@, DataTypeView::Bool) is NoMatch);
    lemma_tag_nc_mismatch(s, 0, "char"@, 0);
    assert(spec_kw_len(s, 0, "char"@, "binary"@) is NoMatch);
    lemma_tag_nc_mismatch(s, 0, "datetime"@, 0);
    assert(spec_datetime(s, 0) is NoMatch);
    lemma_tag_nc_mismatch(s, 0, "date"@, 0);
    assert(plain_type(s, 0, "date"@, DataTypeView::Date) is NoMatch);
    lemma_tag_nc_mismatch(s, 0, "double"@, 0);
    assert(signed_type(s, 0, "double"@, DataTypeView::Double) is NoMatch);
    lemma_tag_nc_mismatch(s, 0, "enum"@, 0);
    assert(spec_enum_type(s, 0) is NoMatch);
    lemma_tag_nc_mismatch(s, 0, "float"@, 0);
    assert(spec_float_type(s, 0) is NoMatch);
    lemma_tag_nc_mismatch(s, 0, "real"@, 0);
    assert(signed_type(s, 0, "real"@, DataTypeView::Real) is NoMatch);
    lemma_tag_nc_mismatch(s, 0, "text"@, 0);
    assert(plain_type(s, 0, "text"@, DataTypeView::Text) is NoMatch);
    lemma_tag_nc_mismatch(s, 0, "json"@, 0);
    assert(plain_type(s, 0, "json"@, DataTypeView::Json) is NoMatch);
    lemma_tag_nc_mismatch(s, 0, "timestamp"@, 0);
    assert(spec_timestamp(s, 0) is NoMatch);
    lemma_tag_nc_mismatch(s, 0, "varchar"@, 0);
    assert(spec_kw_len(s, 0, "varchar"@, "binary"@) is NoMatch);
    lemma_tag_nc_mismatch(s, 0, "decimal"@, 0);
    lemma_tag_nc_mismatch(s, 0, "numeric"@, 0);
    assert(spec_decimal(s, 0) is NoMatch);
    lemma_tag_nc_mismatch(s, 0, "binary"@, 0);
    assert(spec_kw_len(s, 0, "binary"@, ""@) is NoMatch);
    lemma_tag_nc_mismatch(s, 0, "blob"@, 0);
    assert(plain_type(s, 0, "blob"@, DataTypeView::Blob) is NoMatch);
    lemma_tag_nc_mismatch(s, 0, "longblob"@, 0);
    assert(plain_type(s, 0, "longblob"@, DataTypeView::Longblob) is NoMatch);
    lemma_tag_nc_mismatch(s, 0, "mediumblob"@, 6);
    assert(plain_type(s, 0, "mediumblob"@, DataTypeView::Mediumblob) is NoMatch);
    assert(has_tag_nc(s, 0, "mediumtext"@)) by {
        assert forall|j: int| 0 <= j < 10 implies #[trigger] eq_no_case(s[0 + j], "mediumtext"@[j]) by {
            if j == 0 {} else if j == 1 {} else if j == 2 {} else if j == 3 {} else if j == 4 {} else if j == 5 {} else if j == 6 {} else if j == 7 {} else if j == 8 {} else if j == 9 {}
        }
    }
    assert(plain_type(s, 0, "mediumtext"@, DataTypeView::Mediumtext) == Parsed::Done(s.len() as int, t));
    assert(spec_type_first_half(s, 0) is NoMatch);
    assert(spec_type_second_half(s, 0) == Parsed::Done(s.len() as int, t));
    reveal(spec_type_identifier);
}

#[verifier::spinoff_prover]
#[verifier::rlimit(40)]
proof fn lemma_type_text_longtext()
    ensures
        spec_type_identifier(data_type_text(DataTypeView::Longtext), 0) == Parsed::Done(
            data_type_text(DataTypeView::Longtext).len() as int,
            DataTypeView::Longtext,
        ),
{
    let t = DataTypeView::Longtext;
    let s = data_type_text(t);
    reveal_strlit("bigint");
    reveal_strlit("binary");
    reveal_strlit("blob");
    reveal_strlit("bool");
    reveal_strlit("char");
    reveal_strlit("date");
    reveal_strlit("datetime");
    reveal_strlit("decimal");
    reveal_strlit("double");
    reveal_strlit("enum");
    reveal_strlit("float");
    reveal_strlit("int");
    reveal_strlit("integer");
    reveal_strlit("json");
    reveal_strlit("longblob");
    reveal_strlit("longtext");
    reveal_strlit("mediumblob");
    reveal_strlit("mediumtext");
    reveal_strlit("numeric");
    reveal_strlit("real");
    reveal_strlit("smallint");
    reveal_strlit("text");
    reveal_strlit("timestamp");
    reveal_strlit("tinyblob");
    reveal_strlit("tinyint");
    reveal_strlit("tinytext");
    reveal_strlit("varbinary");
    reveal_strlit("varchar");
    reveal_strlit("unsigned");
    reveal_strlit("signed");
    reveal_strlit("binary");
    reveal_strlit("");
    reveal_strlit("enum");
    reveal_with_fuel(run_end, 2);
    assert(s =~= seq!['L', 'O', 'N', 'G', 'T', 'E', 'X', 'T']) by { reveal_strlit("LONGTEXT"); }
    lemma_tag_nc_mismatch(s, 0, "tinyint"@, 0);
    lemma_tag_nc_mismatch(s, 0, "bigint"@, 0);
    lemma_tag_nc_mismatch(s, 0, "integer"@, 0);
    lemma_tag_nc_mismatch(s, 0, "int"@, 0);
    lemma_tag_nc_mismatch(s, 0, "smallint"@, 0);
    assert(spec_int_types(s, 0) is NoMatch);
    lemma_tag_nc_mismatch(s, 0, "bool"@, 0);
    assert(plain_type(s, 0, "bool"@, DataTypeView::Bool) is NoMatch);
    lemma_tag_nc_mismatch(s, 0, "char"@, 0);
    assert(spec_kw_len(s, 0, "char"@, "binary"@) is NoMatch);
    lemma_tag_nc_mismatch(s, 0, "datetime"@, 0);
    assert(spec_datetime(s, 0) is NoMatch);
    lemma_tag_nc_mismatch(s, 0, "date"@, 0);
    assert(plain_type(s, 0, "date"@, DataTypeView::Date) is NoMatch);
    lemma_tag_nc_mismatch(s, 0, "double"@, 0);
    assert(signed_type(s, 0, "double"@, DataTypeView::Double) is NoMatch);
    lemma_tag_nc_mismatch(s, 0, "enum"@, 0);
    assert(spec_enum_type(s, 0) is NoMatch);
    lemma_tag_nc_mismatch(s, 0, "float"@, 0);
    assert(spec_float_type(s, 0) is NoMatch);
    lemma_tag_nc_mismatch(s, 0, "real"@, 0);
    assert(signed_type(s, 0, "real"@, DataTypeView::Real) is NoMatch);
    lemma_tag_nc_mismatch(s, 0, "text"@, 0);
    assert(plain_type(s, 0, "text"@, DataTypeView::Text) is NoMatch);
    lemma_tag_nc_mismatch(s, 0, "json"@, 0);
    assert(plain_type(s, 0, "json"@, DataTypeView::Json) is NoMatch);
    lemma_tag_nc_mismatch(s, 0, "timestamp"@, 0);
    assert(spec_timestamp(s, 0) is NoMatch);
    lemma_tag_nc_mismatch(s, 0, "varchar"@, 0);
    assert(spec_kw_len(s, 0, "varchar"@, "binary"@) is NoMatch);
    lemma_tag_nc_mismatch(s, 0, "decimal"@, 0);
    lemma_tag_nc_mismatch(s, 0, "numeric"@, 0);
    assert(spec_decimal(s, 0) is NoMatch);
    lemma_tag_nc_mismatch(s, 0, "binary"@, 0);
    assert(spec_kw_len(s, 0, "binary"@, ""@) is NoMatch);
    lemma_tag_nc_mismatch(s, 0, "blob"@, 0);
    assert(plain_type(s, 0, "blob"@, DataTypeView::Blob) is NoMatch);
    lemma_tag_nc_mismatch(s, 0, "longblob"@, 4);
    assert(plain_type(s, 0, "longblob"@, DataTypeView::Longblob) is NoMatch);
    lemma_tag_nc_mismatch(s, 0, "mediumblob"@, 0);
    assert(plain_type(s, 0, "mediumblob"@, DataTypeView::Mediumblob) is NoMatch);
    lemma_tag_nc_mismatch(s, 0, "mediumtext"@, 0);
    assert(plain_type(s, 0, "mediumtext"@, DataTypeView::Mediumtext) is NoMatch);
    assert(has_tag_nc(s, 0, "longtext"@)) by {
        assert forall|j: int| 0 <= j < 8 implies #[trigger] eq_no_case(s[0 + j], "longtext"@[j]) by {
            if j == 0 {} else if j == 1 {} else if j == 2 {} else if j == 3 {} else if j == 4 {} else if j == 5 {} else if j == 6 {} else if j == 7 {}
        }
    }
    assert(plain_type(s, 0, "longtext"@, DataTypeView::Longtext) == Parsed::Done(s.len() as int, t));
    assert(spec_type_first_half(s, 0) is NoMatch);
    assert(spec_type_second_half(s, 0) == Parsed::Done(s.len() as int, t));
    reveal(spec_type_identifier);
}

#[verifier::spinoff_prover]
#[verifier::rlimit(40)]
proof fn lemma_type_text_text()
    ensures
        spec_type_identifier(data_type_text(DataTypeView::Text), 0) == Parsed::Done(
            data_type_text(DataTypeView::Text).len() as int,
            DataTypeView::Text,
        ),
{
    let t = DataTypeView::Text;
    let s = data_type_text(t);
    reveal_strlit("bigint");
    reveal_strlit("binary");
    reveal_strlit("blob");
    reveal_strlit("bool");
    reveal_strlit("char");
    reveal_strlit("date");
    reveal_strlit("datetime");
    reveal_strlit("decimal");
    reveal_strlit("double");
    reveal_strlit("enum");
    reveal_strlit("float");
    reveal_strlit("int");
    reveal_strlit("integer");
    reveal_strlit("json");
    reveal_strlit("longblob");
    reveal_strlit("longtext");
    reveal_strlit("mediumblob");
    reveal_strlit("mediumtext");
    reveal_strlit("numeric");
    reveal_strlit("real");
    reveal_strlit("smallint");
    reveal_strlit("text");
    reveal_strlit("timestamp");
    reveal_strlit("tinyblob");
    reveal_strlit("tinyint");
    reveal_strlit("tinytext");
    reveal_strlit("varbinary");
    reveal_strlit("varchar");
    reveal_strlit("unsigned");
    reveal_strlit("signed");
    reveal_strlit("binary");
    reveal_strlit("");
    reveal_strlit("enum");
    reveal_with_fuel(run_end, 2);
    assert(s =~= seq!['T', 'E', 'X', 'T']) by { reveal_strlit("TEXT"); }
    lemma_tag_nc_mismatch(s, 0, "tinyint"@, 1);
    lemma_tag_nc_mismatch(s, 0, "bigint"@, 0);
    lemma_tag_nc_mismatch(s, 0, "integer"@, 0);
    lemma_tag_nc_mismatch(s, 0, "int"@, 0);
    lemma_tag_nc_mismatch(s, 0, "smallint"@, 0);
    assert(spec_int_types(s, 0) is NoMatch);
    lemma_tag_nc_mismatch(s, 0, "bool"@, 0);
    assert(plain_type(s, 0, "bool"@, DataTypeView::Bool) is NoMatch);
    lemma_tag_nc_mismatch(s, 0, "char"@, 0);
    assert(spec_kw_len(s, 0, "char"@, "binary"@) is NoMatch);
    lemma_tag_nc_mismatch(s, 0, "datetime"@, 0);
    assert(spec_datetime(s, 0) is NoMatch);
    lemma_tag_nc_mismatch(s, 0, "date"@, 0);
    assert(plain_type(s, 0, "date"@, DataTypeView::Date) is NoMatch);
    lemma_tag_nc_mismatch(s, 0, "double"@, 0);
    assert(signed_type(s, 0, "double"@, DataTypeView::Double) is NoMatch);
    lemma_tag_nc_mismatch(s, 0, "enum"@, 0);
    assert(spec_enum_type(s, 0) is NoMatch);
    lemma_tag_nc_mismatch(s, 0, "float"@, 0);
    assert(spec_float_type(s, 0) is NoMatch);
    lemma_tag_nc_mismatch(s, 0, "real"@, 0);
    assert(signed_type(s, 0, "real"@, DataTypeView::Real) is NoMatch);
    assert(has_tag_nc(s, 0, "text"@)) by {
        assert forall|j: int| 0 <= j < 4 implies #[trigger] eq_no_case(s[0 + j], "text"@[j]) by {
            if j == 0 {} else if j == 1 {} else if j == 2 {} else if j == 3 {}
        }
    }
    assert(plain_type(s, 0, "text"@, DataTypeView::Text) == Parsed::Done(s.len() as int, t));
    assert(spec_type_first_half(s, 0) == Parsed::Done(s.len() as int, t));
    reveal(spec_type_identifier);
}

#[verifier::spinoff_prover]
#[verifier::rlimit(40)]
proof fn lemma_type_text_json()
    ensures
        spec_type_identifier(data_type_text(DataTypeView::Json), 0) == Parsed::Done(
            data_type_text(DataTypeView::Json).len() as int,
            DataTypeView::Json,
        ),
{
    let t = DataTypeView::Json;
    let s = data_type_text(t);
    reveal_strlit("bigint");
    reveal_strlit("binary");
    reveal_strlit("blob");
    reveal_strlit("bool");
    reveal_strlit("char");
    reveal_strlit("date");
    reveal_strlit("datetime");
    reveal_strlit("decimal");
    reveal_strlit("double");
    reveal_strlit("enum");
    reveal_strlit("float");
    reveal_strlit("int");
    reveal_strlit("integer");
    reveal_strlit("json");
    reveal_strlit("longblob");
    reveal_strlit("longtext");
    reveal_strlit("mediumblob");
    reveal_strlit("mediumtext");
    reveal_strlit("numeric");
    reveal_strlit("real");
    reveal_strlit("smallint");
    reveal_strlit("text");
    reveal_strlit("timestamp");
    reveal_strlit("tinyblob");
    reveal_strlit("tinyint");
    reveal_strlit("tinytext");
    reveal_strlit("varbinary");
    reveal_strlit("varchar");
    reveal_strlit("unsigned");
    reveal_strlit("signed");
    reveal_strlit("binary");
    reveal_strlit("");
    reveal_strlit("enum");
    reveal_with_fuel(run_end, 2);
    assert(s =~= seq!['J', 'S', 'O', 'N']) by { reveal_strlit("JSON"); }
    lemma_tag_nc_mismatch(s, 0, "tinyint"@, 0);
    lemma_tag_nc_mismatch(s, 0, "bigint"@, 0);
    lemma_tag_nc_mismatch(s, 0, "integer"@, 0);
    lemma_tag_nc_mismatch(s, 0, "int"@, 0);
    lemma_tag_nc_mismatch(s, 0, "smallint"@, 0);
    assert(spec_int_types(s, 0) is NoMatch);
    lemma_tag_nc_mismatch(s, 0, "bool"@, 0);
    assert(plain_type(s, 0, "bool"@, DataTypeView::Bool) is NoMatch);
    lemma_tag_nc_mismatch(s, 0, "char"@, 0);
    assert(spec_kw_len(s, 0, "char"@, "binary"@) is NoMatch);
    lemma_tag_nc_mismatch(s, 0, "datetime"@, 0);
    assert(spec_datetime(s, 0) is NoMatch);
    lemma_tag_nc_mismatch(s, 0, "date"@, 0);
    assert(plain_type(s, 0, "date"@, DataTypeView::Date) is NoMatch);
    lemma_tag_nc_mismatch(s, 0, "double"@, 0);
    assert(signed_type(s, 0, "double"@, DataTypeView::Double) is NoMatch);
    lemma_tag_nc_mismatch(s, 0, "enum"@, 0);
    assert(spec_enum_type(s, 0) is NoMatch);
    lemma_tag_nc_mismatch(s, 0, "float"@, 0);
    assert(spec_float_type(s, 0) is NoMatch);
    lemma_tag_nc_mismatch(s, 0, "real"@, 0);
    assert(signed_type(s, 0, "real"@, DataTypeView::Real) is NoMatch);
    lemma_tag_nc_mismatch(s, 0, "text"@, 0);
    assert(plain_type(s, 0, "text"@, DataTypeView::Text) is NoMatch);
    assert(has_tag_nc(s, 0, "json"@)) by {
        assert forall|j: int| 0 <= j < 4 implies #[trigger] eq_no_case(s[0 + j], "json"@[j]) by {
            if j == 0 {} else if j == 1 {} else if j == 2 {} else if j == 3 {}
        }
    }
    assert(plain_type(s, 0, "json"@, DataTypeView::Json) == Parsed::Done(s.len() as int, t));
    assert(spec_type_first_half(s, 0) == Parsed::Done(s.len() as int, t));
    reveal(spec_type_identifier);
}

#[verifier::spinoff_prover]
#[verifier::rlimit(40)]
proof fn lemma_type_text_date()
    ensures
        spec_type_identifier(data_type_text(DataTypeView::Date), 0) == Parsed::Done(
            data_type_text(DataTypeView::Date).len() as int,
            DataTypeView::Date,
        ),
{
    let t = DataTypeView::Date;
    let s = data_type_text(t);
    reveal_strlit("bigint");
    reveal_strlit("binary");
    reveal_strlit("blob");
    reveal_strlit("bool");
    reveal_strlit("char");
    reveal_strlit("date");
    reveal_strlit("datetime");
    reveal_strlit("decimal");
    reveal_strlit("double");
    reveal_strlit("enum");
    reveal_strlit("float");
    reveal_strlit("int");
    reveal_strlit("integer");
    reveal_strlit("json");
    reveal_strlit("longblob");
    reveal_strlit("longtext");
    reveal_strlit("mediumblob");
    reveal_strlit("mediumtext");
    reveal_strlit("numeric");
    reveal_strlit("real");
    reveal_strlit("smallint");
    reveal_strlit("text");
    reveal_strlit("timestamp");
    reveal_strlit("tinyblob");
    reveal_strlit("tinyint");
    reveal_strlit("tinytext");
    reveal_strlit("varbinary");
    reveal_strlit("varchar");
    reveal_strlit("unsigned");
    reveal_strlit("signed");
    reveal_strlit("binary");
    reveal_strlit("");
    reveal_strlit("enum");
    reveal_with_fuel(run_end, 2);
    assert(s =~= seq!['D', 'A', 'T', 'E']) by { reveal_strlit("DATE"); }
    lemma_tag_nc_mismatch(s, 0, "tinyint"@, 0);
    lemma_tag_nc_mismatch(s, 0, "bigint"@, 0);
    lemma_tag_nc_mismatch(s, 0, "integer"@, 0);
    lemma_tag_nc_mismatch(s, 0, "int"@, 0);
    lemma_tag_nc_mismatch(s, 0, "smallint"@, 0);
    assert(spec_int_types(s, 0) is NoMatch);
    lemma_tag_nc_mismatch(s, 0, "bool"@, 0);
    assert(plain_type(s, 0, "bool"@, DataTypeView::Bool) is NoMatch);
    lemma_tag_nc_mismatch(s, 0, "char"@, 0);
    assert(spec_kw_len(s, 0, "char"@, "binary"@) is NoMatch);
    assert(spec_datetime(s, 0) is NoMatch);
    assert(has_tag_nc(s, 0, "date"@)) by {
        assert forall|j: int| 0 <= j < 4 implies #[trigger] eq_no_case(s[0 + j], "date"@[j]) by {
            if j == 0 {} else if j == 1 {} else if j == 2 {} else if j == 3 {}
        }
    }
    assert(plain_type(s, 0, "date"@, DataTypeView::Date) == Parsed::Done(s.len() as int, t));
    assert(spec_type_first_half(s, 0) == Parsed::Done(s.len() as int, t));
    reveal(spec_type_identifier);
}

#[verifier::spinoff_prover]
#[verifier::rlimit(40)]
proof fn lemma_type_text_date_time(n: u16)
    ensures
        spec_type_identifier(data_type_text(DataTypeView::DateTime(n)), 0) == Parsed::Done(
            data_type_text(DataTypeView::DateTime(n)).len() as int,
            DataTypeView::DateTime(n),
        ),
{
    let t = DataTypeView::DateTime(n);
    let s = data_type_text(t);
    reveal_strlit("bigint");
    reveal_strlit("binary");
    reveal_strlit("blob");
    reveal_strlit("bool");
    reveal_strlit("char");
    reveal_strlit("date");
    reveal_strlit("datetime");
    reveal_strlit("decimal");
    reveal_strlit("double");
    reveal_strlit("enum");
    reveal_strlit("float");
    reveal_strlit("int");
    reveal_strlit("integer");
    reveal_strlit("json");
    reveal_strlit("longblob");
    reveal_strlit("longtext");
    reveal_strlit("mediumblob");
    reveal_strlit("mediumtext");
    reveal_strlit("numeric");
    reveal_strlit("real");
    reveal_strlit("smallint");
    reveal_strlit("text");
    reveal_strlit("timestamp");
    reveal_strlit("tinyblob");
    reveal_strlit("tinyint");
    reveal_strlit("tinytext");
    reveal_strlit("varbinary");
    reveal_strlit("varchar");
    reveal_strlit("unsigned");
    reveal_strlit("signed");
    reveal_strlit("binary");
    reveal_strlit("");
    reveal_strlit("enum");
    reveal_with_fuel(run_end, 2);
    assert(s =~= seq!['D', 'A', 'T', 'E', 'T', 'I', 'M', 'E', '('] + nat_text(n as nat) + seq![')']) by { reveal_strlit("DATETIME"); }
    lemma_digits_in(seq!['D', 'A', 'T', 'E', 'T', 'I', 'M', 'E', '('], n as nat, seq![')']);
    let e: int = 10 + nat_text(n as nat).len() as int;
    assert(spec_len(s, 8) == Parsed::Done(e, n));
    lemma_tag_nc_mismatch(s, 0, "tinyint"@, 0);
    lemma_tag_nc_mismatch(s, 0, "bigint"@, 0);
    lemma_tag_nc_mismatch(s, 0, "integer"@, 0);
    lemma_tag_nc_mismatch(s, 0, "int"@, 0);
    lemma_tag_nc_mismatch(s, 0, "smallint"@, 0);
    assert(spec_int_types(s, 0) is NoMatch);
    lemma_tag_nc_mismatch(s, 0, "bool"@, 0);
    assert(plain_type(s, 0, "bool"@, DataTypeView::Bool) is NoMatch);
    lemma_tag_nc_mismatch(s, 0, "char"@, 0);
    assert(spec_kw_len(s, 0, "char"@, "binary"@) is NoMatch);
    assert(has_tag_nc(s, 0, "datetime"@)) by {
        assert forall|j: int| 0 <= j < 8 implies #[trigger] eq_no_case(s[0 + j], "datetime"@[j]) by {
            if j == 0 {} else if j == 1 {} else if j == 2 {} else if j == 3 {} else if j == 4 {} else if j == 5 {} else if j == 6 {} else if j == 7 {}
        }
    }
    assert(spec_datetime(s, 0) == Parsed::Done(s.len() as int, t));
    assert(spec_type_first_half(s, 0) == Parsed::Done(s.len() as int, t));
    reveal(spec_type_identifier);
}

#[verifier::spinoff_prover]
#[verifier::rlimit(40)]
proof fn lemma_type_text_timestamp()
    ensures
        spec_type_identifier(data_type_text(DataTypeView::Timestamp), 0) == Parsed::Done(
            data_type_text(DataTypeView::Timestamp).len() as int,
            DataTypeView::Timestamp,
        ),
{
    let t = DataTypeView::Timestamp;
    let s = data_type_text(t);
    reveal_strlit("bigint");
    reveal_strlit("binary");
    reveal_strlit("blob");
    reveal_strlit("bool");
    reveal_strlit("char");
    reveal_strlit("date");
    reveal_strlit("datetime");
    reveal_strlit("decimal");
    reveal_strlit("double");
    reveal_strlit("enum");
    reveal_strlit("float");
    reveal_strlit("int");
    reveal_strlit("integer");
    reveal_strlit("json");
    reveal_strlit("longblob");
    reveal_strlit("longtext");
    reveal_strlit("mediumblob");
    reveal_strlit("mediumtext");
    reveal_strlit("numeric");
    reveal_strlit("real");
    reveal_strlit("smallint");
    reveal_strlit("text");
    reveal_strlit("timestamp");
    reveal_strlit("tinyblob");
    reveal_strlit("tinyint");
    reveal_strlit("tinytext");
    reveal_strlit("varbinary");
    reveal_strlit("varchar");
    reveal_strlit("unsigned");
    reveal_strlit("signed");
    reveal_strlit("binary");
    reveal_strlit("");
    reveal_strlit("enum");
    reveal_with_fuel(run_end, 2);
    assert(s =~= seq!['T', 'I', 'M', 'E', 'S', 'T', 'A', 'M', 'P']) by { reveal_strlit("TIMESTAMP"); }
    lemma_tag_nc_mismatch(s, 0, "tinyint"@, 2);
    lemma_tag_nc_mismatch(s, 0, "bigint"@, 0);
    lemma_tag_nc_mismatch(s, 0, "integer"@, 0);
    lemma_tag_nc_mismatch(s, 0, "int"@, 0);
    lemma_tag_nc_mismatch(s, 0, "smallint"@, 0);
    assert(spec_int_types(s, 0) is NoMatch);
    lemma_tag_nc_mismatch(s, 0, "bool"@, 0);
    assert(plain_type(s, 0, "bool"@, DataTypeView::Bool) is NoMatch);
    lemma_tag_nc_mismatch(s, 0, "char"@, 0);
    assert(spec_kw_len(s, 0, "char"@, "binary"@) is NoMatch);
    lemma_tag_nc_mismatch(s, 0, "datetime"@, 0);
    assert(spec_datetime(s, 0) is NoMatch);
    lemma_tag_nc_mismatch(s, 0, "date"@, 0);
    assert(plain_type(s, 0, "date"@, DataTypeView::Date) is NoMatch);
    lemma_tag_nc_mismatch(s, 0, "double"@, 0);
    assert(signed_type(s, 0, "double"@, DataTypeView::Double) is NoMatch);
    lemma_tag_nc_mismatch(s, 0, "enum"@, 0);
    assert(spec_enum_type(s, 0) is NoMatch);
    lemma_tag_nc_mismatch(s, 0, "float"@, 0);
    assert(spec_float_type(s, 0) is NoMatch);
    lemma_tag_nc_mismatch(s, 0, "real"@, 0);
    assert(signed_type(s, 0, "real"@, DataTypeView::Real) is NoMatch);
    lemma_tag_nc_mismatch(s, 0, "text"@, 1);
    assert(plain_type(s, 0, "text"@, DataTypeView::Text) is NoMatch);
    lemma_tag_nc_mismatch(s, 0, "json"@, 0);
    assert(plain_type(s, 0, "json"@, DataTypeView::Json) is NoMatch);
    assert(has_tag_nc(s, 0, "timestamp"@)) by {
        assert forall|j: int| 0 <= j < 9 implies #[trigger] eq_no_case(s[0 + j], "timestamp"@[j]) by {
            if j == 0 {} else if j == 1 {} else if j == 2 {} else if j == 3 {} else if j == 4 {} else if j == 5 {} else if j == 6 {} else if j == 7 {} else if j == 8 {}
        }
    }
    assert(spec_timestamp(s, 0) == Parsed::Done(s.len() as int, t));
    assert(spec_type_first_half(s, 0) == Parsed::Done(s.len() as int, t));
    reveal(spec_type_identifier);
}

#[verifier::spinoff_prover]
#[verifier::rlimit(40)]
proof fn lemma_type_text_binary(n: u16)
    ensures
        spec_type_identifier(data_type_text(DataTypeView::Binary(n)), 0) == Parsed::Done(
            data_type_text(DataTypeView::Binary(n)).len() as int,
            DataTypeView::Binary(n),
        ),
{
    let t = DataTypeView::Binary(n);
    let s = data_type_text(t);
    reveal_strlit("bigint");
    reveal_strlit("binary");
    reveal_strlit("blob");
    reveal_strlit("bool");
    reveal_strlit("char");
    reveal_strlit("date");
    reveal_strlit("datetime");
    reveal_strlit("decimal");
    reveal_strlit("double");
    reveal_strlit("enum");
    reveal_strlit("float");
    reveal_strlit("int");
    reveal_strlit("integer");
    reveal_strlit("json");
    reveal_strlit("longblob");
    reveal_strlit("longtext");
    reveal_strlit("mediumblob");
    reveal_strlit("mediumtext");
    reveal_strlit("numeric");
    reveal_strlit("real");
    reveal_strlit("smallint");
    reveal_strlit("text");
    reveal_strlit("timestamp");
    reveal_strlit("tinyblob");
    reveal_strlit("tinyint");
    reveal_strlit("tinytext");
    reveal_strlit("varbinary");
    reveal_strlit("varchar");
    reveal_strlit("unsigned");
    reveal_strlit("signed");
    reveal_strlit("binary");
    reveal_strlit("");
    reveal_strlit("enum");
    reveal_with_fuel(run_end, 2);
    assert(s =~= seq!['B', 'I', 'N', 'A', 'R', 'Y', '('] + nat_text(n as nat) + seq![')']) by { reveal_strlit("BINARY"); }
    lemma_digits_in(seq!['B', 'I', 'N', 'A', 'R', 'Y', '('], n as nat, seq![')']);
    let e: int = 8 + nat_text(n as nat).len() as int;
    assert(spec_len(s, 6) == Parsed::Done(e, n));
    lemma_tag_nc_mismatch(s, 0, "tinyint"@, 0);
    lemma_tag_nc_mismatch(s, 0, "bigint"@, 2);
    lemma_tag_nc_mismatch(s, 0, "integer"@, 0);
    lemma_tag_nc_mismatch(s, 0, "int"@, 0);
    lemma_tag_nc_mismatch(s, 0, "smallint"@, 0);
    assert(spec_int_types(s, 0) is NoMatch);
    lemma_tag_nc_mismatch(s, 0, "bool"@, 1);
    assert(plain_type(s, 0, "bool"@, DataTypeView::Bool) is NoMatch);
    lemma_tag_nc_mismatch(s, 0, "char"@, 0);
    assert(spec_kw_len(s, 0, "char"@, "binary"@) is NoMatch);
    lemma_tag_nc_mismatch(s, 0, "datetime"@, 0);
    assert(spec_datetime(s, 0) is NoMatch);
    lemma_tag_nc_mismatch(s, 0, "date"@, 0);
    assert(plain_type(s, 0, "date"@, DataTypeView::Date) is NoMatch);
    lemma_tag_nc_mismatch(s, 0, "double"@, 0);
    assert(signed_type(s, 0, "double"@, DataTypeView::Double) is NoMatch);
    lemma_tag_nc_mismatch(s, 0, "enum"@, 0);
    assert(spec_enum_type(s, 0) is NoMatch);
    lemma_tag_nc_mismatch(s, 0, "float"@, 0);
    assert(spec_float_type(s, 0) is NoMatch);
    lemma_tag_nc_mismatch(s, 0, "real"@, 0);
    assert(signed_type(s, 0, "real"@, DataTypeView::Real) is NoMatch);
    lemma_tag_nc_mismatch(s, 0, "text"@, 0);
    assert(plain_type(s, 0, "text"@, DataTypeView::Text) is NoMatch);
    lemma_tag_nc_mismatch(s, 0, "json"@, 0);
    assert(plain_type(s, 0, "json"@, DataTypeView::Json) is NoMatch);
    lemma_tag_nc_mismatch(s, 0, "timestamp"@, 0);
    assert(spec_timestamp(s, 0) is NoMatch);
    lemma_tag_nc_mismatch(s, 0, "varchar"@, 0);
    assert(spec_kw_len(s, 0, "varchar"@, "binary"@) is NoMatch);
    lemma_tag_nc_mismatch(s, 0, "decimal"@, 0);
    lemma_tag_nc_mismatch(s, 0, "numeric"@, 0);
    assert(spec_decimal(s, 0) is NoMatch);
    assert(has_tag_nc(s, 0, "binary"@)) by {
        assert forall|j: int| 0 <= j < 6 implies #[trigger] eq_no_case(s[0 + j], "binary"@[j]) by {
            if j == 0 {} else if j == 1 {} else if j == 2 {} else if j == 3 {} else if j == 4 {} else if j == 5 {}
        }
    }
    assert(spec_kw_len(s, 0, "binary"@, ""@) == Parsed::Done(s.len() as int, n));
    assert(spec_type_first_half(s, 0) is NoMatch);
    assert(spec_type_second_half(s, 0) == Parsed::Done(s.len() as int, t));
    reveal(spec_type_identifier);
}

#[verifier::spinoff_prover]
#[verifier::rlimit(40)]
proof fn lemma_type_text_varbinary(n: u16)
    ensures
        spec_type_identifier(data_type_text(DataTypeView::Varbinary(n)), 0) == Parsed::Done(
            data_type_text(DataTypeView::Varbinary(n)).len() as int,
            DataTypeView::Varbinary(n),
        ),
{
    let t = DataTypeView::Varbinary(n);
    let s = data_type_text(t);
    reveal_strlit("bigint");
    reveal_strlit("binary");
    reveal_strlit("blob");
    reveal_strlit("bool");
    reveal_strlit("char");
    reveal_strlit("date");
    reveal_strlit("datetime");
    reveal_strlit("decimal");
    reveal_strlit("double");
    reveal_strlit("enum");
    reveal_strlit("float");
    reveal_strlit("int");
    reveal_strlit("integer");
    reveal_strlit("json");
    reveal_strlit("longblob");
    reveal_strlit("longtext");
    reveal_strlit("mediumblob");
    reveal_strlit("mediumtext");
    reveal_strlit("numeric");
    reveal_strlit("real");
    reveal_strlit("smallint");
    reveal_strlit("text");
    reveal_strlit("timestamp");
    reveal_strlit("tinyblob");
    reveal_strlit("tinyint");
    reveal_strlit("tinytext");
    reveal_strlit("varbinary");
    reveal_strlit("varchar");
    reveal_strlit("unsigned");
    reveal_strlit("signed");
    reveal_strlit("binary");
    reveal_strlit("");
    reveal_strlit("enum");
    reveal_with_fuel(run_end, 2);
    assert(s =~= seq!['V', 'A', 'R', 'B', 'I', 'N', 'A', 'R', 'Y', '('] + nat_text(n as nat) + seq![')']) by { reveal_strlit("VARBINARY"); }
    lemma_digits_in(seq!['V', 'A', 'R', 'B', 'I', 'N', 'A', 'R', 'Y', '('], n as nat, seq![')']);
    let e: int = 11 + nat_text(n as nat).len() as int;
    assert(spec_len(s, 9) == Parsed::Done(e, n));
    lemma_tag_nc_mismatch(s, 0, "tinyint"@, 0);
    lemma_tag_nc_mismatch(s, 0, "bigint"@, 0);
    lemma_tag_nc_mismatch(s, 0, "integer"@, 0);
    lemma_tag_nc_mismatch(s, 0, "int"@, 0);
    lemma_tag_nc_mismatch(s, 0, "smallint"@, 0);
    assert(spec_int_types(s, 0) is NoMatch);
    lemma_tag_nc_mismatch(s, 0, "bool"@, 0);
    assert(plain_type(s, 0, "bool"@, DataTypeView::Bool) is NoMatch);
    lemma_tag_nc_mismatch(s, 0, "char"@, 0);
    assert(spec_kw_len(s, 0, "char"@, "binary"@) is NoMatch);
    lemma_tag_nc_mismatch(s, 0, "datetime"@, 0);
    assert(spec_datetime(s, 0) is NoMatch);
    lemma_tag_nc_mismatch(s, 0, "date"@, 0);
    assert(plain_type(s, 0, "date"@, DataTypeView::Date) is NoMatch);
    lemma_tag_nc_mismatch(s, 0, "double"@, 0);
    assert(signed_type(s, 0, "double"@, DataTypeView::Double) is NoMatch);
    lemma_tag_nc_mismatch(s, 0, "enum"@, 0);
    assert(spec_enum_type(s, 0) is NoMatch);
    lemma_tag_nc_mismatch(s, 0, "float"@, 0);
    assert(spec_float_type(s, 0) is NoMatch);
    lemma_tag_nc_mismatch(s, 0, "real"@, 0);
    assert(signed_type(s, 0, "real"@, DataTypeView::Real) is NoMatch);
    lemma_tag_nc_mismatch(s, 0, "text"@, 0);
    assert(plain_type(s, 0, "text"@, DataTypeView::Text) is NoMatch);
    lemma_tag_nc_mismatch(s, 0, "json"@, 0);
    assert(plain_type(s, 0, "json"@, DataTypeView::Json) is NoMatch);
    lemma_tag_nc_mismatch(s, 0, "timestamp"@, 0);
    assert(spec_timestamp(s, 0) is NoMatch);
    lemma_tag_nc_mismatch(s, 0, "varchar"@, 3);
    assert(spec_kw_len(s, 0, "varchar"@, "binary"@) is NoMatch);
    lemma_tag_nc_mismatch(s, 0, "decimal"@, 0);
    lemma_tag_nc_mismatch(s, 0, "numeric"@, 0);
    assert(spec_decimal(s, 0) is NoMatch);
    lemma_tag_nc_mismatch(s, 0, "binary"@, 0);
    assert(spec_kw_len(s, 0, "binary"@, ""@) is NoMatch);
    lemma_tag_nc_mismatch(s, 0, "blob"@, 0);
    assert(plain_type(s, 0, "blob"@, DataTypeView::Blob) is NoMatch);
    lemma_tag_nc_mismatch(s, 0, "longblob"@, 0);
    assert(plain_type(s, 0, "longblob"@, DataTypeView::Longblob) is NoMatch);
    lemma_tag_nc_mismatch(s, 0, "mediumblob"@, 0);
    assert(plain_type(s, 0, "mediumblob"@, DataTypeView::Mediumblob) is NoMatch);
    lemma_tag_nc_mismatch(s, 0, "mediumtext"@, 0);
    assert(plain_type(s, 0, "mediumtext"@, DataTypeView::Mediumtext) is NoMatch);
    lemma_tag_nc_mismatch(s, 0, "longtext"@, 0);
    assert(plain_type(s, 0, "longtext"@, DataTypeView::Longtext) is NoMatch);
    lemma_tag_nc_mismatch(s, 0, "tinyblob"@, 0);
    assert(plain_type(s, 0, "tinyblob"@, DataTypeView::Tinyblob) is NoMatch);
    lemma_tag_nc_mismatch(s, 0, "tinytext"@, 0);
    assert(plain_type(s, 0, "tinytext"@, DataTypeView::Tinytext) is NoMatch);
    assert(has_tag_nc(s, 0, "varbinary"@)) by {
        assert forall|j: int| 0 <= j < 9 implies #[trigger] eq_no_case(s[0 + j], "varbinary"@[j]) by {
            if j == 0 {} else if j == 1 {} else if j == 2 {} else if j == 3 {} else if j == 4 {} else if j == 5 {} else if j == 6 {} else if j == 7 {} else if j == 8 {}
        }
    }
    assert(spec_kw_len(s, 0, "varbinary"@, ""@) == Parsed::Done(s.len() as int, n));
    assert(spec_type_first_half(s, 0) is NoMatch);
    assert(spec_type_second_half(s, 0) == Parsed::Done(s.len() as int, t));
    reveal(spec_type_identifier);
}

#[verifier::spinoff_prover]
#[verifier::rlimit(100)]
proof fn lemma_type_text_decimal_part(m: u8, d: u8)
    ensures
        spec_decimal(data_type_text(DataTypeView::Decimal(m, d)), 0) == Parsed::Done(
            data_type_text(DataTypeView::Decimal(m, d)).len() as int,
            DataTypeView::Decimal(m, d),
        ),
{
    let t = DataTypeView::Decimal(m, d);
    let s = data_type_text(t);
    reveal_strlit("bigint");
    reveal_strlit("binary");
    reveal_strlit("blob");
    reveal_strlit("bool");
    reveal_strlit("char");
    reveal_strlit("date");
    reveal_strlit("datetime");
    reveal_strlit("decimal");
    reveal_strlit("double");
    reveal_strlit("enum");
    reveal_strlit("float");
    reveal_strlit("int");
    reveal_strlit("integer");
    reveal_strlit("json");
    reveal_strlit("longblob");
    reveal_strlit("longtext");
    reveal_strlit("mediumblob");
    reveal_strlit("mediumtext");
    reveal_strlit("numeric");
    reveal_strlit("real");
    reveal_strlit("smallint");
    reveal_strlit("text");
    reveal_strlit("timestamp");
    reveal_strlit("tinyblob");
    reveal_strlit("tinyint");
    reveal_strlit("tinytext");
    reveal_strlit("varbinary");
    reveal_strlit("varchar");
    reveal_strlit("unsigned");
    reveal_strlit("signed");
    reveal_strlit("binary");
    reveal_strlit("");
    reveal_strlit("enum");
    reveal_with_fuel(run_end, 2);
    assert(s =~= seq!['D', 'E', 'C', 'I', 'M', 'A', 'L', '('] + nat_text(m as nat) + seq![',', ' '] + nat_text(d as nat) + seq![')']) by { reveal_strlit("DECIMAL("); reveal_strlit(", "); }
    assert(s =~= seq!['D', 'E', 'C', 'I', 'M', 'A', 'L', '('] + nat_text(m as nat) + (seq![',', ' '] + nat_text(d as nat) + seq![')']));
    lemma_digits_in(seq!['D', 'E', 'C', 'I', 'M', 'A', 'L', '('], m as nat, seq![',', ' '] + nat_text(d as nat) + seq![')']);
    lemma_digits_in(seq!['D', 'E', 'C', 'I', 'M', 'A', 'L', '('] + nat_text(m as nat) + seq![',', ' '], d as nat, seq![')']);
    lemma_tag_nc_mismatch(s, 0, "tinyint"@, 0);
    lemma_tag_nc_mismatch(s, 0, "bigint"@, 0);
    lemma_tag_nc_mismatch(s, 0, "integer"@, 0);
    lemma_tag_nc_mismatch(s, 0, "int"@, 0);
    lemma_tag_nc_mismatch(s, 0, "smallint"@, 0);
    assert(spec_int_types(s, 0) is NoMatch);
    lemma_tag_nc_mismatch(s, 0, "bool"@, 0);
    assert(plain_type(s, 0, "bool"@, DataTypeView::Bool) is NoMatch);
    lemma_tag_nc_mismatch(s, 0, "char"@, 0);
    assert(spec_kw_len(s, 0, "char"@, "binary"@) is NoMatch);
    lemma_tag_nc_mismatch(s, 0, "datetime"@, 1);
    assert(spec_datetime(s, 0) is NoMatch);
    lemma_tag_nc_mismatch(s, 0, "date"@, 1);
    assert(plain_type(s, 0, "date"@, DataTypeView::Date) is NoMatch);
    lemma_tag_nc_mismatch(s, 0, "double"@, 1);
    assert(signed_type(s, 0, "double"@, DataTypeView::Double) is NoMatch);
    lemma_tag_nc_mismatch(s, 0, "enum"@, 0);
    assert(spec_enum_type(s, 0) is NoMatch);
    lemma_tag_nc_mismatch(s, 0, "float"@, 0);
    assert(spec_float_type(s, 0) is NoMatch);
    lemma_tag_nc_mismatch(s, 0, "real"@, 0);
    assert(signed_type(s, 0, "real"@, DataTypeView::Real) is NoMatch);
    lemma_tag_nc_mismatch(s, 0, "text"@, 0);
    assert(plain_type(s, 0, "text"@, DataTypeView::Text) is NoMatch);
    lemma_tag_nc_mismatch(s, 0, "json"@, 0);
    assert(plain_type(s, 0, "json"@, DataTypeView::Json) is NoMatch);
    lemma_tag_nc_mismatch(s, 0, "timestamp"@, 0);
    assert(spec_timestamp(s, 0) is NoMatch);
    lemma_tag_nc_mismatch(s, 0, "varchar"@, 0);
    assert(spec_kw_len(s, 0, "varchar"@, "binary"@) is NoMatch);
    assert(has_tag_nc(s, 0, "decimal"@)) by {
        assert forall|j: int| 0 <= j < 7 implies #[trigger] eq_no_case(s[0 + j], "decimal"@[j]) by {
            if j == 0 {} else if j == 1 {} else if j == 2 {} else if j == 3 {} else if j == 4 {} else if j == 5 {} else if j == 6 {}
        }
    }
    let m_end: int = 8 + nat_text(m as nat).len() as int;
    let d_start: int = m_end + 2;
    let d_end: int = d_start + nat_text(d as nat).len() as int;
    assert(s[m_end] == ',' && s[m_end + 1] == ' ' && s[d_end] == ')');
    assert(d_end + 1 == s.len());
    assert(ws_end(s, m_end + 1) == d_start);
    assert(u8_of(s, 8, m_end) == Some(m));
    assert(u8_of(s, d_start, d_end) == Some(d));
    assert(spec_precision(s, 7) == Parsed::Done(s.len() as int, (m, Some(d))));
    assert(ws_end(s, s.len() as int) == s.len());
    assert(spec_decimal(s, 0) == Parsed::Done(s.len() as int, t));
}

#[verifier::spinoff_prover]
#[verifier::rlimit(100)]
proof fn lemma_type_text_decimal(m: u8, d: u8)
    ensures
        spec_type_identifier(data_type_text(DataTypeView::Decimal(m, d)), 0) == Parsed::Done(
            data_type_text(DataTypeView::Decimal(m, d)).len() as int,
            DataTypeView::Decimal(m, d),
        ),
{
    let t = DataTypeView::Decimal(m, d);
    let s = data_type_text(t);
    reveal_strlit("bigint");
    reveal_strlit("binary");
    reveal_strlit("blob");
    reveal_strlit("bool");
    reveal_strlit("char");
    reveal_strlit("date");
    reveal_strlit("datetime");
    reveal_strlit("decimal");
    reveal_strlit("double");
    reveal_strlit("enum");
    reveal_strlit("float");
    reveal_strlit("int");
    reveal_strlit("integer");
    reveal_strlit("json");
    reveal_strlit("longblob");
    reveal_strlit("longtext");
    reveal_strlit("mediumblob");
    reveal_strlit("mediumtext");
    reveal_strlit("numeric");
    reveal_strlit("real");
    reveal_strlit("smallint");
    reveal_strlit("text");
    reveal_strlit("timestamp");
    reveal_strlit("tinyblob");
    reveal_strlit("tinyint");
    reveal_strlit("tinytext");
    reveal_strlit("varbinary");
    reveal_strlit("varchar");
    reveal_strlit("unsigned");
    reveal_strlit("signed");
    reveal_strlit("binary");
    reveal_strlit("");
    reveal_strlit("enum");
    reveal_with_fuel(run_end, 2);
    assert(s =~= seq!['D', 'E', 'C', 'I', 'M', 'A', 'L', '('] + nat_text(m as nat) + seq![',', ' '] + nat_text(d as nat) + seq![')']) by { reveal_strlit("DECIMAL("); reveal_strlit(", "); }
    lemma_tag_nc_mismatch(s, 0, "tinyint"@, 0);
    lemma_tag_nc_mismatch(s, 0, "bigint"@, 0);
    lemma_tag_nc_mismatch(s, 0, "integer"@, 0);
    lemma_tag_nc_mismatch(s, 0, "int"@, 0);
    lemma_tag_nc_mismatch(s, 0, "smallint"@, 0);
    assert(spec_int_types(s, 0) is NoMatch);
    lemma_tag_nc_mismatch(s, 0, "bool"@, 0);
    assert(plain_type(s, 0, "bool"@, DataTypeView::Bool) is NoMatch);
    lemma_tag_nc_mismatch(s, 0, "char"@, 0);
    assert(spec_kw_len(s, 0, "char"@, "binary"@) is NoMatch);
    lemma_tag_nc_mismatch(s, 0, "datetime"@, 1);
    assert(spec_datetime(s, 0) is NoMatch);
    lemma_tag_nc_mismatch(s, 0, "date"@, 1);
    assert(plain_type(s, 0, "date"@, DataTypeView::Date) is NoMatch);
    lemma_tag_nc_mismatch(s, 0, "double"@, 1);
    assert(signed_type(s, 0, "double"@, DataTypeView::Double) is NoMatch);
    lemma_tag_nc_mismatch(s, 0, "enum"@, 0);
    assert(spec_enum_type(s, 0) is NoMatch);
    lemma_tag_nc_mismatch(s, 0, "float"@, 0);
    assert(spec_float_type(s, 0) is NoMatch);
    lemma_tag_nc_mismatch(s, 0, "real"@, 0);
    assert(signed_type(s, 0, "real"@, DataTypeView::Real) is NoMatch);
    lemma_tag_nc_mismatch(s, 0, "text"@, 0);
    assert(plain_type(s, 0, "text"@, DataTypeView::Text) is NoMatch);
    lemma_tag_nc_mismatch(s, 0, "json"@, 0);
    assert(plain_type(s, 0, "json"@, DataTypeView::Json) is NoMatch);
    lemma_tag_nc_mismatch(s, 0, "timestamp"@, 0);
    assert(spec_timestamp(s, 0) is NoMatch);
    lemma_tag_nc_mismatch(s, 0, "varchar"@, 0);
    assert(spec_kw_len(s, 0, "varchar"@, "binary"@) is NoMatch);
    assert(has_tag_nc(s, 0, "decimal"@)) by {
        assert forall|j: int| 0 <= j < 7 implies #[trigger] eq_no_case(s[0 + j], "decimal"@[j]) by {
            if j == 0 {} else if j == 1 {} else if j == 2 {} else if j == 3 {} else if j == 4 {} else if j == 5 {} else if j == 6 {}
        }
    }
    lemma_type_text_decimal_part(m, d);
    assert(spec_type_first_half(s, 0) == Parsed::Done(s.len() as int, t));
    reveal(spec_type_identifier);
}

#[verifier::spinoff_prover]
#[verifier::rlimit(100)]
proof fn lemma_decimal_no_scale_part(m: u8)
    ensures
        spec_decimal((seq!['D', 'E', 'C', 'I', 'M', 'A', 'L', '('] + nat_text(m as nat) + seq![')']), 0) == Parsed::Done(
            (seq!['D', 'E', 'C', 'I', 'M', 'A', 'L', '('] + nat_text(m as nat) + seq![')']).len() as int,
            DataTypeView::Decimal(m, 0),
        ),
{
    let t = DataTypeView::Decimal(m, 0);
    let s = seq!['D', 'E', 'C', 'I', 'M', 'A', 'L', '('] + nat_text(m as nat) + seq![')'];
    reveal_strlit("bigint");
    reveal_strlit("binary");
    reveal_strlit("blob");
    reveal_strlit("bool");
    reveal_strlit("char");
    reveal_strlit("date");
    reveal_strlit("datetime");
    reveal_strlit("decimal");
    reveal_strlit("double");
    reveal_strlit("enum");
    reveal_strlit("float");
    reveal_strlit("int");
    reveal_strlit("integer");
    reveal_strlit("json");
    reveal_strlit("longblob");
    reveal_strlit("longtext");
    reveal_strlit("mediumblob");
    reveal_strlit("mediumtext");
    reveal_strlit("numeric");
    reveal_strlit("real");
    reveal_strlit("smallint");
    reveal_strlit("text");
    reveal_strlit("timestamp");
    reveal_strlit("tinyblob");
    reveal_strlit("tinyint");
    reveal_strlit("tinytext");
    reveal_strlit("varbinary");
    reveal_strlit("varchar");
    reveal_strlit("unsigned");
    reveal_strlit("signed");
    reveal_strlit("binary");
    reveal_strlit("");
    reveal_strlit("enum");
    reveal_with_fuel(run_end, 2);
    lemma_digits_in(seq!['D', 'E', 'C', 'I', 'M', 'A', 'L', '('], m as nat, seq![')']);
    lemma_tag_nc_mismatch(s, 0, "tinyint"@, 0);
    lemma_tag_nc_mismatch(s, 0, "bigint"@, 0);
    lemma_tag_nc_mismatch(s, 0, "integer"@, 0);
    lemma_tag_nc_mismatch(s, 0, "int"@, 0);
    lemma_tag_nc_mismatch(s, 0, "smallint"@, 0);
    assert(spec_int_types(s, 0) is NoMatch);
    lemma_tag_nc_mismatch(s, 0, "bool"@, 0);
    assert(plain_type(s, 0, "bool"@, DataTypeView::Bool) is NoMatch);
    lemma_tag_nc_mismatch(s, 0, "char"@, 0);
    assert(spec_kw_len(s, 0, "char"@, "binary"@) is NoMatch);
    lemma_tag_nc_mismatch(s, 0, "datetime"@, 1);
    assert(spec_datetime(s, 0) is NoMatch);
    lemma_tag_nc_mismatch(s, 0, "date"@, 1);
    assert(plain_type(s, 0, "date"@, DataTypeView::Date) is NoMatch);
    lemma_tag_nc_mismatch(s, 0, "double"@, 1);
    assert(signed_type(s, 0, "double"@, DataTypeView::Double) is NoMatch);
    lemma_tag_nc_mismatch(s, 0, "enum"@, 0);
    assert(spec_enum_type(s, 0) is NoMatch);
    lemma_tag_nc_mismatch(s, 0, "float"@, 0);
    assert(spec_float_type(s, 0) is NoMatch);
    lemma_tag_nc_mismatch(s, 0, "real"@, 0);
    assert(signed_type(s, 0, "real"@, DataTypeView::Real) is NoMatch);
    lemma_tag_nc_mismatch(s, 0, "text"@, 0);
    assert(plain_type(s, 0, "text"@, DataTypeView::Text) is NoMatch);
    lemma_tag_nc_mismatch(s, 0, "json"@, 0);
    assert(plain_type(s, 0, "json"@, DataTypeView::Json) is NoMatch);
    lemma_tag_nc_mismatch(s, 0, "timestamp"@, 0);
    assert(spec_timestamp(s, 0) is NoMatch);
    lemma_tag_nc_mismatch(s, 0, "varchar"@, 0);
    assert(spec_kw_len(s, 0, "varchar"@, "binary"@) is NoMatch);
    assert(has_tag_nc(s, 0, "decimal"@)) by {
        assert forall|j: int| 0 <= j < 7 implies #[trigger] eq_no_case(s[0 + j], "decimal"@[j]) by {
            if j == 0 {} else if j == 1 {} else if j == 2 {} else if j == 3 {} else if j == 4 {} else if j == 5 {} else if j == 6 {}
        }
    }
    let m_end: int = 8 + nat_text(m as nat).len() as int;
    assert(s[m_end] == ')');
    assert(m_end + 1 == s.len());
    assert(ws_end(s, m_end + 1) == s.len());
    assert(digits_end(s, s.len() as int) == s.len());
    assert(u8_of(s, 8, m_end) == Some(m));
    assert(spec_precision(s, 7) == Parsed::Done(s.len() as int, (m, None::<u8>)));
    assert(ws_end(s, s.len() as int) == s.len());
    assert(spec_decimal(s, 0) == Parsed::Done(s.len() as int, t));
}

/// `DECIMAL(m)`, a precision with no scale, is the decimal type of that
/// precision and scale 0.
#[verifier::spinoff_prover]
#[verifier::rlimit(100)]
pub proof fn lemma_decimal_scale_defaults_to_zero(m: u8)
    ensures
        spec_type_identifier((seq!['D', 'E', 'C', 'I', 'M', 'A', 'L', '('] + nat_text(m as nat) + seq![')']), 0) == Parsed::Done(
            (seq!['D', 'E', 'C', 'I', 'M', 'A', 'L', '('] + nat_text(m as nat) + seq![')']).len() as int,
            DataTypeView::Decimal(m, 0),
        ),
{
    let t = DataTypeView::Decimal(m, 0);
    let s = seq!['D', 'E', 'C', 'I', 'M', 'A', 'L', '('] + nat_text(m as nat) + seq![')'];
    reveal_strlit("bigint");
    reveal_strlit("binary");
    reveal_strlit("blob");
    reveal_strlit("bool");
    reveal_strlit("char");
    reveal_strlit("date");
    reveal_strlit("datetime");
    reveal_strlit("decimal");
    reveal_strlit("double");
    reveal_strlit("enum");
    reveal_strlit("float");
    reveal_strlit("int");
    reveal_strlit("integer");
    reveal_strlit("json");
    reveal_strlit("longblob");
    reveal_strlit("longtext");
    reveal_strlit("mediumblob");
    reveal_strlit("mediumtext");
    reveal_strlit("numeric");
    reveal_strlit("real");
    reveal_strlit("smallint");
    reveal_strlit("text");
    reveal_strlit("timestamp");
    reveal_strlit("tinyblob");
    reveal_strlit("tinyint");
    reveal_strlit("tinytext");
    reveal_strlit("varbinary");
    reveal_strlit("varchar");
    reveal_strlit("unsigned");
    reveal_strlit("signed");
    reveal_strlit("binary");
    reveal_strlit("");
    reveal_strlit("enum");
    reveal_with_fuel(run_end, 2);
    lemma_digits_in(seq!['D', 'E', 'C', 'I', 'M', 'A', 'L', '('], m as nat, seq![')']);
    lemma_tag_nc_mismatch(s, 0, "tinyint"@, 0);
    lemma_tag_nc_mismatch(s, 0, "bigint"@, 0);
    lemma_tag_nc_mismatch(s, 0, "integer"@, 0);
    lemma_tag_nc_mismatch(s, 0, "int"@, 0);
    lemma_tag_nc_mismatch(s, 0, "smallint"@, 0);
    assert(spec_int_types(s, 0) is NoMatch);
    lemma_tag_nc_mismatch(s, 0, "bool"@, 0);
    assert(plain_type(s, 0, "bool"@, DataTypeView::Bool) is NoMatch);
    lemma_tag_nc_mismatch(s, 0, "char"@, 0);
    assert(spec_kw_len(s, 0, "char"@, "binary"@) is NoMatch);
    lemma_tag_nc_mismatch(s, 0, "datetime"@, 1);
    assert(spec_datetime(s, 0) is NoMatch);
    lemma_tag_nc_mismatch(s, 0, "date"@, 1);
    assert(plain_type(s, 0, "date"@, DataTypeView::Date) is NoMatch);
    lemma_tag_nc_mismatch(s, 0, "double"@, 1);
    assert(signed_type(s, 0, "double"@, DataTypeView::Double) is NoMatch);
    lemma_tag_nc_mismatch(s, 0, "enum"@, 0);
    assert(spec_enum_type(s, 0) is NoMatch);
    lemma_tag_nc_mismatch(s, 0, "float"@, 0);
    assert(spec_float_type(s, 0) is NoMatch);
    lemma_tag_nc_mismatch(s, 0, "real"@, 0);
    assert(signed_type(s, 0, "real"@, DataTypeView::Real) is NoMatch);
    lemma_tag_nc_mismatch(s, 0, "text"@, 0);
    assert(plain_type(s, 0, "text"@, DataTypeView::Text) is NoMatch);
    lemma_tag_nc_mismatch(s, 0, "json"@, 0);
    assert(plain_type(s, 0, "json"@, DataTypeView::Json) is NoMatch);
    lemma_tag_nc_mismatch(s, 0, "timestamp"@, 0);
    assert(spec_timestamp(s, 0) is NoMatch);
    lemma_tag_nc_mismatch(s, 0, "varchar"@, 0);
    assert(spec_kw_len(s, 0, "varchar"@, "binary"@) is NoMatch);
    assert(has_tag_nc(s, 0, "decimal"@)) by {
        assert forall|j: int| 0 <= j < 7 implies #[trigger] eq_no_case(s[0 + j], "decimal"@[j]) by {
            if j == 0 {} else if j == 1 {} else if j == 2 {} else if j == 3 {} else if j == 4 {} else if j == 5 {} else if j == 6 {}
        }
    }
    lemma_decimal_no_scale_part(m);
    assert(spec_type_first_half(s, 0) == Parsed::Done(s.len() as int, t));
    reveal(spec_type_identifier);
}

#[verifier::spinoff_prover]
#[verifier::rlimit(40)]
proof fn lemma_type_word_bool(w: Seq<char>)
    requires
        spelled(w, "bool"@),
    ensures
        spec_type_identifier(w, 0) == Parsed::Done(
            w.len() as int,
            DataTypeView::Bool,
        ),
{
    let t = DataTypeView::Bool;
    let s = w;
    reveal_strlit("bigint");
    reveal_strlit("binary");
    reveal_strlit("blob");
    reveal_strlit("bool");
    reveal_strlit("char");
    reveal_strlit("date");
    reveal_strlit("datetime");
    reveal_strlit("decimal");
    reveal_strlit("double");
    reveal_strlit("enum");
    reveal_strlit("float");
    reveal_strlit("int");
    reveal_strlit("integer");
    reveal_strlit("json");
    reveal_strlit("longblob");
    reveal_strlit("longtext");
    reveal_strlit("mediumblob");
    reveal_strlit("mediumtext");
    reveal_strlit("numeric");
    reveal_strlit("real");
    reveal_strlit("smallint");
    reveal_strlit("text");
    reveal_strlit("timestamp");
    reveal_strlit("tinyblob");
    reveal_strlit("tinyint");
    reveal_strlit("tinytext");
    reveal_strlit("varbinary");
    reveal_strlit("varchar");
    reveal_strlit("unsigned");
    reveal_strlit("signed");
    reveal_strlit("binary");
    reveal_strlit("");
    reveal_strlit("enum");
    reveal_with_fuel(run_end, 2);
    assert(eq_no_case(w[0], "bool"@[0]) && eq_no_case(w[1], "bool"@[1]) && eq_no_case(w[2], "bool"@[2]) && eq_no_case(w[3], "bool"@[3]));
    assert(w.subrange(0, w.len() as int) =~= w);
    lemma_tag_nc_mismatch(s, 0, "tinyint"@, 0);
    lemma_tag_nc_mismatch(s, 0, "bigint"@, 1);
    lemma_tag_nc_mismatch(s, 0, "integer"@, 0);
    lemma_tag_nc_mismatch(s, 0, "int"@, 0);
    lemma_tag_nc_mismatch(s, 0, "smallint"@, 0);
    assert(spec_int_types(s, 0) is NoMatch);
    lemma_spelled_tag(w, 0, w, "bool"@);
    assert(plain_type(s, 0, "bool"@, DataTypeView::Bool) == Parsed::Done(s.len() as int, t));
    assert(spec_type_first_half(s, 0) == Parsed::Done(s.len() as int, t));
    reveal(spec_type_identifier);
}

#[verifier::spinoff_prover]
#[verifier::rlimit(40)]
proof fn lemma_type_word_blob(w: Seq<char>)
    requires
        spelled(w, "blob"@),
    ensures
        spec_type_identifier(w, 0) == Parsed::Done(
            w.len() as int,
            DataTypeView::Blob,
        ),
{
    let t = DataTypeView::Blob;
    let s = w;
    reveal_strlit("bigint");
    reveal_strlit("binary");
    reveal_strlit("blob");
    reveal_strlit("bool");
    reveal_strlit("char");
    reveal_strlit("date");
    reveal_strlit("datetime");
    reveal_strlit("decimal");
    reveal_strlit("double");
    reveal_strlit("enum");
    reveal_strlit("float");
    reveal_strlit("int");
    reveal_strlit("integer");
    reveal_strlit("json");
    reveal_strlit("longblob");
    reveal_strlit("longtext");
    reveal_strlit("mediumblob");
    reveal_strlit("mediumtext");
    reveal_strlit("numeric");
    reveal_strlit("real");
    reveal_strlit("smallint");
    reveal_strlit("text");
    reveal_strlit("timestamp");
    reveal_strlit("tinyblob");
    reveal_strlit("tinyint");
    reveal_strlit("tinytext");
    reveal_strlit("varbinary");
    reveal_strlit("varchar");
    reveal_strlit("unsigned");
    reveal_strlit("signed");
    reveal_strlit("binary");
    reveal_strlit("");
    reveal_strlit("enum");
    reveal_with_fuel(run_end, 2);
    assert(eq_no_case(w[0], "blob"@[0]) && eq_no_case(w[1], "blob"@[1]) && eq_no_case(w[2], "blob"@[2]) && eq_no_case(w[3], "blob"@[3]));
    assert(w.subrange(0, w.len() as int) =~= w);
    lemma_tag_nc_mismatch(s, 0, "tinyint"@, 0);
    lemma_tag_nc_mismatch(s, 0, "bigint"@, 1);
    lemma_tag_nc_mismatch(s, 0, "integer"@, 0);
    lemma_tag_nc_mismatch(s, 0, "int"@, 0);
    lemma_tag_nc_mismatch(s, 0, "smallint"@, 0);
    assert(spec_int_types(s, 0) is NoMatch);
    lemma_tag_nc_mismatch(s, 0, "bool"@, 1);
    assert(plain_type(s, 0, "bool"@, DataTypeView::Bool) is NoMatch);
    lemma_tag_nc_mismatch(s, 0, "char"@, 0);
    assert(spec_kw_len(s, 0, "char"@, "binary"@) is NoMatch);
    lemma_tag_nc_mismatch(s, 0, "datetime"@, 0);
    assert(spec_datetime(s, 0) is NoMatch);
    lemma_tag_nc_mismatch(s, 0, "date"@, 0);
    assert(plain_type(s, 0, "date"@, DataTypeView::Date) is NoMatch);
    lemma_tag_nc_mismatch(s, 0, "double"@, 0);
    assert(signed_type(s, 0, "double"@, DataTypeView::Double) is NoMatch);
    lemma_tag_nc_mismatch(s, 0, "enum"@, 0);
    assert(spec_enum_type(s, 0) is NoMatch);
    lemma_tag_nc_mismatch(s, 0, "float"@, 0);
    assert(spec_float_type(s, 0) is NoMatch);
    lemma_tag_nc_mismatch(s, 0, "real"@, 0);
    assert(signed_type(s, 0, "real"@, DataTypeView::Real) is NoMatch);
    lemma_tag_nc_mismatch(s, 0, "text"@, 0);
    assert(plain_type(s, 0, "text"@, DataTypeView::Text) is NoMatch);
    lemma_tag_nc_mismatch(s, 0, "json"@, 0);
    assert(plain_type(s, 0, "json"@, DataTypeView::Json) is NoMatch);
    lemma_tag_nc_mismatch(s, 0, "timestamp"@, 0);
    assert(spec_timestamp(s, 0) is NoMatch);
    lemma_tag_nc_mismatch(s, 0, "varchar"@, 0);
    assert(spec_kw_len(s, 0, "varchar"@, "binary"@) is NoMatch);
    lemma_tag_nc_mismatch(s, 0, "decimal"@, 0);
    lemma_tag_nc_mismatch(s, 0, "numeric"@, 0);
    assert(spec_decimal(s, 0) is NoMatch);
    lemma_tag_nc_mismatch(s, 0, "binary"@, 1);
    assert(spec_kw_len(s, 0, "binary"@, ""@) is NoMatch);
    lemma_spelled_tag(w, 0, w, "blob"@);
    assert(plain_type(s, 0, "blob"@, DataTypeView::Blob) == Parsed::Done(s.len() as int, t));
    assert(spec_type_first_half(s, 0) is NoMatch);
    assert(spec_type_second_half(s, 0) == Parsed::Done(s.len() as int, t));
    reveal(spec_type_identifier);
}

#[verifier::spinoff_prover]
#[verifier::rlimit(40)]
proof fn lemma_type_word_longblob(w: Seq<char>)
    requires
        spelled(w, "longblob"@),
    ensures
        spec_type_identifier(w, 0) == Parsed::Done(
            w.len() as int,
            DataTypeView::Longblob,
        ),
{
    let t = DataTypeView::Longblob;
    let s = w;
    reveal_strlit("bigint");
    reveal_strlit("binary");
    reveal_strlit("blob");
    reveal_strlit("bool");
    reveal_strlit("char");
    reveal_strlit("date");
    reveal_strlit("datetime");
    reveal_strlit("decimal");
    reveal_strlit("double");
    reveal_strlit("enum");
    reveal_strlit("float");
    reveal_strlit("int");
    reveal_strlit("integer");
    reveal_strlit("json");
    reveal_strlit("longblob");
    reveal_strlit("longtext");
    reveal_strlit("mediumblob");
    reveal_strlit("mediumtext");
    reveal_strlit("numeric");
    reveal_strlit("real");
    reveal_strlit("smallint");
    reveal_strlit("text");
    reveal_strlit("timestamp");
    reveal_strlit("tinyblob");
    reveal_strlit("tinyint");
    reveal_strlit("tinytext");
    reveal_strlit("varbinary");
    reveal_strlit("varchar");
    reveal_strlit("unsigned");
    reveal_strlit("signed");
    reveal_strlit("binary");
    reveal_strlit("");
    reveal_strlit("enum");
    reveal_with_fuel(run_end, 2);
    assert(eq_no_case(w[0], "longblob"@[0]) && eq_no_case(w[1], "longblob"@[1]) && eq_no_case(w[2], "longblob"@[2]) && eq_no_case(w[3], "longblob"@[3]) && eq_no_case(w[4], "longblob"@[4]) && eq_no_case(w[5], "longblob"@[5]) && eq_no_case(w[6], "longblob"@[6]) && eq_no_case(w[7], "longblob"@[7]));
    assert(w.subrange(0, w.len() as int) =~= w);
    lemma_tag_nc_mismatch(s, 0, "tinyint"@, 0);
    lemma_tag_nc_mismatch(s, 0, "bigint"@, 0);
    lemma_tag_nc_mismatch(s, 0, "integer"@, 0);
    lemma_tag_nc_mismatch(s, 0, "int"@, 0);
    lemma_tag_nc_mismatch(s, 0, "smallint"@, 0);
    assert(spec_int_types(s, 0) is NoMatch);
    lemma_tag_nc_mismatch(s, 0, "bool"@, 0);
    assert(plain_type(s, 0, "bool"@, DataTypeView::Bool) is NoMatch);
    lemma_tag_nc_mismatch(s, 0, "char"@, 0);
    assert(spec_kw_len(s, 0, "char"@, "binary"@) is NoMatch);
    lemma_tag_nc_mismatch(s, 0, "datetime"@, 0);
    assert(spec_datetime(s, 0) is NoMatch);
    lemma_tag_nc_mismatch(s, 0, "date"@, 0);
    assert(plain_type(s, 0, "date"@, DataTypeView::Date) is NoMatch);
    lemma_tag_nc_mismatch(s, 0, "double"@, 0);
    assert(signed_type(s, 0, "double"@, DataTypeView::Double) is NoMatch);
    lemma_tag_nc_mismatch(s, 0, "enum"@, 0);
    assert(spec_enum_type(s, 0) is NoMatch);
    lemma_tag_nc_mismatch(s, 0, "float"@, 0);
    assert(spec_float_type(s, 0) is NoMatch);
    lemma_tag_nc_mismatch(s, 0, "real"@, 0);
    assert(signed_type(s, 0, "real"@, DataTypeView::Real) is NoMatch);
    lemma_tag_nc_mismatch(s, 0, "text"@, 0);
    assert(plain_type(s, 0, "text"@, DataTypeView::Text) is NoMatch);
    lemma_tag_nc_mismatch(s, 0, "json"@, 0);
    assert(plain_type(s, 0, "json"@, DataTypeView::Json) is NoMatch);
    lemma_tag_nc_mismatch(s, 0, "timestamp"@, 0);
    assert(spec_timestamp(s, 0) is NoMatch);
    lemma_tag_nc_mismatch(s, 0, "varchar"@, 0);
    assert(spec_kw_len(s, 0, "varchar"@, "binary"@) is NoMatch);
    lemma_tag_nc_mismatch(s, 0, "decimal"@, 0);
    lemma_tag_nc_mismatch(s, 0, "numeric"@, 0);
    assert(spec_decimal(s, 0) is NoMatch);
    lemma_tag_nc_mismatch(s, 0, "binary"@, 0);
    assert(spec_kw_len(s, 0, "binary"@, ""@) is NoMatch);
    lemma_tag_nc_mismatch(s, 0, "blob"@, 0);
    assert(plain_type(s, 0, "blob"@, DataTypeView::Blob) is NoMatch);
    lemma_spelled_tag(w, 0, w, "longblob"@);
    assert(plain_type(s, 0, "longblob"@, DataTypeView::Longblob) == Parsed::Done(s.len() as int, t));
    assert(spec_type_first_half(s, 0) is NoMatch);
    assert(spec_type_second_half(s, 0) == Parsed::Done(s.len() as int, t));
    reveal(spec_type_identifier);
}

#[verifier::spinoff_prover]
#[verifier::rlimit(40)]
proof fn lemma_type_word_mediumblob(w: Seq<char>)
    requires
        spelled(w, "mediumblob"@),
    ensures
        spec_type_identifier(w, 0) == Parsed::Done(
            w.len() as int,
            DataTypeView::Mediumblob,
        ),
{
    let t = DataTypeView::Mediumblob;
    let s = w;
    reveal_strlit("bigint");
    reveal_strlit("binary");
    reveal_strlit("blob");
    reveal_strlit("bool");
    reveal_strlit("char");
    reveal_strlit("date");
    reveal_strlit("datetime");
    reveal_strlit("decimal");
    reveal_strlit("double");
    reveal_strlit("enum");
    reveal_strlit("float");
    reveal_strlit("int");
    reveal_strlit("integer");
    reveal_strlit("json");
    reveal_strlit("longblob");
    reveal_strlit("longtext");
    reveal_strlit("mediumblob");
    reveal_strlit("mediumtext");
    reveal_strlit("numeric");
    reveal_strlit("real");
    reveal_strlit("smallint");
    reveal_strlit("text");
    reveal_strlit("timestamp");
    reveal_strlit("tinyblob");
    reveal_strlit("tinyint");
    reveal_strlit("tinytext");
    reveal_strlit("varbinary");
    reveal_strlit("varchar");
    reveal_strlit("unsigned");
    reveal_strlit("signed");
    reveal_strlit("binary");
    reveal_strlit("");
    reveal_strlit("enum");
    reveal_with_fuel(run_end, 2);
    assert(eq_no_case(w[0], "mediumblob"@[0]) && eq_no_case(w[1], "mediumblob"@[1]) && eq_no_case(w[2], "mediumblob"@[2]) && eq_no_case(w[3], "mediumblob"@[3]) && eq_no_case(w[4], "mediumblob"@[4]) && eq_no_case(w[5], "mediumblob"@[5]) && eq_no_case(w[6], "mediumblob"@[6]) && eq_no_case(w[7], "mediumblob"@[7]) && eq_no_case(w[8], "mediumblob"@[8]) && eq_no_case(w[9], "mediumblob"@[9]));
    assert(w.subrange(0, w.len() as int) =~= w);
    lemma_tag_nc_mismatch(s, 0, "tinyint"@, 0);
    lemma_tag_nc_mismatch(s, 0, "bigint"@, 0);
    lemma_tag_nc_mismatch(s, 0, "integer"@, 0);
    lemma_tag_nc_mismatch(s, 0, "int"@, 0);
    lemma_tag_nc_mismatch(s, 0, "smallint"@, 0);
    assert(spec_int_types(s, 0) is NoMatch);
    lemma_tag_nc_mismatch(s, 0, "bool"@, 0);
    assert(plain_type(s, 0, "bool"@, DataTypeView::Bool) is NoMatch);
    lemma_tag_nc_mismatch(s, 0, "char"@, 0);
    assert(spec_kw_len(s, 0, "char"@, "binary"@) is NoMatch);
    lemma_tag_nc_mismatch(s, 0, "datetime"@, 0);
    assert(spec_datetime(s, 0) is NoMatch);
    lemma_tag_nc_mismatch(s, 0, "date"@, 0);
    assert(plain_type(s, 0, "date"@, DataTypeView::Date) is NoMatch);
    lemma_tag_nc_mismatch(s, 0, "double"@, 0);
    assert(signed_type(s, 0, "double"@, DataTypeView::Double) is NoMatch);
    lemma_tag_nc_mismatch(s, 0, "enum"@, 0);
    assert(spec_enum_type(s, 0) is NoMatch);
    lemma_tag_nc_mismatch(s, 0, "float"@, 0);
    assert(spec_float_type(s, 0) is NoMatch);
    lemma_tag_nc_mismatch(s, 0, "real"@, 0);
    assert(signed_type(s, 0, "real"@, DataTypeView::Real) is NoMatch);
    lemma_tag_nc_mismatch(s, 0, "text"@, 0);
    assert(plain_type(s, 0, "text"@, DataTypeView::Text) is NoMatch);
    lemma_tag_nc_mismatch(s, 0, "json"@, 0);
    assert(plain_type(s, 0, "json"@, DataTypeView::Json) is NoMatch);
    lemma_tag_nc_mismatch(s, 0, "timestamp"@, 0);
    assert(spec_timestamp(s, 0) is NoMatch);
    lemma_tag_nc_mismatch(s, 0, "varchar"@, 0);
    assert(spec_kw_len(s, 0, "varchar"@, "binary"@) is NoMatch);
    lemma_tag_nc_mismatch(s, 0, "decimal"@, 0);
    lemma_tag_nc_mismatch(s, 0, "numeric"@, 0);
    assert(spec_decimal(s, 0) is NoMatch);
    lemma_tag_nc_mismatch(s, 0, "binary"@, 0);
    assert(spec_kw_len(s, 0, "binary"@, ""@) is NoMatch);
    lemma_tag_nc_mismatch(s, 0, "blob"@, 0);
    assert(plain_type(s, 0, "blob"@, DataTypeView::Blob) is NoMatch);
    lemma_tag_nc_mismatch(s, 0, "longblob"@, 0);
    assert(plain_type(s, 0, "longblob"@, DataTypeView::Longblob) is NoMatch);
    lemma_spelled_tag(w, 0, w, "mediumblob"@);
    assert(plain_type(s, 0, "mediumblob"@, DataTypeView::Mediumblob) == Parsed::Done(s.len() as int, t));
    assert(spec_type_first_half(s, 0) is NoMatch);
    assert(spec_type_second_half(s, 0) == Parsed::Done(s.len() as int, t));
    reveal(spec_type_identifier);
}

#[verifier::spinoff_prover]
#[verifier::rlimit(40)]
proof fn lemma_type_word_tinyblob(w: Seq<char>)
    requires
        spelled(w, "tinyblob"@),
    ensures
        spec_type_identifier(w, 0) == Parsed::Done(
            w.len() as int,
            DataTypeView::Tinyblob,
        ),
{
    let t = DataTypeView::Tinyblob;
    let s = w;
    reveal_strlit("bigint");
    reveal_strlit("binary");
    reveal_strlit("blob");
    reveal_strlit("bool");
    reveal_strlit("char");
    reveal_strlit("date");
    reveal_strlit("datetime");
    reveal_strlit("decimal");
    reveal_strlit("double");
    reveal_strlit("enum");
    reveal_strlit("float");
    reveal_strlit("int");
    reveal_strlit("integer");
    reveal_strlit("json");
    reveal_strlit("longblob");
    reveal_strlit("longtext");
    reveal_strlit("mediumblob");
    reveal_strlit("mediumtext");
    reveal_strlit("numeric");
    reveal_strlit("real");
    reveal_strlit("smallint");
    reveal_strlit("text");
    reveal_strlit("timestamp");
    reveal_strlit("tinyblob");
    reveal_strlit("tinyint");
    reveal_strlit("tinytext");
    reveal_strlit("varbinary");
    reveal_strlit("varchar");
    reveal_strlit("unsigned");
    reveal_strlit("signed");
    reveal_strlit("binary");
    reveal_strlit("");
    reveal_strlit("enum");
    reveal_with_fuel(run_end, 2);
    assert(eq_no_case(w[0], "tinyblob"@[0]) && eq_no_case(w[1], "tinyblob"@[1]) && eq_no_case(w[2], "tinyblob"@[2]) && eq_no_case(w[3], "tinyblob"@[3]) && eq_no_case(w[4], "tinyblob"@[4]) && eq_no_case(w[5], "tinyblob"@[5]) && eq_no_case(w[6], "tinyblob"@[6]) && eq_no_case(w[7], "tinyblob"@[7]));
    assert(w.subrange(0, w.len() as int) =~= w);
    lemma_tag_nc_mismatch(s, 0, "tinyint"@, 4);
    lemma_tag_nc_mismatch(s, 0, "bigint"@, 0);
    lemma_tag_nc_mismatch(s, 0, "integer"@, 0);
    lemma_tag_nc_mismatch(s, 0, "int"@, 0);
    lemma_tag_nc_mismatch(s, 0, "smallint"@, 0);
    assert(spec_int_types(s, 0) is NoMatch);
    lemma_tag_nc_mismatch(s, 0, "bool"@, 0);
    assert(plain_type(s, 0, "bool"@, DataTypeView::Bool) is NoMatch);
    lemma_tag_nc_mismatch(s, 0, "char"@, 0);
    assert(spec_kw_len(s, 0, "char"@, "binary"@) is NoMatch);
    lemma_tag_nc_mismatch(s, 0, "datetime"@, 0);
    assert(spec_datetime(s, 0) is NoMatch);
    lemma_tag_nc_mismatch(s, 0, "date"@, 0);
    assert(plain_type(s, 0, "date"@, DataTypeView::Date) is NoMatch);
    lemma_tag_nc_mismatch(s, 0, "double"@, 0);
    assert(signed_type(s, 0, "double"@, DataTypeView::Double) is NoMatch);
    lemma_tag_nc_mismatch(s, 0, "enum"@, 0);
    assert(spec_enum_type(s, 0) is NoMatch);
    lemma_tag_nc_mismatch(s, 0, "float"@, 0);
    assert(spec_float_type(s, 0) is NoMatch);
    lemma_tag_nc_mismatch(s, 0, "real"@, 0);
    assert(signed_type(s, 0, "real"@, DataTypeView::Real) is NoMatch);
    lemma_tag_nc_mismatch(s, 0, "text"@, 1);
    assert(plain_type(s, 0, "text"@, DataTypeView::Text) is NoMatch);
    lemma_tag_nc_mismatch(s, 0, "json"@, 0);
    assert(plain_type(s, 0, "json"@, DataTypeView::Json) is NoMatch);
    lemma_tag_nc_mismatch(s, 0, "timestamp"@, 2);
    assert(spec_timestamp(s, 0) is NoMatch);
    lemma_tag_nc_mismatch(s, 0, "varchar"@, 0);
    assert(spec_kw_len(s, 0, "varchar"@, "binary"@) is NoMatch);
    lemma_tag_nc_mismatch(s, 0, "decimal"@, 0);
    lemma_tag_nc_mismatch(s, 0, "numeric"@, 0);
    assert(spec_decimal(s, 0) is NoMatch);
    lemma_tag_nc_mismatch(s, 0, "binary"@, 0);
    assert(spec_kw_len(s, 0, "binary"@, ""@) is NoMatch);
    lemma_tag_nc_mismatch(s, 0, "blob"@, 0);
    assert(plain_type(s, 0, "blob"@, DataTypeView::Blob) is NoMatch);
    lemma_tag_nc_mismatch(s, 0, "longblob"@, 0);
    assert(plain_type(s, 0, "longblob"@, DataTypeView::Longblob) is NoMatch);
    lemma_tag_nc_mismatch(s, 0, "mediumblob"@, 0);
    assert(plain_type(s, 0, "mediumblob"@, DataTypeView::Mediumblob) is NoMatch);
    lemma_tag_nc_mismatch(s, 0, "mediumtext"@, 0);
    assert(plain_type(s, 0, "mediumtext"@, DataTypeView::Mediumtext) is NoMatch);
    lemma_tag_nc_mismatch(s, 0, "longtext"@, 0);
    assert(plain_type(s, 0, "longtext"@, DataTypeView::Longtext) is NoMatch);
    lemma_spelled_tag(w, 0, w, "tinyblob"@);
    assert(plain_type(s, 0, "tinyblob"@, DataTypeView::Tinyblob) == Parsed::Done(s.len() as int, t));
    assert(spec_type_first_half(s, 0) is NoMatch);
    assert(spec_type_second_half(s, 0) == Parsed::Done(s.len() as int, t));
    reveal(spec_type_identifier);
}

#[verifier::spinoff_prover]
#[verifier::rlimit(40)]
proof fn lemma_type_word_double(w: Seq<char>)
    requires
        spelled(w, "double"@),
    ensures
        spec_type_identifier(w, 0) == Parsed::Done(
            w.len() as int,
            DataTypeView::Double,
        ),
{
    let t = DataTypeView::Double;
    let s = w;
    reveal_strlit("bigint");
    reveal_strlit("binary");
    reveal_strlit("blob");
    reveal_strlit("bool");
    reveal_strlit("char");
    reveal_strlit("date");
    reveal_strlit("datetime");
    reveal_strlit("decimal");
    reveal_strlit("double");
    reveal_strlit("enum");
    reveal_strlit("float");
    reveal_strlit("int");
    reveal_strlit("integer");
    reveal_strlit("json");
    reveal_strlit("longblob");
    reveal_strlit("longtext");
    reveal_strlit("mediumblob");
    reveal_strlit("mediumtext");
    reveal_strlit("numeric");
    reveal_strlit("real");
    reveal_strlit("smallint");
    reveal_strlit("text");
    reveal_strlit("timestamp");
    reveal_strlit("tinyblob");
    reveal_strlit("tinyint");
    reveal_strlit("tinytext");
    reveal_strlit("varbinary");
    reveal_strlit("varchar");
    reveal_strlit("unsigned");
    reveal_strlit("signed");
    reveal_strlit("binary");
    reveal_strlit("");
    reveal_strlit("enum");
    reveal_with_fuel(run_end, 2);
    assert(eq_no_case(w[0], "double"@[0]) && eq_no_case(w[1], "double"@[1]) && eq_no_case(w[2], "double"@[2]) && eq_no_case(w[3], "double"@[3]) && eq_no_case(w[4], "double"@[4]) && eq_no_case(w[5], "double"@[5]));
    assert(w.subrange(0, w.len() as int) =~= w);
    lemma_tag_nc_mismatch(s, 0, "tinyint"@, 0);
    lemma_tag_nc_mismatch(s, 0, "bigint"@, 0);
    lemma_tag_nc_mismatch(s, 0, "integer"@, 0);
    lemma_tag_nc_mismatch(s, 0, "int"@, 0);
    lemma_tag_nc_mismatch(s, 0, "smallint"@, 0);
    assert(spec_int_types(s, 0) is NoMatch);
    lemma_tag_nc_mismatch(s, 0, "bool"@, 0);
    assert(plain_type(s, 0, "bool"@, DataTypeView::Bool) is NoMatch);
    lemma_tag_nc_mismatch(s, 0, "char"@, 0);
    assert(spec_kw_len(s, 0, "char"@, "binary"@) is NoMatch);
    lemma_tag_nc_mismatch(s, 0, "datetime"@, 1);
    assert(spec_datetime(s, 0) is NoMatch);
    lemma_tag_nc_mismatch(s, 0, "date"@, 1);
    assert(plain_type(s, 0, "date"@, DataTypeView::Date) is NoMatch);
    lemma_spelled_tag(w, 0, w, "double"@);
    assert(signed_type(s, 0, "double"@, DataTypeView::Double) == Parsed::Done(s.len() as int, t));
    assert(spec_type_first_half(s, 0) == Parsed::Done(s.len() as int, t));
    reveal(spec_type_identifier);
}

#[verifier::spinoff_prover]
#[verifier::rlimit(40)]
proof fn lemma_type_word_float(w: Seq<char>)
    requires
        spelled(w, "float"@),
    ensures
        spec_type_identifier(w, 0) == Parsed::Done(
            w.len() as int,
            DataTypeView::Float,
        ),
{
    let t = DataTypeView::Float;
    let s = w;
    reveal_strlit("bigint");
    reveal_strlit("binary");
    reveal_strlit("blob");
    reveal_strlit("bool");
    reveal_strlit("char");
    reveal_strlit("date");
    reveal_strlit("datetime");
    reveal_strlit("decimal");
    reveal_strlit("double");
    reveal_strlit("enum");
    reveal_strlit("float");
    reveal_strlit("int");
    reveal_strlit("integer");
    reveal_strlit("json");
    reveal_strlit("longblob");
    reveal_strlit("longtext");
    reveal_strlit("mediumblob");
    reveal_strlit("mediumtext");
    reveal_strlit("numeric");
    reveal_strlit("real");
    reveal_strlit("smallint");
    reveal_strlit("text");
    reveal_strlit("timestamp");
    reveal_strlit("tinyblob");
    reveal_strlit("tinyint");
    reveal_strlit("tinytext");
    reveal_strlit("varbinary");
    reveal_strlit("varchar");
    reveal_strlit("unsigned");
    reveal_strlit("signed");
    reveal_strlit("binary");
    reveal_strlit("");
    reveal_strlit("enum");
    reveal_with_fuel(run_end, 2);
    assert(eq_no_case(w[0], "float"@[0]) && eq_no_case(w[1], "float"@[1]) && eq_no_case(w[2], "float"@[2]) && eq_no_case(w[3], "float"@[3]) && eq_no_case(w[4], "float"@[4]));
    assert(w.subrange(0, w.len() as int) =~= w);
    lemma_tag_nc_mismatch(s, 0, "tinyint"@, 0);
    lemma_tag_nc_mismatch(s, 0, "bigint"@, 0);
    lemma_tag_nc_mismatch(s, 0, "integer"@, 0);
    lemma_tag_nc_mismatch(s, 0, "int"@, 0);
    lemma_tag_nc_mismatch(s, 0, "smallint"@, 0);
    assert(spec_int_types(s, 0) is NoMatch);
    lemma_tag_nc_mismatch(s, 0, "bool"@, 0);
    assert(plain_type(s, 0, "bool"@, DataTypeView::Bool) is NoMatch);
    lemma_tag_nc_mismatch(s, 0, "char"@, 0);
    assert(spec_kw_len(s, 0, "char"@, "binary"@) is NoMatch);
    lemma_tag_nc_mismatch(s, 0, "datetime"@, 0);
    assert(spec_datetime(s, 0) is NoMatch);
    lemma_tag_nc_mismatch(s, 0, "date"@, 0);
    assert(plain_type(s, 0, "date"@, DataTypeView::Date) is NoMatch);
    lemma_tag_nc_mismatch(s, 0, "double"@, 0);
    assert(signed_type(s, 0, "double"@, DataTypeView::Double) is NoMatch);
    lemma_tag_nc_mismatch(s, 0, "enum"@, 0);
    assert(spec_enum_type(s, 0) is NoMatch);
    lemma_spelled_tag(w, 0, w, "float"@);
    assert(spec_float_type(s, 0) == Parsed::Done(s.len() as int, t));
    assert(spec_type_first_half(s, 0) == Parsed::Done(s.len() as int, t));
    reveal(spec_type_identifier);
}

#[verifier::spinoff_prover]
#[verifier::rlimit(40)]
proof fn lemma_type_word_real(w: Seq<char>)
    requires
        spelled(w, "real"@),
    ensures
        spec_type_identifier(w, 0) == Parsed::Done(
            w.len() as int,
            DataTypeView::Real,
        ),
{
    let t = DataTypeView::Real;
    let s = w;
    reveal_strlit("bigint");
    reveal_strlit("binary");
    reveal_strlit("blob");
    reveal_strlit("bool");
    reveal_strlit("char");
    reveal_strlit("date");
    reveal_strlit("datetime");
    reveal_strlit("decimal");
    reveal_strlit("double");
    reveal_strlit("enum");
    reveal_strlit("float");
    reveal_strlit("int");
    reveal_strlit("integer");
    reveal_strlit("json");
    reveal_strlit("longblob");
    reveal_strlit("longtext");
    reveal_strlit("mediumblob");
    reveal_strlit("mediumtext");
    reveal_strlit("numeric");
    reveal_strlit("real");
    reveal_strlit("smallint");
    reveal_strlit("text");
    reveal_strlit("timestamp");
    reveal_strlit("tinyblob");
    reveal_strlit("tinyint");
    reveal_strlit("tinytext");
    reveal_strlit("varbinary");
    reveal_strlit("varchar");
    reveal_strlit("unsigned");
    reveal_strlit("signed");
    reveal_strlit("binary");
    reveal_strlit("");
    reveal_strlit("enum");
    reveal_with_fuel(run_end, 2);
    assert(eq_no_case(w[0], "real"@[0]) && eq_no_case(w[1], "real"@[1]) && eq_no_case(w[2], "real"@[2]) && eq_no_case(w[3], "real"@[3]));
    assert(w.subrange(0, w.len() as int) =~= w);
    lemma_tag_nc_mismatch(s, 0, "tinyint"@, 0);
    lemma_tag_nc_mismatch(s, 0, "bigint"@, 0);
    lemma_tag_nc_mismatch(s, 0, "integer"@, 0);
    lemma_tag_nc_mismatch(s, 0, "int"@, 0);
    lemma_tag_nc_mismatch(s, 0, "smallint"@, 0);
    assert(spec_int_types(s, 0) is NoMatch);
    lemma_tag_nc_mismatch(s, 0, "bool"@, 0);
    assert(plain_type(s, 0, "bool"@, DataTypeView::Bool) is NoMatch);
    lemma_tag_nc_mismatch(s, 0, "char"@, 0);
    assert(spec_kw_len(s, 0, "char"@, "binary"@) is NoMatch);
    lemma_tag_nc_mismatch(s, 0, "datetime"@, 0);
    assert(spec_datetime(s, 0) is NoMatch);
    lemma_tag_nc_mismatch(s, 0, "date"@, 0);
    assert(plain_type(s, 0, "date"@, DataTypeView::Date) is NoMatch);
    lemma_tag_nc_mismatch(s, 0, "double"@, 0);
    assert(signed_type(s, 0, "double"@, DataTypeView::Double) is NoMatch);
    lemma_tag_nc_mismatch(s, 0, "enum"@, 0);
    assert(spec_enum_type(s, 0) is NoMatch);
    lemma_tag_nc_mismatch(s, 0, "float"@, 0);
    assert(spec_float_type(s, 0) is NoMatch);
    lemma_spelled_tag(w, 0, w, "real"@);
    assert(signed_type(s, 0, "real"@, DataTypeView::Real) == Parsed::Done(s.len() as int, t));
    assert(spec_type_first_half(s, 0) == Parsed::Done(s.len() as int, t));
    reveal(spec_type_identifier);
}

#[verifier::spinoff_prover]
#[verifier::rlimit(40)]
proof fn lemma_type_word_tinytext(w: Seq<char>)
    requires
        spelled(w, "tinytext"@),
    ensures
        spec_type_identifier(w, 0) == Parsed::Done(
            w.len() as int,
            DataTypeView::Tinytext,
        ),
{
    let t = DataTypeView::Tinytext;
    let s = w;
    reveal_strlit("bigint");
    reveal_strlit("binary");
    reveal_strlit("blob");
    reveal_strlit("bool");
    reveal_strlit("char");
    reveal_strlit("date");
    reveal_strlit("datetime");
    reveal_strlit("decimal");
    reveal_strlit("double");
    reveal_strlit("enum");
    reveal_strlit("float");
    reveal_strlit("int");
    reveal_strlit("integer");
    reveal_strlit("json");
    reveal_strlit("longblob");
    reveal_strlit("longtext");
    reveal_strlit("mediumblob");
    reveal_strlit("mediumtext");
    reveal_strlit("numeric");
    reveal_strlit("real");
    reveal_strlit("smallint");
    reveal_strlit("text");
    reveal_strlit("timestamp");
    reveal_strlit("tinyblob");
    reveal_strlit("tinyint");
    reveal_strlit("tinytext");
    reveal_strlit("varbinary");
    reveal_strlit("varchar");
    reveal_strlit("unsigned");
    reveal_strlit("signed");
    reveal_strlit("binary");
    reveal_strlit("");
    reveal_strlit("enum");
    reveal_with_fuel(run_end, 2);
    assert(eq_no_case(w[0], "tinytext"@[0]) && eq_no_case(w[1], "tinytext"@[1]) && eq_no_case(w[2], "tinytext"@[2]) && eq_no_case(w[3], "tinytext"@[3]) && eq_no_case(w[4], "tinytext"@[4]) && eq_no_case(w[5], "tinytext"@[5]) && eq_no_case(w[6], "tinytext"@[6]) && eq_no_case(w[7], "tinytext"@[7]));
    assert(w.subrange(0, w.len() as int) =~= w);
    lemma_tag_nc_mismatch(s, 0, "tinyint"@, 4);
    lemma_tag_nc_mismatch(s, 0, "bigint"@, 0);
    lemma_tag_nc_mismatch(s, 0, "integer"@, 0);
    lemma_tag_nc_mismatch(s, 0, "int"@, 0);
    lemma_tag_nc_mismatch(s, 0, "smallint"@, 0);
    assert(spec_int_types(s, 0) is NoMatch);
    lemma_tag_nc_mismatch(s, 0, "bool"@, 0);
    assert(plain_type(s, 0, "bool"@, DataTypeView::Bool) is NoMatch);
    lemma_tag_nc_mismatch(s, 0, "char"@, 0);
    assert(spec_kw_len(s, 0, "char"@, "binary"@) is NoMatch);
    lemma_tag_nc_mismatch(s, 0, "datetime"@, 0);
    assert(spec_datetime(s, 0) is NoMatch);
    lemma_tag_nc_mismatch(s, 0, "date"@, 0);
    assert(plain_type(s, 0, "date"@, DataTypeView::Date) is NoMatch);
    lemma_tag_nc_mismatch(s, 0, "double"@, 0);
    assert(signed_type(s, 0, "double"@, DataTypeView::Double) is NoMatch);
    lemma_tag_nc_mismatch(s, 0, "enum"@, 0);
    assert(spec_enum_type(s, 0) is NoMatch);
    lemma_tag_nc_mismatch(s, 0, "float"@, 0);
    assert(spec_float_type(s, 0) is NoMatch);
    lemma_tag_nc_mismatch(s, 0, "real"@, 0);
    assert(signed_type(s, 0, "real"@, DataTypeView::Real) is NoMatch);
    lemma_tag_nc_mismatch(s, 0, "text"@, 1);
    assert(plain_type(s, 0, "text"@, DataTypeView::Text) is NoMatch);
    lemma_tag_nc_mismatch(s, 0, "json"@, 0);
    assert(plain_type(s, 0, "json"@, DataTypeView::Json) is NoMatch);
    lemma_tag_nc_mismatch(s, 0, "timestamp"@, 2);
    assert(spec_timestamp(s, 0) is NoMatch);
    lemma_tag_nc_mismatch(s, 0, "varchar"@, 0);
    assert(spec_kw_len(s, 0, "varchar"@, "binary"@) is NoMatch);
    lemma_tag_nc_mismatch(s, 0, "decimal"@, 0);
    lemma_tag_nc_mismatch(s, 0, "numeric"@, 0);
    assert(spec_decimal(s, 0) is NoMatch);
    lemma_tag_nc_mismatch(s, 0, "binary"@, 0);
    assert(spec_kw_len(s, 0, "binary"@, ""@) is NoMatch);
    lemma_tag_nc_mismatch(s, 0, "blob"@, 0);
    assert(plain_type(s, 0, "blob"@, DataTypeView::Blob) is NoMatch);
    lemma_tag_nc_mismatch(s, 0, "longblob"@, 0);
    assert(plain_type(s, 0, "longblob"@, DataTypeView::Longblob) is NoMatch);
    lemma_tag_nc_mismatch(s, 0, "mediumblob"@, 0);
    assert(plain_type(s, 0, "mediumblob"@, DataTypeView::Mediumblob) is NoMatch);
    lemma_tag_nc_mismatch(s, 0, "mediumtext"@, 0);
    assert(plain_type(s, 0, "mediumtext"@, DataTypeView::Mediumtext) is NoMatch);
    lemma_tag_nc_mismatch(s, 0, "longtext"@, 0);
    assert(plain_type(s, 0, "longtext"@, DataTypeView::Longtext) is NoMatch);
    lemma_tag_nc_mismatch(s, 0, "tinyblob"@, 4);
    assert(plain_type(s, 0, "tinyblob"@, DataTypeView::Tinyblob) is NoMatch);
    lemma_spelled_tag(w, 0, w, "tinytext"@);
    assert(plain_type(s, 0, "tinytext"@, DataTypeView::Tinytext) == Parsed::Done(s.len() as int, t));
    assert(spec_type_first_half(s, 0) is NoMatch);
    assert(spec_type_second_half(s, 0) == Parsed::Done(s.len() as int, t));
    reveal(spec_type_identifier);
}

#[verifier::spinoff_prover]
#[verifier::rlimit(40)]
proof fn lemma_type_word_mediumtext(w: Seq<char>)
    requires
        spelled(w, "mediumtext"@),
    ensures
        spec_type_identifier(w, 0) == Parsed::Done(
            w.len() as int,
            DataTypeView::Mediumtext,
        ),
{
    let t = DataTypeView::Mediumtext;
    let s = w;
    reveal_strlit("bigint");
    reveal_strlit("binary");
    reveal_strlit("blob");
    reveal_strlit("bool");
    reveal_strlit("char");
    reveal_strlit("date");
    reveal_strlit("datetime");
    reveal_strlit("decimal");
    reveal_strlit("double");
    reveal_strlit("enum");
    reveal_strlit("float");
    reveal_strlit("int");
    reveal_strlit("integer");
    reveal_strlit("json");
    reveal_strlit("longblob");
    reveal_strlit("longtext");
    reveal_strlit("mediumblob");
    reveal_strlit("mediumtext");
    reveal_strlit("numeric");
    reveal_strlit("real");
    reveal_strlit("smallint");
    reveal_strlit("text");
    reveal_strlit("timestamp");
    reveal_strlit("tinyblob");
    reveal_strlit("tinyint");
    reveal_strlit("tinytext");
    reveal_strlit("varbinary");
    reveal_strlit("varchar");
    reveal_strlit("unsigned");
    reveal_strlit("signed");
    reveal_strlit("binary");
    reveal_strlit("");
    reveal_strlit("enum");
    reveal_with_fuel(run_end, 2);
    assert(eq_no_case(w[0], "mediumtext"@[0]) && eq_no_case(w[1], "mediumtext"@[1]) && eq_no_case(w[2], "mediumtext"@[2]) && eq_no_case(w[3], "mediumtext"@[3]) && eq_no_case(w[4], "mediumtext"@[4]) && eq_no_case(w[5], "mediumtext"@[5]) && eq_no_case(w[6], "mediumtext"@[6]) && eq_no_case(w[7], "mediumtext"@[7]) && eq_no_case(w[8], "mediumtext"@[8]) && eq_no_case(w[9], "mediumtext"@[9]));
    assert(w.subrange(0, w.len() as int) =~= w);
    lemma_tag_nc_mismatch(s, 0, "tinyint"@, 0);
    lemma_tag_nc_mismatch(s, 0, "bigint"@, 0);
    lemma_tag_nc_mismatch(s, 0, "integer"@, 0);
    lemma_tag_nc_mismatch(s, 0, "int"@, 0);
    lemma_tag_nc_mismatch(s, 0, "smallint"@, 0);
    assert(spec_int_types(s, 0) is NoMatch);
    lemma_tag_nc_mismatch(s, 0, "bool"@, 0);
    assert(plain_type(s, 0, "bool"@, DataTypeView::Bool) is NoMatch);
    lemma_tag_nc_mismatch(s, 0, "char"@, 0);
    assert(spec_kw_len(s, 0, "char"@, "binary"@) is NoMatch);
    lemma_tag_nc_mismatch(s, 0, "datetime"@, 0);
    assert(spec_datetime(s, 0) is NoMatch);
    lemma_tag_nc_mismatch(s, 0, "date"@, 0);
    assert(plain_type(s, 0, "date"@, DataTypeView::Date) is NoMatch);
    lemma_tag_nc_mismatch(s, 0, "double"@, 0);
    assert(signed_type(s, 0, "double"@, DataTypeView::Double) is NoMatch);
    lemma_tag_nc_mismatch(s, 0, "enum"@, 0);
    assert(spec_enum_type(s, 0) is NoMatch);
    lemma_tag_nc_mismatch(s, 0, "float"@, 0);
    assert(spec_float_type(s, 0) is NoMatch);
    lemma_tag_nc_mismatch(s, 0, "real"@, 0);
    assert(signed_type(s, 0, "real"@, DataTypeView::Real) is NoMatch);
    lemma_tag_nc_mismatch(s, 0, "text"@, 0);
    assert(plain_type(s, 0, "text"@, DataTypeView::Text) is NoMatch);
    lemma_tag_nc_mismatch(s, 0, "json"@, 0);
    assert(plain_type(s, 0, "json"@, DataTypeView::Json) is NoMatch);
    lemma_tag_nc_mismatch(s, 0, "timestamp"@, 0);
    assert(spec_timestamp(s, 0) is NoMatch);
    lemma_tag_nc_mismatch(s, 0, "varchar"@, 0);
    assert(spec_kw_len(s, 0, "varchar"@, "binary"@) is NoMatch);
    lemma_tag_nc_mismatch(s, 0, "decimal"@, 0);
    lemma_tag_nc_mismatch(s, 0, "numeric"@, 0);
    assert(spec_decimal(s, 0) is NoMatch);
    lemma_tag_nc_mismatch(s, 0, "binary"@, 0);
    assert(spec_kw_len(s, 0, "binary"@, ""@) is NoMatch);
    lemma_tag_nc_mismatch(s, 0, "blob"@, 0);
    assert(plain_type(s, 0, "blob"@, DataTypeView::Blob) is NoMatch);
    lemma_tag_nc_mismatch(s, 0, "longblob"@, 0);
    assert(plain_type(s, 0, "longblob"@, DataTypeView::Longblob) is NoMatch);
    lemma_tag_nc_mismatch(s, 0, "mediumblob"@, 6);
    assert(plain_type(s, 0, "mediumblob"@, DataTypeView::Mediumblob) is NoMatch);
    lemma_spelled_tag(w, 0, w, "mediumtext"@);
    assert(plain_type(s, 0, "mediumtext"@, DataTypeView::Mediumtext) == Parsed::Done(s.len() as int, t));
    assert(spec_type_first_half(s, 0) is NoMatch);
    assert(spec_type_second_half(s, 0) == Parsed::Done(s.len() as int, t));
    reveal(spec_type_identifier);
}

#[verifier::spinoff_prover]
#[verifier::rlimit(40)]
proof fn lemma_type_word_longtext(w: Seq<char>)
    requires
        spelled(w, "longtext"@),
    ensures
        spec_type_identifier(w, 0) == Parsed::Done(
            w.len() as int,
            DataTypeView::Longtext,
        ),
{
    let t = DataTypeView::Longtext;
    let s = w;
    reveal_strlit("bigint");
    reveal_strlit("binary");
    reveal_strlit("blob");
    reveal_strlit("bool");
    reveal_strlit("char");
    reveal_strlit("date");
    reveal_strlit("datetime");
    reveal_strlit("decimal");
    reveal_strlit("double");
    reveal_strlit("enum");
    reveal_strlit("float");
    reveal_strlit("int");
    reveal_strlit("integer");
    reveal_strlit("json");
    reveal_strlit("longblob");
    reveal_strlit("longtext");
    reveal_strlit("mediumblob");
    reveal_strlit("mediumtext");
    reveal_strlit("numeric");
    reveal_strlit("real");
    reveal_strlit("smallint");
    reveal_strlit("text");
    reveal_strlit("timestamp");
    reveal_strlit("tinyblob");
    reveal_strlit("tinyint");
    reveal_strlit("tinytext");
    reveal_strlit("varbinary");
    reveal_strlit("varchar");
    reveal_strlit("unsigned");
    reveal_strlit("signed");
    reveal_strlit("binary");
    reveal_strlit("");
    reveal_strlit("enum");
    reveal_with_fuel(run_end, 2);
    assert(eq_no_case(w[0], "longtext"@[0]) && eq_no_case(w[1], "longtext"@[1]) && eq_no_case(w[2], "longtext"@[2]) && eq_no_case(w[3], "longtext"@[3]) && eq_no_case(w[4], "longtext"@[4]) && eq_no_case(w[5], "longtext"@[5]) && eq_no_case(w[6], "longtext"@[6]) && eq_no_case(w[7], "longtext"@[7]));
    assert(w.subrange(0, w.len() as int) =~= w);
    lemma_tag_nc_mismatch(s, 0, "tinyint"@, 0);
    lemma_tag_nc_mismatch(s, 0, "bigint"@, 0);
    lemma_tag_nc_mismatch(s, 0, "integer"@, 0);
    lemma_tag_nc_mismatch(s, 0, "int"@, 0);
    lemma_tag_nc_mismatch(s, 0, "smallint"@, 0);
    assert(spec_int_types(s, 0) is NoMatch);
    lemma_tag_nc_mismatch(s, 0, "bool"@, 0);
    assert(plain_type(s, 0, "bool"@, DataTypeView::Bool) is NoMatch);
    lemma_tag_nc_mismatch(s, 0, "char"@, 0);
    assert(spec_kw_len(s, 0, "char"@, "binary"@) is NoMatch);
    lemma_tag_nc_mismatch(s, 0, "datetime"@, 0);
    assert(spec_datetime(s, 0) is NoMatch);
    lemma_tag_nc_mismatch(s, 0, "date"@, 0);
    assert(plain_type(s, 0, "date"@, DataTypeView::Date) is NoMatch);
    lemma_tag_nc_mismatch(s, 0, "double"@, 0);
    assert(signed_type(s, 0, "double"@, DataTypeView::Double) is NoMatch);
    lemma_tag_nc_mismatch(s, 0, "enum"@, 0);
    assert(spec_enum_type(s, 0) is NoMatch);
    lemma_tag_nc_mismatch(s, 0, "float"@, 0);
    assert(spec_float_type(s, 0) is NoMatch);
    lemma_tag_nc_mismatch(s, 0, "real"@, 0);
    assert(signed_type(s, 0, "real"@, DataTypeView::Real) is NoMatch);
    lemma_tag_nc_mismatch(s, 0, "text"@, 0);
    assert(plain_type(s, 0, "text"@, DataTypeView::Text) is NoMatch);
    lemma_tag_nc_mismatch(s, 0, "json"@, 0);
    assert(plain_type(s, 0, "json"@, DataTypeView::Json) is NoMatch);
    lemma_tag_nc_mismatch(s, 0, "timestamp"@, 0);
    assert(spec_timestamp(s, 0) is NoMatch);
    lemma_tag_nc_mismatch(s, 0, "varchar"@, 0);
    assert(spec_kw_len(s, 0, "varchar"@, "binary"@) is NoMatch);
    lemma_tag_nc_mismatch(s, 0, "decimal"@, 0);
    lemma_tag_nc_mismatch(s, 0, "numeric"@, 0);
    assert(spec_decimal(s, 0) is NoMatch);
    lemma_tag_nc_mismatch(s, 0, "binary"@, 0);
    assert(spec_kw_len(s, 0, "binary"@, ""@) is NoMatch);
    lemma_tag_nc_mismatch(s, 0, "blob"@, 0);
    assert(plain_type(s, 0, "blob"@, DataTypeView::Blob) is NoMatch);
    lemma_tag_nc_mismatch(s, 0, "longblob"@, 4);
    assert(plain_type(s, 0, "longblob"@, DataTypeView::Longblob) is NoMatch);
    lemma_tag_nc_mismatch(s, 0, "mediumblob"@, 0);
    assert(plain_type(s, 0, "mediumblob"@, DataTypeView::Mediumblob) is NoMatch);
    lemma_tag_nc_mismatch(s, 0, "mediumtext"@, 0);
    assert(plain_type(s, 0, "mediumtext"@, DataTypeView::Mediumtext) is NoMatch);
    lemma_spelled_tag(w, 0, w, "longtext"@);
    assert(plain_type(s, 0, "longtext"@, DataTypeView::Longtext) == Parsed::Done(s.len() as int, t));
    assert(spec_type_first_half(s, 0) is NoMatch);
    assert(spec_type_second_half(s, 0) == Parsed::Done(s.len() as int, t));
    reveal(spec_type_identifier);
}

#[verifier::spinoff_prover]
#[verifier::rlimit(40)]
proof fn lemma_type_word_text(w: Seq<char>)
    requires
        spelled(w, "text"@),
    ensures
        spec_type_identifier(w, 0) == Parsed::Done(
            w.len() as int,
            DataTypeView::Text,
        ),
{
    let t = DataTypeView::Text;
    let s = w;
    reveal_strlit("bigint");
    reveal_strlit("binary");
    reveal_strlit("blob");
    reveal_strlit("bool");
    reveal_strlit("char");
    reveal_strlit("date");
    reveal_strlit("datetime");
    reveal_strlit("decimal");
    reveal_strlit("double");
    reveal_strlit("enum");
    reveal_strlit("float");
    reveal_strlit("int");
    reveal_strlit("integer");
    reveal_strlit("json");
    reveal_strlit("longblob");
    reveal_strlit("longtext");
    reveal_strlit("mediumblob");
    reveal_strlit("mediumtext");
    reveal_strlit("numeric");
    reveal_strlit("real");
    reveal_strlit("smallint");
    reveal_strlit("text");
    reveal_strlit("timestamp");
    reveal_strlit("tinyblob");
    reveal_strlit("tinyint");
    reveal_strlit("tinytext");
    reveal_strlit("varbinary");
    reveal_strlit("varchar");
    reveal_strlit("unsigned");
    reveal_strlit("signed");
    reveal_strlit("binary");
    reveal_strlit("");
    reveal_strlit("enum");
    reveal_with_fuel(run_end, 2);
    assert(eq_no_case(w[0], "text"@[0]) && eq_no_case(w[1], "text"@[1]) && eq_no_case(w[2], "text"@[2]) && eq_no_case(w[3], "text"@[3]));
    assert(w.subrange(0, w.len() as int) =~= w);
    lemma_tag_nc_mismatch(s, 0, "tinyint"@, 1);
    lemma_tag_nc_mismatch(s, 0, "bigint"@, 0);
    lemma_tag_nc_mismatch(s, 0, "integer"@, 0);
    lemma_tag_nc_mismatch(s, 0, "int"@, 0);
    lemma_tag_nc_mismatch(s, 0, "smallint"@, 0);
    assert(spec_int_types(s, 0) is NoMatch);
    lemma_tag_nc_mismatch(s, 0, "bool"@, 0);
    assert(plain_type(s, 0, "bool"@, DataTypeView::Bool) is NoMatch);
    lemma_tag_nc_mismatch(s, 0, "char"@, 0);
    assert(spec_kw_len(s, 0, "char"@, "binary"@) is NoMatch);
    lemma_tag_nc_mismatch(s, 0, "datetime"@, 0);
    assert(spec_datetime(s, 0) is NoMatch);
    lemma_tag_nc_mismatch(s, 0, "date"@, 0);
    assert(plain_type(s, 0, "date"@, DataTypeView::Date) is NoMatch);
    lemma_tag_nc_mismatch(s, 0, "double"@, 0);
    assert(signed_type(s, 0, "double"@, DataTypeView::Double) is NoMatch);
    lemma_tag_nc_mismatch(s, 0, "enum"@, 0);
    assert(spec_enum_type(s, 0) is NoMatch);
    lemma_tag_nc_mismatch(s, 0, "float"@, 0);
    assert(spec_float_type(s, 0) is NoMatch);
    lemma_tag_nc_mismatch(s, 0, "real"@, 0);
    assert(signed_type(s, 0, "real"@, DataTypeView::Real) is NoMatch);
    lemma_spelled_tag(w, 0, w, "text"@);
    assert(plain_type(s, 0, "text"@, DataTypeView::Text) == Parsed::Done(s.len() as int, t));
    assert(spec_type_first_half(s, 0) == Parsed::Done(s.len() as int, t));
    reveal(spec_type_identifier);
}

#[verifier::spinoff_prover]
#[verifier::rlimit(40)]
proof fn lemma_type_word_json(w: Seq<char>)
    requires
        spelled(w, "json"@),
    ensures
        spec_type_identifier(w, 0) == Parsed::Done(
            w.len() as int,
            DataTypeView::Json,
        ),
{
    let t = DataTypeView::Json;
    let s = w;
    reveal_strlit("bigint");
    reveal_strlit("binary");
    reveal_strlit("blob");
    reveal_strlit("bool");
    reveal_strlit("char");
    reveal_strlit("date");
    reveal_strlit("datetime");
    reveal_strlit("decimal");
    reveal_strlit("double");
    reveal_strlit("enum");
    reveal_strlit("float");
    reveal_strlit("int");
    reveal_strlit("integer");
    reveal_strlit("json");
    reveal_strlit("longblob");
    reveal_strlit("longtext");
    reveal_strlit("mediumblob");
    reveal_strlit("mediumtext");
    reveal_strlit("numeric");
    reveal_strlit("real");
    reveal_strlit("smallint");
    reveal_strlit("text");
    reveal_strlit("timestamp");
    reveal_strlit("tinyblob");
    reveal_strlit("tinyint");
    reveal_strlit("tinytext");
    reveal_strlit("varbinary");
    reveal_strlit("varchar");
    reveal_strlit("unsigned");
    reveal_strlit("signed");
    reveal_strlit("binary");
    reveal_strlit("");
    reveal_strlit("enum");
    reveal_with_fuel(run_end, 2);
    assert(eq_no_case(w[0], "json"@[0]) && eq_no_case(w[1], "json"@[1]) && eq_no_case(w[2], "json"@[2]) && eq_no_case(w[3], "json"@[3]));
    assert(w.subrange(0, w.len() as int) =~= w);
    lemma_tag_nc_mismatch(s, 0, "tinyint"@, 0);
    lemma_tag_nc_mismatch(s, 0, "bigint"@, 0);
    lemma_tag_nc_mismatch(s, 0, "integer"@, 0);
    lemma_tag_nc_mismatch(s, 0, "int"@, 0);
    lemma_tag_nc_mismatch(s, 0, "smallint"@, 0);
    assert(spec_int_types(s, 0) is NoMatch);
    lemma_tag_nc_mismatch(s, 0, "bool"@, 0);
    assert(plain_type(s, 0, "bool"@, DataTypeView::Bool) is NoMatch);
    lemma_tag_nc_mismatch(s, 0, "char"@, 0);
    assert(spec_kw_len(s, 0, "char"@, "binary"@) is NoMatch);
    lemma_tag_nc_mismatch(s, 0, "datetime"@, 0);
    assert(spec_datetime(s, 0) is NoMatch);
    lemma_tag_nc_mismatch(s, 0, "date"@, 0);
    assert(plain_type(s, 0, "date"@, DataTypeView::Date) is NoMatch);
    lemma_tag_nc_mismatch(s, 0, "double"@, 0);
    assert(signed_type(s, 0, "double"@, DataTypeView::Double) is NoMatch);
    lemma_tag_nc_mismatch(s, 0, "enum"@, 0);
    assert(spec_enum_type(s, 0) is NoMatch);
    lemma_tag_nc_mismatch(s, 0, "float"@, 0);
    assert(spec_float_type(s, 0) is NoMatch);
    lemma_tag_nc_mismatch(s, 0, "real"@, 0);
    assert(signed_type(s, 0, "real"@, DataTypeView::Real) is NoMatch);
    lemma_tag_nc_mismatch(s, 0, "text"@, 0);
    assert(plain_type(s, 0, "text"@, DataTypeView::Text) is NoMatch);
    lemma_spelled_tag(w, 0, w, "json"@);
    assert(plain_type(s, 0, "json"@, DataTypeView::Json) == Parsed::Done(s.len() as int, t));
    assert(spec_type_first_half(s, 0) == Parsed::Done(s.len() as int, t));
    reveal(spec_type_identifier);
}

#[verifier::spinoff_prover]
#[verifier::rlimit(40)]
proof fn lemma_type_word_date(w: Seq<char>)
    requires
        spelled(w, "date"@),
    ensures
        spec_type_identifier(w, 0) == Parsed::Done(
            w.len() as int,
            DataTypeView::Date,
        ),
{
    let t = DataTypeView::Date;
    let s = w;
    reveal_strlit("bigint");
    reveal_strlit("binary");
    reveal_strlit("blob");
    reveal_strlit("bool");
    reveal_strlit("char");
    reveal_strlit("date");
    reveal_strlit("datetime");
    reveal_strlit("decimal");
    reveal_strlit("double");
    reveal_strlit("enum");
    reveal_strlit("float");
    reveal_strlit("int");
    reveal_strlit("integer");
    reveal_strlit("json");
    reveal_strlit("longblob");
    reveal_strlit("longtext");
    reveal_strlit("mediumblob");
    reveal_strlit("mediumtext");
    reveal_strlit("numeric");
    reveal_strlit("real");
    reveal_strlit("smallint");
    reveal_strlit("text");
    reveal_strlit("timestamp");
    reveal_strlit("tinyblob");
    reveal_strlit("tinyint");
    reveal_strlit("tinytext");
    reveal_strlit("varbinary");
    reveal_strlit("varchar");
    reveal_strlit("unsigned");
    reveal_strlit("signed");
    reveal_strlit("binary");
    reveal_strlit("");
    reveal_strlit("enum");
    reveal_with_fuel(run_end, 2);
    assert(eq_no_case(w[0], "date"@[0]) && eq_no_case(w[1], "date"@[1]) && eq_no_case(w[2], "date"@[2]) && eq_no_case(w[3], "date"@[3]));
    assert(w.subrange(0, w.len() as int) =~= w);
    lemma_tag_nc_mismatch(s, 0, "tinyint"@, 0);
    lemma_tag_nc_mismatch(s, 0, "bigint"@, 0);
    lemma_tag_nc_mismatch(s, 0, "integer"@, 0);
    lemma_tag_nc_mismatch(s, 0, "int"@, 0);
    lemma_tag_nc_mismatch(s, 0, "smallint"@, 0);
    assert(spec_int_types(s, 0) is NoMatch);
    lemma_tag_nc_mismatch(s, 0, "bool"@, 0);
    assert(plain_type(s, 0, "bool"@, DataTypeView::Bool) is NoMatch);
    lemma_tag_nc_mismatch(s, 0, "char"@, 0);
    assert(spec_kw_len(s, 0, "char"@, "binary"@) is NoMatch);
    assert(spec_datetime(s, 0) is NoMatch);
    lemma_spelled_tag(w, 0, w, "date"@);
    assert(plain_type(s, 0, "date"@, DataTypeView::Date) == Parsed::Done(s.len() as int, t));
    assert(spec_type_first_half(s, 0) == Parsed::Done(s.len() as int, t));
    reveal(spec_type_identifier);
}

#[verifier::spinoff_prover]
#[verifier::rlimit(40)]
proof fn lemma_type_word_timestamp(w: Seq<char>)
    requires
        spelled(w, "timestamp"@),
    ensures
        spec_type_identifier(w, 0) == Parsed::Done(
            w.len() as int,
            DataTypeView::Timestamp,
        ),
{
    let t = DataTypeView::Timestamp;
    let s = w;
    reveal_strlit("bigint");
    reveal_strlit("binary");
    reveal_strlit("blob");
    reveal_strlit("bool");
    reveal_strlit("char");
    reveal_strlit("date");
    reveal_strlit("datetime");
    reveal_strlit("decimal");
    reveal_strlit("double");
    reveal_strlit("enum");
    reveal_strlit("float");
    reveal_strlit("int");
    reveal_strlit("integer");
    reveal_strlit("json");
    reveal_strlit("longblob");
    reveal_strlit("longtext");
    reveal_strlit("mediumblob");
    reveal_strlit("mediumtext");
    reveal_strlit("numeric");
    reveal_strlit("real");
    reveal_strlit("smallint");
    reveal_strlit("text");
    reveal_strlit("timestamp");
    reveal_strlit("tinyblob");
    reveal_strlit("tinyint");
    reveal_strlit("tinytext");
    reveal_strlit("varbinary");
    reveal_strlit("varchar");
    reveal_strlit("unsigned");
    reveal_strlit("signed");
    reveal_strlit("binary");
    reveal_strlit("");
    reveal_strlit("enum");
    reveal_with_fuel(run_end, 2);
    assert(eq_no_case(w[0], "timestamp"@[0]) && eq_no_case(w[1], "timestamp"@[1]) && eq_no_case(w[2], "timestamp"@[2]) && eq_no_case(w[3], "timestamp"@[3]) && eq_no_case(w[4], "timestamp"@[4]) && eq_no_case(w[5], "timestamp"@[5]) && eq_no_case(w[6], "timestamp"@[6]) && eq_no_case(w[7], "timestamp"@[7]) && eq_no_case(w[8], "timestamp"@[8]));
    assert(w.subrange(0, w.len() as int) =~= w);
    lemma_tag_nc_mismatch(s, 0, "tinyint"@, 2);
    lemma_tag_nc_mismatch(s, 0, "bigint"@, 0);
    lemma_tag_nc_mismatch(s, 0, "integer"@, 0);
    lemma_tag_nc_mismatch(s, 0, "int"@, 0);
    lemma_tag_nc_mismatch(s, 0, "smallint"@, 0);
    assert(spec_int_types(s, 0) is NoMatch);
    lemma_tag_nc_mismatch(s, 0, "bool"@, 0);
    assert(plain_type(s, 0, "bool"@, DataTypeView::Bool) is NoMatch);
    lemma_tag_nc_mismatch(s, 0, "char"@, 0);
    assert(spec_kw_len(s, 0, "char"@, "binary"@) is NoMatch);
    lemma_tag_nc_mismatch(s, 0, "datetime"@, 0);
    assert(spec_datetime(s, 0) is NoMatch);
    lemma_tag_nc_mismatch(s, 0, "date"@, 0);
    assert(plain_type(s, 0, "date"@, DataTypeView::Date) is NoMatch);
    lemma_tag_nc_mismatch(s, 0, "double"@, 0);
    assert(signed_type(s, 0, "double"@, DataTypeView::Double) is NoMatch);
    lemma_tag_nc_mismatch(s, 0, "enum"@, 0);
    assert(spec_enum_type(s, 0) is NoMatch);
    lemma_tag_nc_mismatch(s, 0, "float"@, 0);
    assert(spec_float_type(s, 0) is NoMatch);
    lemma_tag_nc_mismatch(s, 0, "real"@, 0);
    assert(signed_type(s, 0, "real"@, DataTypeView::Real) is NoMatch);
    lemma_tag_nc_mismatch(s, 0, "text"@, 1);
    assert(plain_type(s, 0, "text"@, DataTypeView::Text) is NoMatch);
    lemma_tag_nc_mismatch(s, 0, "json"@, 0);
    assert(plain_type(s, 0, "json"@, DataTypeView::Json) is NoMatch);
    lemma_spelled_tag(w, 0, w, "timestamp"@);
    assert(spec_timestamp(s, 0) == Parsed::Done(s.len() as int, t));
    assert(spec_type_first_half(s, 0) == Parsed::Done(s.len() as int, t));
    reveal(spec_type_identifier);
}

/// A type written as its bare keyword in any case (`BOOL`, `BLOB`,
/// `LONGBLOB`, `MEDIUMBLOB`, `TINYBLOB`, `DOUBLE`, `FLOAT`, `REAL`,
/// `TINYTEXT`, `MEDIUMTEXT`, `LONGTEXT`, `TEXT`, `JSON`, `DATE`,
/// `TIMESTAMP`) is read as the type that keyword names.
pub proof fn lemma_type_keyword_reads(w: Seq<char>)
    ensures
        spelled(w, "bool"@) ==> spec_type_identifier(w, 0) == Parsed::Done(
            w.len() as int,
            DataTypeView::Bool,
        ),
        spelled(w, "blob"@) ==> spec_type_identifier(w, 0) == Parsed::Done(
            w.len() as int,
            DataTypeView::Blob,
        ),
        spelled(w, "longblob"@) ==> spec_type_identifier(w, 0) == Parsed::Done(
            w.len() as int,
            DataTypeView::Longblob,
        ),
        spelled(w, "mediumblob"@) ==> spec_type_identifier(w, 0) == Parsed::Done(
            w.len() as int,
            DataTypeView::Mediumblob,
        ),
        spelled(w, "tinyblob"@) ==> spec_type_identifier(w, 0) == Parsed::Done(
            w.len() as int,
            DataTypeView::Tinyblob,
        ),
        spelled(w, "double"@) ==> spec_type_identifier(w, 0) == Parsed::Done(
            w.len() as int,
            DataTypeView::Double,
        ),
        spelled(w, "float"@) ==> spec_type_identifier(w, 0) == Parsed::Done(
            w.len() as int,
            DataTypeView::Float,
        ),
        spelled(w, "real"@) ==> spec_type_identifier(w, 0) == Parsed::Done(
            w.len() as int,
            DataTypeView::Real,
        ),
        spelled(w, "tinytext"@) ==> spec_type_identifier(w, 0) == Parsed::Done(
            w.len() as int,
            DataTypeView::Tinytext,
        ),
        spelled(w, "mediumtext"@) ==> spec_type_identifier(w, 0) == Parsed::Done(
            w.len() as int,
            DataTypeView::Mediumtext,
        ),
        spelled(w, "longtext"@) ==> spec_type_identifier(w, 0) == Parsed::Done(
            w.len() as int,
            DataTypeView::Longtext,
        ),
        spelled(w, "text"@) ==> spec_type_identifier(w, 0) == Parsed::Done(
            w.len() as int,
            DataTypeView::Text,
        ),
        spelled(w, "json"@) ==> spec_type_identifier(w, 0) == Parsed::Done(
            w.len() as int,
            DataTypeView::Json,
        ),
        spelled(w, "date"@) ==> spec_type_identifier(w, 0) == Parsed::Done(
            w.len() as int,
            DataTypeView::Date,
        ),
        spelled(w, "timestamp"@) ==> spec_type_identifier(w, 0) == Parsed::Done(
            w.len() as int,
            DataTypeView::Timestamp,
        ),
{
    if spelled(w, "bool"@) {
        lemma_type_word_bool(w);
    }
    if spelled(w, "blob"@) {
        lemma_type_word_blob(w);
    }
    if spelled(w, "longblob"@) {
        lemma_type_word_longblob(w);
    }
    if spelled(w, "mediumblob"@) {
        lemma_type_word_mediumblob(w);
    }
    if spelled(w, "tinyblob"@) {
        lemma_type_word_tinyblob(w);
    }
    if spelled(w, "double"@) {
        lemma_type_word_double(w);
    }
    if spelled(w, "float"@) {
        lemma_type_word_float(w);
    }
    if spelled(w, "real"@) {
        lemma_type_word_real(w);
    }
    if spelled(w, "tinytext"@) {
        lemma_type_word_tinytext(w);
    }
    if spelled(w, "mediumtext"@) {
        lemma_type_word_mediumtext(w);
    }
    if spelled(w, "longtext"@) {
        lemma_type_word_longtext(w);
    }
    if spelled(w, "text"@) {
        lemma_type_word_text(w);
    }
    if spelled(w, "json"@) {
        lemma_type_word_json(w);
    }
    if spelled(w, "date"@) {
        lemma_type_word_date(w);
    }
    if spelled(w, "timestamp"@) {
        lemma_type_word_timestamp(w);
    }
}

/// An integer type written as its bare keyword in any case takes its default
/// length: `TINYINT` and `BIGINT` length 1, `INT`, `INTEGER` and `SMALLINT`
/// the integer type of length 32; none of them unsigned.
pub proof fn lemma_int_type_defaults(w: Seq<char>)
    ensures
        spelled(w, "tinyint"@) ==> spec_type_identifier(w, 0) == Parsed::Done(
            w.len() as int,
            DataTypeView::Tinyint(1),
        ),
        spelled(w, "bigint"@) ==> spec_type_identifier(w, 0) == Parsed::Done(
            w.len() as int,
            DataTypeView::Bigint(1),
        ),
        spelled(w, "integer"@) ==> spec_type_identifier(w, 0) == Parsed::Done(
            w.len() as int,
            DataTypeView::Int(32),
        ),
        spelled(w, "int"@) ==> spec_type_identifier(w, 0) == Parsed::Done(
            w.len() as int,
            DataTypeView::Int(32),
        ),
        spelled(w, "smallint"@) ==> spec_type_identifier(w, 0) == Parsed::Done(
            w.len() as int,
            DataTypeView::Int(32),
        ),
{
    reveal_strlit("tinyint");
    reveal_strlit("bigint");
    reveal_strlit("integer");
    reveal_strlit("int");
    reveal_strlit("smallint");
    reveal_strlit("unsigned");
    reveal_strlit("signed");
    let l = w.len() as int;
    assert(w.subrange(0, l) =~= w);
    assert(ws_end(w, l) == l);
    assert(spec_len(w, l) is NoMatch);
    assert(opt_signed_end(w, l) == l);
    assert(!has_tag_nc(w, l, "unsigned"@));
    if spelled(w, "tinyint"@) {
        lemma_spelled_tag(w, 0, w, "tinyint"@);
        assert(spec_int_types(w, 0) == Parsed::Done(l, DataTypeView::Tinyint(1)));
    }
    if spelled(w, "bigint"@) {
        assert(eq_no_case(w[0], "bigint"@[0]));
        lemma_tag_nc_mismatch(w, 0, "tinyint"@, 0);
        lemma_spelled_tag(w, 0, w, "bigint"@);
        assert(spec_int_types(w, 0) == Parsed::Done(l, DataTypeView::Bigint(1)));
    }
    if spelled(w, "integer"@) {
        assert(eq_no_case(w[0], "integer"@[0]));
        lemma_tag_nc_mismatch(w, 0, "tinyint"@, 0);
        lemma_tag_nc_mismatch(w, 0, "bigint"@, 0);
        lemma_spelled_tag(w, 0, w, "integer"@);
        assert(int_keyword_end(w, 0) == l);
        assert(spec_int_types(w, 0) == Parsed::Done(l, DataTypeView::Int(32)));
    }
    if spelled(w, "int"@) {
        assert(eq_no_case(w[0], "int"@[0]));
        lemma_tag_nc_mismatch(w, 0, "tinyint"@, 0);
        lemma_tag_nc_mismatch(w, 0, "bigint"@, 0);
        lemma_spelled_tag(w, 0, w, "int"@);
        assert(int_keyword_end(w, 0) == l);
        assert(spec_int_types(w, 0) == Parsed::Done(l, DataTypeView::Int(32)));
    }
    if spelled(w, "smallint"@) {
        assert(eq_no_case(w[0], "smallint"@[0]));
        lemma_tag_nc_mismatch(w, 0, "tinyint"@, 0);
        lemma_tag_nc_mismatch(w, 0, "bigint"@, 0);
        lemma_tag_nc_mismatch(w, 0, "integer"@, 0);
        lemma_tag_nc_mismatch(w, 0, "int"@, 0);
        lemma_spelled_tag(w, 0, w, "smallint"@);
        assert(int_keyword_end(w, 0) == l);
        assert(spec_int_types(w, 0) == Parsed::Done(l, DataTypeView::Int(32)));
    }
    reveal(spec_type_identifier);
}

/// The text of a type reads back as that type, the whole text being read;
/// `ENUM`, whose text lists no values, is left out.
pub proof fn lemma_data_type_round_trip(t: DataTypeView)
    requires
        !(t is Enum),
    ensures
        spec_type_identifier(data_type_text(t), 0) == Parsed::Done(data_type_text(t).len() as int, t),
{
    match t {
        DataTypeView::Bool => lemma_type_text_bool(),
        DataTypeView::Char(n) => lemma_type_text_char(n),
        DataTypeView::Varchar(n) => lemma_type_text_varchar(n),
        DataTypeView::Int(n) => lemma_type_text_int(n),
        DataTypeView::UnsignedInt(n) => lemma_type_text_unsigned_int(n),
        DataTypeView::Bigint(n) => lemma_type_text_bigint(n),
        DataTypeView::UnsignedBigint(n) => lemma_type_text_unsigned_bigint(n),
        DataTypeView::Tinyint(n) => lemma_type_text_tinyint(n),
        DataTypeView::UnsignedTinyint(n) => lemma_type_text_unsigned_tinyint(n),
        DataTypeView::Blob => lemma_type_text_blob(),
        DataTypeView::Longblob => lemma_type_text_longblob(),
        DataTypeView::Mediumblob => lemma_type_text_mediumblob(),
        DataTypeView::Tinyblob => lemma_type_text_tinyblob(),
        DataTypeView::Double => lemma_type_text_double(),
        DataTypeView::Float => lemma_type_text_float(),
        DataTypeView::Real => lemma_type_text_real(),
        DataTypeView::Tinytext => lemma_type_text_tinytext(),
        DataTypeView::Mediumtext => lemma_type_text_mediumtext(),
        DataTypeView::Longtext => lemma_type_text_longtext(),
        DataTypeView::Text => lemma_type_text_text(),
        DataTypeView::Json => lemma_type_text_json(),
        DataTypeView::Date => lemma_type_text_date(),
        DataTypeView::DateTime(n) => lemma_type_text_date_time(n),
        DataTypeView::Timestamp => lemma_type_text_timestamp(),
        DataTypeView::Binary(n) => lemma_type_text_binary(n),
        DataTypeView::Varbinary(n) => lemma_type_text_varbinary(n),
        DataTypeView::Decimal(m, d) => lemma_type_text_decimal(m, d),
        DataTypeView::Enum(_) => {},
    }
}

} // verus!
