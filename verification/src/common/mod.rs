//! The option types of table and index definitions, with their parsers.
use vstd::prelude::*;

use crate::base::error::ParseSQLError;
use crate::base::input::{agrees, char_at, has_tag, has_tag_nc, str_agrees, ws_end, Input, Parsed};
use crate::base::reference_type::{two_words, two_words_at};

pub mod trigger;

verus! {

/// algorithm_option: `ALGORITHM [=] {DEFAULT | INPLACE | COPY}`
#[derive(Clone, Copy, Debug, Eq, Hash, PartialEq, Structural)]
pub enum AlgorithmType {
    Default,
    Inplace,
    Copy,
}

impl DeepView for AlgorithmType {
    type V = AlgorithmType;

    open spec fn deep_view(&self) -> AlgorithmType {
        *self
    }
}

/// `{DEFAULT | INPLACE | COPY}`, ignoring case, tried in this order.
pub open spec fn spec_algorithm_type_value(s: Seq<char>, p: int) -> Parsed<AlgorithmType> {
    if has_tag_nc(s, p, "DEFAULT"@) {
        Parsed::Done(p + "DEFAULT"@.len(), AlgorithmType::Default)
    } else if has_tag_nc(s, p, "INPLACE"@) {
        Parsed::Done(p + "INPLACE"@.len(), AlgorithmType::Inplace)
    } else if has_tag_nc(s, p, "COPY"@) {
        Parsed::Done(p + "COPY"@.len(), AlgorithmType::Copy)
    } else {
        Parsed::NoMatch
    }
}

fn algorithm_type_value_at(src: &Input, p: usize) -> (r: Option<(usize, AlgorithmType)>)
    requires
        p <= src@.len(),
    ensures
        agrees(r, spec_algorithm_type_value(src@, p as int)),
        r matches Some((q, _)) ==> p <= q <= src@.len(),
{
    if src.tag_nc(p, "DEFAULT") {
        Some((p + "DEFAULT".unicode_len(), AlgorithmType::Default))
    } else if src.tag_nc(p, "INPLACE") {
        Some((p + "INPLACE".unicode_len(), AlgorithmType::Inplace))
    } else if src.tag_nc(p, "COPY") {
        Some((p + "COPY".unicode_len(), AlgorithmType::Copy))
    } else {
        None
    }
}

/// `ALGORITHM [ws] [=] [ws] value`, the keyword ignoring case.
pub open spec fn spec_algorithm_type(s: Seq<char>, p: int) -> Parsed<AlgorithmType> {
    let a = ws_end(s, p + "ALGORITHM"@.len());
    let b = if char_at(s, a, '=') {
        a + 1
    } else {
        a
    };
    if has_tag_nc(s, p, "ALGORITHM"@) {
        spec_algorithm_type_value(s, ws_end(s, b))
    } else {
        Parsed::NoMatch
    }
}

pub fn algorithm_type_at(src: &Input, p: usize) -> (r: Option<(usize, AlgorithmType)>)
    requires
        p <= src@.len(),
    ensures
        agrees(r, spec_algorithm_type(src@, p as int)),
        r matches Some((q, _)) ==> p <= q <= src@.len(),
{
    if !src.tag_nc(p, "ALGORITHM") {
        return None;
    }
    let a = src.skip_ws(p + "ALGORITHM".unicode_len());
    let b = if src.is_char(a, '=') {
        a + 1
    } else {
        a
    };
    algorithm_type_value_at(src, src.skip_ws(b))
}

impl AlgorithmType {
    /// `ALGORITHM ... {DEFAULT | INPLACE | COPY}`
    pub fn parse(i: &str) -> (r: Result<(&str, AlgorithmType), ParseSQLError>)
        ensures
            str_agrees(i@, r, spec_algorithm_type(i@, 0)),
    {
        let src = Input::new(i);
        match algorithm_type_at(&src, 0) {
            Some((q, v)) => Ok((src.rest(q), v)),
            None => Err(ParseSQLError::grammar(i)),
        }
    }
}

/// LOCK [=] {DEFAULT | NONE | SHARED | EXCLUSIVE}
#[derive(Clone, Copy, Debug, Eq, Hash, PartialEq, Structural)]
pub enum LockType {
    Default,
    NoLock,
    Shared,
    Exclusive,
}

impl DeepView for LockType {
    type V = LockType;

    open spec fn deep_view(&self) -> LockType {
        *self
    }
}

/// `{DEFAULT | NONE | SHARED | EXCLUSIVE}`, ignoring case, tried in this order.
pub open spec fn spec_lock_type_value(s: Seq<char>, p: int) -> Parsed<LockType> {
    if has_tag_nc(s, p, "DEFAULT"@) {
        Parsed::Done(p + "DEFAULT"@.len(), LockType::Default)
    } else if has_tag_nc(s, p, "NONE"@) {
        Parsed::Done(p + "NONE"@.len(), LockType::NoLock)
    } else if has_tag_nc(s, p, "SHARED"@) {
        Parsed::Done(p + "SHARED"@.len(), LockType::Shared)
    } else if has_tag_nc(s, p, "EXCLUSIVE"@) {
        Parsed::Done(p + "EXCLUSIVE"@.len(), LockType::Exclusive)
    } else {
        Parsed::NoMatch
    }
}

fn lock_type_value_at(src: &Input, p: usize) -> (r: Option<(usize, LockType)>)
    requires
        p <= src@.len(),
    ensures
        agrees(r, spec_lock_type_value(src@, p as int)),
        r matches Some((q, _)) ==> p <= q <= src@.len(),
{
    if src.tag_nc(p, "DEFAULT") {
        Some((p + "DEFAULT".unicode_len(), LockType::Default))
    } else if src.tag_nc(p, "NONE") {
        Some((p + "NONE".unicode_len(), LockType::NoLock))
    } else if src.tag_nc(p, "SHARED") {
        Some((p + "SHARED".unicode_len(), LockType::Shared))
    } else if src.tag_nc(p, "EXCLUSIVE") {
        Some((p + "EXCLUSIVE".unicode_len(), LockType::Exclusive))
    } else {
        None
    }
}

/// `LOCK [ws][= ][ws]value[ws]`, the keyword ignoring case.
pub open spec fn spec_lock_type(s: Seq<char>, p: int) -> Parsed<LockType> {
    let a = ws_end(s, p + "LOCK "@.len());
    let b = if has_tag(s, a, "= "@) {
        a + 2
    } else {
        a
    };
    if has_tag_nc(s, p, "LOCK "@) {
        match spec_lock_type_value(s, ws_end(s, b)) {
            Parsed::Done(e, v) => Parsed::Done(ws_end(s, e), v),
            other => other,
        }
    } else {
        Parsed::NoMatch
    }
}

pub fn lock_type_at(src: &Input, p: usize) -> (r: Option<(usize, LockType)>)
    requires
        p <= src@.len(),
    ensures
        agrees(r, spec_lock_type(src@, p as int)),
        r matches Some((q, _)) ==> p <= q <= src@.len(),
{
    if !src.tag_nc(p, "LOCK ") {
        return None;
    }
    let a = src.skip_ws(p + "LOCK ".unicode_len());
    proof {
        reveal_strlit("= ");
    }
    let b = if src.tag(a, "= ") {
        a + 2
    } else {
        a
    };
    match lock_type_value_at(src, src.skip_ws(b)) {
        Some((e, v)) => Some((src.skip_ws(e), v)),
        None => None,
    }
}

impl LockType {
    /// `LOCK  ... {DEFAULT | NONE | SHARED | EXCLUSIVE}`
    pub fn parse(i: &str) -> (r: Result<(&str, LockType), ParseSQLError>)
        ensures
            str_agrees(i@, r, spec_lock_type(i@, 0)),
    {
        let src = Input::new(i);
        match lock_type_at(&src, 0) {
            Some((q, v)) => Ok((src.rest(q), v)),
            None => Err(ParseSQLError::grammar(i)),
        }
    }
}

/// [MATCH FULL | MATCH PARTIAL | MATCH SIMPLE]
#[derive(Clone, Copy, Debug, Eq, Hash, PartialEq, Structural)]
pub enum MatchType {
    Full,
    Partial,
    Simple,
}

impl DeepView for MatchType {
    type V = MatchType;

    open spec fn deep_view(&self) -> MatchType {
        *self
    }
}

/// `{FULL | PARTIAL | SIMPLE}`, ignoring case, tried in this order.
pub open spec fn spec_match_type_value(s: Seq<char>, p: int) -> Parsed<MatchType> {
    if has_tag_nc(s, p, "FULL"@) {
        Parsed::Done(p + "FULL"@.len(), MatchType::Full)
    } else if has_tag_nc(s, p, "PARTIAL"@) {
        Parsed::Done(p + "PARTIAL"@.len(), MatchType::Partial)
    } else if has_tag_nc(s, p, "SIMPLE"@) {
        Parsed::Done(p + "SIMPLE"@.len(), MatchType::Simple)
    } else {
        Parsed::NoMatch
    }
}

fn match_type_value_at(src: &Input, p: usize) -> (r: Option<(usize, MatchType)>)
    requires
        p <= src@.len(),
    ensures
        agrees(r, spec_match_type_value(src@, p as int)),
        r matches Some((q, _)) ==> p <= q <= src@.len(),
{
    if src.tag_nc(p, "FULL") {
        Some((p + "FULL".unicode_len(), MatchType::Full))
    } else if src.tag_nc(p, "PARTIAL") {
        Some((p + "PARTIAL".unicode_len(), MatchType::Partial))
    } else if src.tag_nc(p, "SIMPLE") {
        Some((p + "SIMPLE".unicode_len(), MatchType::Simple))
    } else {
        None
    }
}

/// `MATCH ws value`, the keyword ignoring case.
pub open spec fn spec_match_type(s: Seq<char>, p: int) -> Parsed<MatchType> {
    let q = p + "MATCH"@.len();
    if has_tag_nc(s, p, "MATCH"@) && ws_end(s, q) > q {
        spec_match_type_value(s, ws_end(s, q))
    } else {
        Parsed::NoMatch
    }
}

pub fn match_type_at(src: &Input, p: usize) -> (r: Option<(usize, MatchType)>)
    requires
        p <= src@.len(),
    ensures
        agrees(r, spec_match_type(src@, p as int)),
        r matches Some((q, _)) ==> p <= q <= src@.len(),
{
    if !src.tag_nc(p, "MATCH") {
        return None;
    }
    let q = p + "MATCH".unicode_len();
    let w = src.skip_ws(q);
    if w == q {
        return None;
    }
    match_type_value_at(src, w)
}

impl MatchType {
    /// `MATCH ... {FULL | PARTIAL | SIMPLE}`
    pub fn parse(i: &str) -> (r: Result<(&str, MatchType), ParseSQLError>)
        ensures
            str_agrees(i@, r, spec_match_type(i@, 0)),
    {
        let src = Input::new(i);
        match match_type_at(&src, 0) {
            Some((q, v)) => Ok((src.rest(q), v)),
            None => Err(ParseSQLError::grammar(i)),
        }
    }
}

/// reference_option: `RESTRICT | CASCADE | SET NULL | NO ACTION | SET DEFAULT`
#[derive(Clone, Copy, Debug, Eq, Hash, PartialEq, Structural)]
pub enum ReferenceType {
    Restrict,
    Cascade,
    SetNull,
    NoAction,
    SetDefault,
}

impl DeepView for ReferenceType {
    type V = ReferenceType;

    open spec fn deep_view(&self) -> ReferenceType {
        *self
    }
}

/// `RESTRICT | CASCADE | SET ws NULL | NO ws ACTION | SET ws DEFAULT`, ignoring
/// case, tried in this order.
pub open spec fn spec_reference_type(s: Seq<char>, p: int) -> Parsed<ReferenceType> {
    if has_tag_nc(s, p, "RESTRICT"@) {
        Parsed::Done(p + "RESTRICT"@.len(), ReferenceType::Restrict)
    } else if has_tag_nc(s, p, "CASCADE"@) {
        Parsed::Done(p + "CASCADE"@.len(), ReferenceType::Cascade)
    } else if let Some(e) = two_words(s, p, "SET"@, "NULL"@) {
        Parsed::Done(e, ReferenceType::SetNull)
    } else if let Some(e) = two_words(s, p, "NO"@, "ACTION"@) {
        Parsed::Done(e, ReferenceType::NoAction)
    } else if let Some(e) = two_words(s, p, "SET"@, "DEFAULT"@) {
        Parsed::Done(e, ReferenceType::SetDefault)
    } else {
        Parsed::NoMatch
    }
}

pub fn reference_type_at(src: &Input, p: usize) -> (r: Option<(usize, ReferenceType)>)
    requires
        p <= src@.len(),
    ensures
        agrees(r, spec_reference_type(src@, p as int)),
        r matches Some((q, _)) ==> p <= q <= src@.len(),
{
    if src.tag_nc(p, "RESTRICT") {
        return Some((p + "RESTRICT".unicode_len(), ReferenceType::Restrict));
    }
    if src.tag_nc(p, "CASCADE") {
        return Some((p + "CASCADE".unicode_len(), ReferenceType::Cascade));
    }
    if let Some(e) = two_words_at(src, p, "SET", "NULL") {
        return Some((e, ReferenceType::SetNull));
    }
    if let Some(e) = two_words_at(src, p, "NO", "ACTION") {
        return Some((e, ReferenceType::NoAction));
    }
    if let Some(e) = two_words_at(src, p, "SET", "DEFAULT") {
        return Some((e, ReferenceType::SetDefault));
    }
    None
}

impl ReferenceType {
    /// reference_option: `RESTRICT | CASCADE | SET NULL | NO ACTION | SET DEFAULT`
    pub fn parse(i: &str) -> (r: Result<(&str, ReferenceType), ParseSQLError>)
        ensures
            str_agrees(i@, r, spec_reference_type(i@, 0)),
    {
        let src = Input::new(i);
        match reference_type_at(&src, 0) {
            Some((q, v)) => Ok((src.rest(q), v)),
            None => Err(ParseSQLError::grammar(i)),
        }
    }
}

/// {'ZLIB' | 'LZ4' | 'NONE'}
#[derive(Clone, Copy, Debug, Eq, Hash, PartialEq, Structural)]
pub enum CompressionType {
    ZLIB,
    LZ4,
    NONE,
}

impl DeepView for CompressionType {
    type V = CompressionType;

    open spec fn deep_view(&self) -> CompressionType {
        *self
    }
}

/// `q word q` with each `q` either `'` or `"`, the word ignoring case: where it ends.
pub open spec fn quoted_word(s: Seq<char>, p: int, w: Seq<char>) -> Option<int> {
    let e = p + 1 + w.len();
    if (char_at(s, p, '\'') || char_at(s, p, '"')) && has_tag_nc(s, p + 1, w) && (char_at(
        s,
        e,
        '\'',
    ) || char_at(s, e, '"')) {
        Some(e + 1)
    } else {
        None
    }
}

/// `ZLIB`, `LZ4` or `NONE` in quotes, tried in this order.
pub open spec fn spec_compression_type(s: Seq<char>, p: int) -> Parsed<CompressionType> {
    if let Some(e) = quoted_word(s, p, "ZLIB"@) {
        Parsed::Done(e, CompressionType::ZLIB)
    } else if let Some(e) = quoted_word(s, p, "LZ4"@) {
        Parsed::Done(e, CompressionType::LZ4)
    } else if let Some(e) = quoted_word(s, p, "NONE"@) {
        Parsed::Done(e, CompressionType::NONE)
    } else {
        Parsed::NoMatch
    }
}

fn quoted_word_at(src: &Input, p: usize, w: &str) -> (r: Option<usize>)
    requires
        p <= src@.len(),
    ensures
        match quoted_word(src@, p as int, w@) {
            Some(e) => r matches Some(e2) && e2 == e,
            None => r is None,
        },
        r matches Some(e) ==> p <= e <= src@.len(),
{
    if !(src.is_char(p, '\'') || src.is_char(p, '"')) || !src.tag_nc(p + 1, w) {
        return None;
    }
    let e = p + 1 + w.unicode_len();
    if src.is_char(e, '\'') || src.is_char(e, '"') {
        Some(e + 1)
    } else {
        None
    }
}

pub fn compression_type_at(src: &Input, p: usize) -> (r: Option<(usize, CompressionType)>)
    requires
        p <= src@.len(),
    ensures
        agrees(r, spec_compression_type(src@, p as int)),
        r matches Some((q, _)) ==> p <= q <= src@.len(),
{
    if let Some(e) = quoted_word_at(src, p, "ZLIB") {
        Some((e, CompressionType::ZLIB))
    } else if let Some(e) = quoted_word_at(src, p, "LZ4") {
        Some((e, CompressionType::LZ4))
    } else if let Some(e) = quoted_word_at(src, p, "NONE") {
        Some((e, CompressionType::NONE))
    } else {
        None
    }
}

impl CompressionType {
    /// `{'ZLIB' | 'LZ4' | 'NONE'}`
    pub fn parse(i: &str) -> (r: Result<(&str, CompressionType), ParseSQLError>)
        ensures
            str_agrees(i@, r, spec_compression_type(i@, 0)),
    {
        let src = Input::new(i);
        match compression_type_at(&src, 0) {
            Some((q, v)) => Ok((src.rest(q), v)),
            None => Err(ParseSQLError::grammar(i)),
        }
    }
}

/// { NO | FIRST | LAST }
#[derive(Clone, Copy, Debug, Eq, Hash, PartialEq, Structural)]
pub enum InsertMethodType {
    No,
    First,
    Last,
}

impl DeepView for InsertMethodType {
    type V = InsertMethodType;

    open spec fn deep_view(&self) -> InsertMethodType {
        *self
    }
}

/// `{NO | FIRST | LAST}`, ignoring case, tried in this order.
pub open spec fn spec_insert_method_type_value(s: Seq<char>, p: int) -> Parsed<InsertMethodType> {
    if has_tag_nc(s, p, "NO"@) {
        Parsed::Done(p + "NO"@.len(), InsertMethodType::No)
    } else if has_tag_nc(s, p, "FIRST"@) {
        Parsed::Done(p + "FIRST"@.len(), InsertMethodType::First)
    } else if has_tag_nc(s, p, "LAST"@) {
        Parsed::Done(p + "LAST"@.len(), InsertMethodType::Last)
    } else {
        Parsed::NoMatch
    }
}

fn insert_method_type_value_at(src: &Input, p: usize) -> (r: Option<(usize, InsertMethodType)>)
    requires
        p <= src@.len(),
    ensures
        agrees(r, spec_insert_method_type_value(src@, p as int)),
        r matches Some((q, _)) ==> p <= q <= src@.len(),
{
    if src.tag_nc(p, "NO") {
        Some((p + "NO".unicode_len(), InsertMethodType::No))
    } else if src.tag_nc(p, "FIRST") {
        Some((p + "FIRST".unicode_len(), InsertMethodType::First))
    } else if src.tag_nc(p, "LAST") {
        Some((p + "LAST".unicode_len(), InsertMethodType::Last))
    } else {
        None
    }
}

pub open spec fn spec_insert_method_type(s: Seq<char>, p: int) -> Parsed<InsertMethodType> {
    spec_insert_method_type_value(s, p)
}

pub fn insert_method_type_at(src: &Input, p: usize) -> (r: Option<(usize, InsertMethodType)>)
    requires
        p <= src@.len(),
    ensures
        agrees(r, spec_insert_method_type(src@, p as int)),
        r matches Some((q, _)) ==> p <= q <= src@.len(),
{
    insert_method_type_value_at(src, p)
}

impl InsertMethodType {
    /// `{NO | FIRST | LAST}`
    pub fn parse(i: &str) -> (r: Result<(&str, InsertMethodType), ParseSQLError>)
        ensures
            str_agrees(i@, r, spec_insert_method_type(i@, 0)),
    {
        let src = Input::new(i);
        match insert_method_type_at(&src, 0) {
            Some((q, v)) => Ok((src.rest(q), v)),
            None => Err(ParseSQLError::grammar(i)),
        }
    }
}

/// {DEFAULT | DYNAMIC | FIXED | COMPRESSED | REDUNDANT | COMPACT}
#[derive(Clone, Copy, Debug, Eq, Hash, PartialEq, Structural)]
pub enum RowFormatType {
    Default,
    Dynamic,
    Fixed,
    Compressed,
    Redundant,
    Compact,
}

impl DeepView for RowFormatType {
    type V = RowFormatType;

    open spec fn deep_view(&self) -> RowFormatType {
        *self
    }
}

/// `{DEFAULT | DYNAMIC | FIXED | COMPRESSED | REDUNDANT | COMPACT}`, ignoring case, tried in this order.
pub open spec fn spec_row_format_type_value(s: Seq<char>, p: int) -> Parsed<RowFormatType> {
    if has_tag_nc(s, p, "DEFAULT"@) {
        Parsed::Done(p + "DEFAULT"@.len(), RowFormatType::Default)
    } else if has_tag_nc(s, p, "DYNAMIC"@) {
        Parsed::Done(p + "DYNAMIC"@.len(), RowFormatType::Dynamic)
    } else if has_tag_nc(s, p, "FIXED"@) {
        Parsed::Done(p + "FIXED"@.len(), RowFormatType::Fixed)
    } else if has_tag_nc(s, p, "COMPRESSED"@) {
        Parsed::Done(p + "COMPRESSED"@.len(), RowFormatType::Compressed)
    } else if has_tag_nc(s, p, "REDUNDANT"@) {
        Parsed::Done(p + "REDUNDANT"@.len(), RowFormatType::Redundant)
    } else if has_tag_nc(s, p, "COMPACT"@) {
        Parsed::Done(p + "COMPACT"@.len(), RowFormatType::Compact)
    } else {
        Parsed::NoMatch
    }
}

fn row_format_type_value_at(src: &Input, p: usize) -> (r: Option<(usize, RowFormatType)>)
    requires
        p <= src@.len(),
    ensures
        agrees(r, spec_row_format_type_value(src@, p as int)),
        r matches Some((q, _)) ==> p <= q <= src@.len(),
{
    if src.tag_nc(p, "DEFAULT") {
        Some((p + "DEFAULT".unicode_len(), RowFormatType::Default))
    } else if src.tag_nc(p, "DYNAMIC") {
        Some((p + "DYNAMIC".unicode_len(), RowFormatType::Dynamic))
    } else if src.tag_nc(p, "FIXED") {
        Some((p + "FIXED".unicode_len(), RowFormatType::Fixed))
    } else if src.tag_nc(p, "COMPRESSED") {
        Some((p + "COMPRESSED".unicode_len(), RowFormatType::Compressed))
    } else if src.tag_nc(p, "REDUNDANT") {
        Some((p + "REDUNDANT".unicode_len(), RowFormatType::Redundant))
    } else if src.tag_nc(p, "COMPACT") {
        Some((p + "COMPACT".unicode_len(), RowFormatType::Compact))
    } else {
        None
    }
}

pub open spec fn spec_row_format_type(s: Seq<char>, p: int) -> Parsed<RowFormatType> {
    spec_row_format_type_value(s, p)
}

pub fn row_format_type_at(src: &Input, p: usize) -> (r: Option<(usize, RowFormatType)>)
    requires
        p <= src@.len(),
    ensures
        agrees(r, spec_row_format_type(src@, p as int)),
        r matches Some((q, _)) ==> p <= q <= src@.len(),
{
    row_format_type_value_at(src, p)
}

impl RowFormatType {
    /// `{DEFAULT | DYNAMIC | FIXED | COMPRESSED | REDUNDANT | COMPACT}`
    pub fn parse(i: &str) -> (r: Result<(&str, RowFormatType), ParseSQLError>)
        ensures
            str_agrees(i@, r, spec_row_format_type(i@, 0)),
    {
        let src = Input::new(i);
        match row_format_type_at(&src, 0) {
            Some((q, v)) => Ok((src.rest(q), v)),
            None => Err(ParseSQLError::grammar(i)),
        }
    }
}

/// {DEFAULT | 0 | 1}
#[derive(Clone, Copy, Debug, Eq, Hash, PartialEq, Structural)]
pub enum DefaultOrZeroOrOne {
    Default,
    Zero,
    One,
}

impl DeepView for DefaultOrZeroOrOne {
    type V = DefaultOrZeroOrOne;

    open spec fn deep_view(&self) -> DefaultOrZeroOrOne {
        *self
    }
}

/// `{0 | 1 | DEFAULT}`, ignoring case, tried in this order.
pub open spec fn spec_default_or_zero_or_one_value(s: Seq<char>, p: int) -> Parsed<DefaultOrZeroOrOne> {
    if has_tag_nc(s, p, "0"@) {
        Parsed::Done(p + "0"@.len(), DefaultOrZeroOrOne::Zero)
    } else if has_tag_nc(s, p, "1"@) {
        Parsed::Done(p + "1"@.len(), DefaultOrZeroOrOne::One)
    } else if has_tag_nc(s, p, "DEFAULT"@) {
        Parsed::Done(p + "DEFAULT"@.len(), DefaultOrZeroOrOne::Default)
    } else {
        Parsed::NoMatch
    }
}

fn default_or_zero_or_one_value_at(src: &Input, p: usize) -> (r: Option<(usize, DefaultOrZeroOrOne)>)
    requires
        p <= src@.len(),
    ensures
        agrees(r, spec_default_or_zero_or_one_value(src@, p as int)),
        r matches Some((q, _)) ==> p <= q <= src@.len(),
{
    if src.tag_nc(p, "0") {
        Some((p + "0".unicode_len(), DefaultOrZeroOrOne::Zero))
    } else if src.tag_nc(p, "1") {
        Some((p + "1".unicode_len(), DefaultOrZeroOrOne::One))
    } else if src.tag_nc(p, "DEFAULT") {
        Some((p + "DEFAULT".unicode_len(), DefaultOrZeroOrOne::Default))
    } else {
        None
    }
}

pub open spec fn spec_default_or_zero_or_one(s: Seq<char>, p: int) -> Parsed<DefaultOrZeroOrOne> {
    spec_default_or_zero_or_one_value(s, p)
}

pub fn default_or_zero_or_one_at(src: &Input, p: usize) -> (r: Option<(usize, DefaultOrZeroOrOne)>)
    requires
        p <= src@.len(),
    ensures
        agrees(r, spec_default_or_zero_or_one(src@, p as int)),
        r matches Some((q, _)) ==> p <= q <= src@.len(),
{
    default_or_zero_or_one_value_at(src, p)
}

/// The text `to_string` gives for each value.
pub open spec fn default_or_zero_or_one_text(v: DefaultOrZeroOrOne) -> Seq<char> {
    match v {
        DefaultOrZeroOrOne::Default => "DEFAULT"@,
        DefaultOrZeroOrOne::Zero => "0"@,
        DefaultOrZeroOrOne::One => "1"@,
    }
}

impl DefaultOrZeroOrOne {
    /// `{0 | 1 | DEFAULT}`
    pub fn parse(i: &str) -> (r: Result<(&str, DefaultOrZeroOrOne), ParseSQLError>)
        ensures
            str_agrees(i@, r, spec_default_or_zero_or_one(i@, 0)),
    {
        let src = Input::new(i);
        match default_or_zero_or_one_at(&src, 0) {
            Some((q, v)) => Ok((src.rest(q), v)),
            None => Err(ParseSQLError::grammar(i)),
        }
    }
    /// The text of the value.
    pub fn to_string(&self) -> (r: String)
        ensures
            r@ == default_or_zero_or_one_text(*self),
    {
        match self {
            DefaultOrZeroOrOne::Default => "DEFAULT".to_owned(),
            DefaultOrZeroOrOne::Zero => "0".to_owned(),
            DefaultOrZeroOrOne::One => "1".to_owned(),
        }
    }
}

/// STORAGE {DISK | MEMORY}
#[derive(Clone, Copy, Debug, Eq, Hash, PartialEq, Structural)]
pub enum TablespaceType {
    StorageDisk,
    StorageMemory,
}

impl DeepView for TablespaceType {
    type V = TablespaceType;

    open spec fn deep_view(&self) -> TablespaceType {
        *self
    }
}

/// `{DISK | MEMORY}`, ignoring case, tried in this order.
pub open spec fn spec_tablespace_type_value(s: Seq<char>, p: int) -> Parsed<TablespaceType> {
    if has_tag_nc(s, p, "DISK"@) {
        Parsed::Done(p + "DISK"@.len(), TablespaceType::StorageDisk)
    } else if has_tag_nc(s, p, "MEMORY"@) {
        Parsed::Done(p + "MEMORY"@.len(), TablespaceType::StorageMemory)
    } else {
        Parsed::NoMatch
    }
}

fn tablespace_type_value_at(src: &Input, p: usize) -> (r: Option<(usize, TablespaceType)>)
    requires
        p <= src@.len(),
    ensures
        agrees(r, spec_tablespace_type_value(src@, p as int)),
        r matches Some((q, _)) ==> p <= q <= src@.len(),
{
    if src.tag_nc(p, "DISK") {
        Some((p + "DISK".unicode_len(), TablespaceType::StorageDisk))
    } else if src.tag_nc(p, "MEMORY") {
        Some((p + "MEMORY".unicode_len(), TablespaceType::StorageMemory))
    } else {
        None
    }
}

pub open spec fn spec_tablespace_type(s: Seq<char>, p: int) -> Parsed<TablespaceType> {
    spec_tablespace_type_value(s, p)
}

pub fn tablespace_type_at(src: &Input, p: usize) -> (r: Option<(usize, TablespaceType)>)
    requires
        p <= src@.len(),
    ensures
        agrees(r, spec_tablespace_type(src@, p as int)),
        r matches Some((q, _)) ==> p <= q <= src@.len(),
{
    tablespace_type_value_at(src, p)
}

impl TablespaceType {
    /// `{DISK | MEMORY}`
    pub fn parse(i: &str) -> (r: Result<(&str, TablespaceType), ParseSQLError>)
        ensures
            str_agrees(i@, r, spec_tablespace_type(i@, 0)),
    {
        let src = Input::new(i);
        match tablespace_type_at(&src, 0) {
            Some((q, v)) => Ok((src.rest(q), v)),
            None => Err(ParseSQLError::grammar(i)),
        }
    }
}

/// {FULLTEXT | SPATIAL}
#[derive(Clone, Copy, Debug, Eq, Hash, PartialEq, Structural)]
pub enum FulltextOrSpatialType {
    Fulltext,
    Spatial,
}

impl DeepView for FulltextOrSpatialType {
    type V = FulltextOrSpatialType;

    open spec fn deep_view(&self) -> FulltextOrSpatialType {
        *self
    }
}

/// `{FULLTEXT | SPATIAL}`, ignoring case, tried in this order.
pub open spec fn spec_fulltext_or_spatial_type_value(s: Seq<char>, p: int) -> Parsed<FulltextOrSpatialType> {
    if has_tag_nc(s, p, "FULLTEXT"@) {
        Parsed::Done(p + "FULLTEXT"@.len(), FulltextOrSpatialType::Fulltext)
    } else if has_tag_nc(s, p, "SPATIAL"@) {
        Parsed::Done(p + "SPATIAL"@.len(), FulltextOrSpatialType::Spatial)
    } else {
        Parsed::NoMatch
    }
}

fn fulltext_or_spatial_type_value_at(src: &Input, p: usize) -> (r: Option<(usize, FulltextOrSpatialType)>)
    requires
        p <= src@.len(),
    ensures
        agrees(r, spec_fulltext_or_spatial_type_value(src@, p as int)),
        r matches Some((q, _)) ==> p <= q <= src@.len(),
{
    if src.tag_nc(p, "FULLTEXT") {
        Some((p + "FULLTEXT".unicode_len(), FulltextOrSpatialType::Fulltext))
    } else if src.tag_nc(p, "SPATIAL") {
        Some((p + "SPATIAL".unicode_len(), FulltextOrSpatialType::Spatial))
    } else {
        None
    }
}

pub open spec fn spec_fulltext_or_spatial_type(s: Seq<char>, p: int) -> Parsed<FulltextOrSpatialType> {
    spec_fulltext_or_spatial_type_value(s, p)
}

pub fn fulltext_or_spatial_type_at(src: &Input, p: usize) -> (r: Option<(usize, FulltextOrSpatialType)>)
    requires
        p <= src@.len(),
    ensures
        agrees(r, spec_fulltext_or_spatial_type(src@, p as int)),
        r matches Some((q, _)) ==> p <= q <= src@.len(),
{
    fulltext_or_spatial_type_value_at(src, p)
}

impl FulltextOrSpatialType {
    /// `{FULLTEXT | SPATIAL}`
    pub fn parse(i: &str) -> (r: Result<(&str, FulltextOrSpatialType), ParseSQLError>)
        ensures
            str_agrees(i@, r, spec_fulltext_or_spatial_type(i@, 0)),
    {
        let src = Input::new(i);
        match fulltext_or_spatial_type_at(&src, 0) {
            Some((q, v)) => Ok((src.rest(q), v)),
            None => Err(ParseSQLError::grammar(i)),
        }
    }
}

/// {INDEX | KEY}
#[derive(Clone, Copy, Debug, Eq, Hash, PartialEq, Structural)]
pub enum IndexOrKeyType {
    Index,
    Key,
}

impl DeepView for IndexOrKeyType {
    type V = IndexOrKeyType;

    open spec fn deep_view(&self) -> IndexOrKeyType {
        *self
    }
}

/// `{KEY | INDEX}`, ignoring case, tried in this order.
pub open spec fn spec_index_or_key_type_value(s: Seq<char>, p: int) -> Parsed<IndexOrKeyType> {
    if has_tag_nc(s, p, "KEY"@) {
        Parsed::Done(p + "KEY"@.len(), IndexOrKeyType::Key)
    } else if has_tag_nc(s, p, "INDEX"@) {
        Parsed::Done(p + "INDEX"@.len(), IndexOrKeyType::Index)
    } else {
        Parsed::NoMatch
    }
}

fn index_or_key_type_value_at(src: &Input, p: usize) -> (r: Option<(usize, IndexOrKeyType)>)
    requires
        p <= src@.len(),
    ensures
        agrees(r, spec_index_or_key_type_value(src@, p as int)),
        r matches Some((q, _)) ==> p <= q <= src@.len(),
{
    if src.tag_nc(p, "KEY") {
        Some((p + "KEY".unicode_len(), IndexOrKeyType::Key))
    } else if src.tag_nc(p, "INDEX") {
        Some((p + "INDEX".unicode_len(), IndexOrKeyType::Index))
    } else {
        None
    }
}

pub open spec fn spec_index_or_key_type(s: Seq<char>, p: int) -> Parsed<IndexOrKeyType> {
    spec_index_or_key_type_value(s, p)
}

pub fn index_or_key_type_at(src: &Input, p: usize) -> (r: Option<(usize, IndexOrKeyType)>)
    requires
        p <= src@.len(),
    ensures
        agrees(r, spec_index_or_key_type(src@, p as int)),
        r matches Some((q, _)) ==> p <= q <= src@.len(),
{
    index_or_key_type_value_at(src, p)
}

impl IndexOrKeyType {
    /// `{KEY | INDEX}`
    pub fn parse(i: &str) -> (r: Result<(&str, IndexOrKeyType), ParseSQLError>)
        ensures
            str_agrees(i@, r, spec_index_or_key_type(i@, 0)),
    {
        let src = Input::new(i);
        match index_or_key_type_at(&src, 0) {
            Some((q, v)) => Ok((src.rest(q), v)),
            None => Err(ParseSQLError::grammar(i)),
        }
    }
}

/// [CONSTRAINT [symbol]] CHECK (expr) [[NOT] ENFORCED]
#[derive(Clone, Debug, Eq, Hash, PartialEq)]
pub struct CheckConstraintDefinition {
    pub symbol: Option<String>,
    pub expr: String,
    pub enforced: bool,
}

/// {VISIBLE | INVISIBLE}
#[derive(Clone, Copy, Debug, Eq, Hash, PartialEq, Structural)]
pub enum VisibleType {
    Visible,
    Invisible,
}

impl DeepView for VisibleType {
    type V = VisibleType;

    open spec fn deep_view(&self) -> VisibleType {
        *self
    }
}

/// `{VISIBLE | INVISIBLE}`, ignoring case, tried in this order.
pub open spec fn spec_visible_type_value(s: Seq<char>, p: int) -> Parsed<VisibleType> {
    if has_tag_nc(s, p, "VISIBLE"@) {
        Parsed::Done(p + "VISIBLE"@.len(), VisibleType::Visible)
    } else if has_tag_nc(s, p, "INVISIBLE"@) {
        Parsed::Done(p + "INVISIBLE"@.len(), VisibleType::Invisible)
    } else {
        Parsed::NoMatch
    }
}

fn visible_type_value_at(src: &Input, p: usize) -> (r: Option<(usize, VisibleType)>)
    requires
        p <= src@.len(),
    ensures
        agrees(r, spec_visible_type_value(src@, p as int)),
        r matches Some((q, _)) ==> p <= q <= src@.len(),
{
    if src.tag_nc(p, "VISIBLE") {
        Some((p + "VISIBLE".unicode_len(), VisibleType::Visible))
    } else if src.tag_nc(p, "INVISIBLE") {
        Some((p + "INVISIBLE".unicode_len(), VisibleType::Invisible))
    } else {
        None
    }
}

pub open spec fn spec_visible_type(s: Seq<char>, p: int) -> Parsed<VisibleType> {
    spec_visible_type_value(s, p)
}

pub fn visible_type_at(src: &Input, p: usize) -> (r: Option<(usize, VisibleType)>)
    requires
        p <= src@.len(),
    ensures
        agrees(r, spec_visible_type(src@, p as int)),
        r matches Some((q, _)) ==> p <= q <= src@.len(),
{
    visible_type_value_at(src, p)
}

impl VisibleType {
    /// `{VISIBLE | INVISIBLE}`
    pub fn parse(i: &str) -> (r: Result<(&str, VisibleType), ParseSQLError>)
        ensures
            str_agrees(i@, r, spec_visible_type(i@, 0)),
    {
        let src = Input::new(i);
        match visible_type_at(&src, 0) {
            Some((q, v)) => Ok((src.rest(q), v)),
            None => Err(ParseSQLError::grammar(i)),
        }
    }
}

/// USING {BTREE | HASH}
#[derive(Clone, Copy, Debug, Eq, Hash, PartialEq, Structural)]
pub enum IndexType {
    Btree,
    Hash,
}

impl DeepView for IndexType {
    type V = IndexType;

    open spec fn deep_view(&self) -> IndexType {
        *self
    }
}

/// `{BTREE | HASH}`, ignoring case, tried in this order.
pub open spec fn spec_index_type_value(s: Seq<char>, p: int) -> Parsed<IndexType> {
    if has_tag_nc(s, p, "BTREE"@) {
        Parsed::Done(p + "BTREE"@.len(), IndexType::Btree)
    } else if has_tag_nc(s, p, "HASH"@) {
        Parsed::Done(p + "HASH"@.len(), IndexType::Hash)
    } else {
        Parsed::NoMatch
    }
}

fn index_type_value_at(src: &Input, p: usize) -> (r: Option<(usize, IndexType)>)
    requires
        p <= src@.len(),
    ensures
        agrees(r, spec_index_type_value(src@, p as int)),
        r matches Some((q, _)) ==> p <= q <= src@.len(),
{
    if src.tag_nc(p, "BTREE") {
        Some((p + "BTREE".unicode_len(), IndexType::Btree))
    } else if src.tag_nc(p, "HASH") {
        Some((p + "HASH".unicode_len(), IndexType::Hash))
    } else {
        None
    }
}

/// `USING ws value`, the keyword ignoring case.
pub open spec fn spec_index_type(s: Seq<char>, p: int) -> Parsed<IndexType> {
    let q = p + "USING"@.len();
    if has_tag_nc(s, p, "USING"@) && ws_end(s, q) > q {
        spec_index_type_value(s, ws_end(s, q))
    } else {
        Parsed::NoMatch
    }
}

pub fn index_type_at(src: &Input, p: usize) -> (r: Option<(usize, IndexType)>)
    requires
        p <= src@.len(),
    ensures
        agrees(r, spec_index_type(src@, p as int)),
        r matches Some((q, _)) ==> p <= q <= src@.len(),
{
    if !src.tag_nc(p, "USING") {
        return None;
    }
    let q = p + "USING".unicode_len();
    let w = src.skip_ws(q);
    if w == q {
        return None;
    }
    index_type_value_at(src, w)
}

/// The text `to_string` gives for each value.
pub open spec fn index_type_text(v: IndexType) -> Seq<char> {
    match v {
        IndexType::Btree => " USING BTREE"@,
        IndexType::Hash => " USING HASH"@,
    }
}

impl IndexType {
    /// `USING ... {BTREE | HASH}`
    pub fn parse(i: &str) -> (r: Result<(&str, IndexType), ParseSQLError>)
        ensures
            str_agrees(i@, r, spec_index_type(i@, 0)),
    {
        let src = Input::new(i);
        match index_type_at(&src, 0) {
            Some((q, v)) => Ok((src.rest(q), v)),
            None => Err(ParseSQLError::grammar(i)),
        }
    }
    /// The text of the value.
    pub fn to_string(&self) -> (r: String)
        ensures
            r@ == index_type_text(*self),
    {
        match self {
            IndexType::Btree => " USING BTREE".to_owned(),
            IndexType::Hash => " USING HASH".to_owned(),
        }
    }
}

/// `[ws index_type [ws]]`, optional.
pub open spec fn spec_opt_index_type(s: Seq<char>, p: int) -> Parsed<Option<IndexType>> {
    let a = ws_end(s, p);
    if a > p && spec_index_type(s, a) is Done {
        match spec_index_type(s, a) {
            Parsed::Done(q, v) => Parsed::Done(ws_end(s, q), Some(v)),
            _ => Parsed::NoMatch,
        }
    } else {
        Parsed::Done(p, None)
    }
}

pub fn opt_index_type_at(src: &Input, p: usize) -> (r: Option<(usize, Option<IndexType>)>)
    requires
        p <= src@.len(),
    ensures
        agrees(r, spec_opt_index_type(src@, p as int)),
        r matches Some((q, _)) ==> p <= q <= src@.len(),
{
    let w = src.skip_ws(p);
    if w > p {
        if let Some((q, v)) = index_type_at(src, w) {
            return Some((src.skip_ws(q), Some(v)));
        }
    }
    Some((p, None))
}

impl IndexType {
    /// `[index_type]`: `USING {BTREE | HASH}` after white space, optional.
    pub fn opt_index_type(i: &str) -> (r: Result<(&str, Option<IndexType>), ParseSQLError>)
        ensures
            str_agrees(i@, r, spec_opt_index_type(i@, 0)),
    {
        let src = Input::new(i);
        match opt_index_type_at(&src, 0) {
            Some((q, v)) => Ok((src.rest(q), v)),
            None => Err(ParseSQLError::grammar(i)),
        }
    }
}

} // verus!
