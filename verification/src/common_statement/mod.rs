//! Option types of statements, with parsers for algorithm, lock, match,
//! reference, visibility, index type, order and key kinds.
use vstd::prelude::*;

use crate::base::error::ParseSQLError;
use crate::base::input::{agrees, char_at, has_tag, has_tag_nc, str_agrees, ws_end, Input, Parsed};
use crate::base::reference_type::{two_words, two_words_at};

verus! {

/// Partitions are not supported yet; the definition carries nothing.
#[derive(Clone, Debug, Eq, Hash, PartialEq)]
pub struct PartitionDefinition {}

/// algorithm_option: `ALGORITHM [=] {DEFAULT | INPLACE | COPY}`
#[derive(Clone, Copy, Debug, Eq, Hash, PartialEq, Structural)]
pub enum AlgorithmOption {
    Default,
    Inplace,
    Copy,
}

impl DeepView for AlgorithmOption {
    type V = AlgorithmOption;

    open spec fn deep_view(&self) -> AlgorithmOption {
        *self
    }
}

/// `{DEFAULT | INPLACE | COPY}`, ignoring case, tried in this order.
pub open spec fn spec_algorithm_option_value(s: Seq<char>, p: int) -> Parsed<AlgorithmOption> {
    if has_tag_nc(s, p, "DEFAULT"@) {
        Parsed::Done(p + "DEFAULT"@.len(), AlgorithmOption::Default)
    } else if has_tag_nc(s, p, "INPLACE"@) {
        Parsed::Done(p + "INPLACE"@.len(), AlgorithmOption::Inplace)
    } else if has_tag_nc(s, p, "COPY"@) {
        Parsed::Done(p + "COPY"@.len(), AlgorithmOption::Copy)
    } else {
        Parsed::NoMatch
    }
}

fn algorithm_option_value_at(src: &Input, p: usize) -> (r: Option<(usize, AlgorithmOption)>)
    requires
        p <= src@.len(),
    ensures
        agrees(r, spec_algorithm_option_value(src@, p as int)),
        r matches Some((q, _)) ==> p <= q <= src@.len(),
{
    if src.tag_nc(p, "DEFAULT") {
        Some((p + "DEFAULT".unicode_len(), AlgorithmOption::Default))
    } else if src.tag_nc(p, "INPLACE") {
        Some((p + "INPLACE".unicode_len(), AlgorithmOption::Inplace))
    } else if src.tag_nc(p, "COPY") {
        Some((p + "COPY".unicode_len(), AlgorithmOption::Copy))
    } else {
        None
    }
}

/// `ALGORITHM [ws] [=] [ws] value`, the keyword ignoring case.
pub open spec fn spec_algorithm_option(s: Seq<char>, p: int) -> Parsed<AlgorithmOption> {
    let a = ws_end(s, p + "ALGORITHM"@.len());
    let b = if char_at(s, a, '=') {
        a + 1
    } else {
        a
    };
    if has_tag_nc(s, p, "ALGORITHM"@) {
        spec_algorithm_option_value(s, ws_end(s, b))
    } else {
        Parsed::NoMatch
    }
}

pub fn algorithm_option_at(src: &Input, p: usize) -> (r: Option<(usize, AlgorithmOption)>)
    requires
        p <= src@.len(),
    ensures
        agrees(r, spec_algorithm_option(src@, p as int)),
        r matches Some((q, _)) ==> p <= q <= src@.len(),
{
    if !src.tag_nc(p, "ALGORITHM") {
        return None;
    }
    let a = src.skip_ws(p + "ALGORITHM".unicode_len());
    let b = if src.is_char(a, '=') {
        a + 1
    } else {
        a
    };
    algorithm_option_value_at(src, src.skip_ws(b))
}

/// `ALGORITHM ... {DEFAULT | INPLACE | COPY}`
pub fn algorithm_option(i: &str) -> (r: Result<(&str, AlgorithmOption), ParseSQLError>)
    ensures
        str_agrees(i@, r, spec_algorithm_option(i@, 0)),
{
    let src = Input::new(i);
    match algorithm_option_at(&src, 0) {
        Some((q, v)) => Ok((src.rest(q), v)),
        None => Err(ParseSQLError::grammar(i)),
    }
}

/// LOCK [=] {DEFAULT | NONE | SHARED | EXCLUSIVE}
#[derive(Clone, Copy, Debug, Eq, Hash, PartialEq, Structural)]
pub enum LockType {
    DEFAULT,
    NONE,
    SHARED,
    EXCLUSIVE,
}

impl DeepView for LockType {
    type V = LockType;

    open spec fn deep_view(&self) -> LockType {
        *self
    }
}

/// `{DEFAULT | NONE | SHARED | EXCLUSIVE}`, ignoring case, tried in this order.
pub open spec fn spec_lock_option_value(s: Seq<char>, p: int) -> Parsed<LockType> {
    if has_tag_nc(s, p, "DEFAULT"@) {
        Parsed::Done(p + "DEFAULT"@.len(), LockType::DEFAULT)
    } else if has_tag_nc(s, p, "NONE"@) {
        Parsed::Done(p + "NONE"@.len(), LockType::NONE)
    } else if has_tag_nc(s, p, "SHARED"@) {
        Parsed::Done(p + "SHARED"@.len(), LockType::SHARED)
    } else if has_tag_nc(s, p, "EXCLUSIVE"@) {
        Parsed::Done(p + "EXCLUSIVE"@.len(), LockType::EXCLUSIVE)
    } else {
        Parsed::NoMatch
    }
}

fn lock_option_value_at(src: &Input, p: usize) -> (r: Option<(usize, LockType)>)
    requires
        p <= src@.len(),
    ensures
        agrees(r, spec_lock_option_value(src@, p as int)),
        r matches Some((q, _)) ==> p <= q <= src@.len(),
{
    if src.tag_nc(p, "DEFAULT") {
        Some((p + "DEFAULT".unicode_len(), LockType::DEFAULT))
    } else if src.tag_nc(p, "NONE") {
        Some((p + "NONE".unicode_len(), LockType::NONE))
    } else if src.tag_nc(p, "SHARED") {
        Some((p + "SHARED".unicode_len(), LockType::SHARED))
    } else if src.tag_nc(p, "EXCLUSIVE") {
        Some((p + "EXCLUSIVE".unicode_len(), LockType::EXCLUSIVE))
    } else {
        None
    }
}

/// `LOCK [ws][= ][ws]value[ws]`, the keyword ignoring case.
pub open spec fn spec_lock_option(s: Seq<char>, p: int) -> Parsed<LockType> {
    let a = ws_end(s, p + "LOCK "@.len());
    let b = if has_tag(s, a, "= "@) {
        a + 2
    } else {
        a
    };
    if has_tag_nc(s, p, "LOCK "@) {
        match spec_lock_option_value(s, ws_end(s, b)) {
            Parsed::Done(e, v) => Parsed::Done(ws_end(s, e), v),
            other => other,
        }
    } else {
        Parsed::NoMatch
    }
}

pub fn lock_option_at(src: &Input, p: usize) -> (r: Option<(usize, LockType)>)
    requires
        p <= src@.len(),
    ensures
        agrees(r, spec_lock_option(src@, p as int)),
        r matches Some((q, _)) ==> p <= q <= src@.len(),
{
    if !src.tag_nc(p, "LOCK ") {
        return None;
    }
    let a = src.skip_ws(p + "LOCK ".unicode_len());
    proof {
        reveal_strlit("= ");
    }
    let b = if src.tag(a, "= ") {
        a + 2
    } else {
        a
    };
    match lock_option_value_at(src, src.skip_ws(b)) {
        Some((e, v)) => Some((src.skip_ws(e), v)),
        None => None,
    }
}

/// `LOCK  ... {DEFAULT | NONE | SHARED | EXCLUSIVE}`
pub fn lock_option(i: &str) -> (r: Result<(&str, LockType), ParseSQLError>)
    ensures
        str_agrees(i@, r, spec_lock_option(i@, 0)),
{
    let src = Input::new(i);
    match lock_option_at(&src, 0) {
        Some((q, v)) => Ok((src.rest(q), v)),
        None => Err(ParseSQLError::grammar(i)),
    }
}

/// [MATCH FULL | MATCH PARTIAL | MATCH SIMPLE]
#[derive(Clone, Copy, Debug, Eq, Hash, PartialEq, Structural)]
pub enum MatchType {
    Full,
    Partial,
    Simple,
}

impl DeepView for MatchType {
    type V = MatchType;

    open spec fn deep_view(&self) -> MatchType {
        *self
    }
}

/// `{FULL | PARTIAL | SIMPLE}`, ignoring case, tried in this order.
pub open spec fn spec_match_type_value(s: Seq<char>, p: int) -> Parsed<MatchType> {
    if has_tag_nc(s, p, "FULL"@) {
        Parsed::Done(p + "FULL"@.len(), MatchType::Full)
    } else if has_tag_nc(s, p, "PARTIAL"@) {
        Parsed::Done(p + "PARTIAL"@.len(), MatchType::Partial)
    } else if has_tag_nc(s, p, "SIMPLE"@) {
        Parsed::Done(p + "SIMPLE"@.len(), MatchType::Simple)
    } else {
        Parsed::NoMatch
    }
}

fn match_type_value_at(src: &Input, p: usize) -> (r: Option<(usize, MatchType)>)
    requires
        p <= src@.len(),
    ensures
        agrees(r, spec_match_type_value(src@, p as int)),
        r matches Some((q, _)) ==> p <= q <= src@.len(),
{
    if src.tag_nc(p, "FULL") {
        Some((p + "FULL".unicode_len(), MatchType::Full))
    } else if src.tag_nc(p, "PARTIAL") {
        Some((p + "PARTIAL".unicode_len(), MatchType::Partial))
    } else if src.tag_nc(p, "SIMPLE") {
        Some((p + "SIMPLE".unicode_len(), MatchType::Simple))
    } else {
        None
    }
}

/// `MATCH ws value`, the keyword ignoring case.
pub open spec fn spec_match_type(s: Seq<char>, p: int) -> Parsed<MatchType> {
    let q = p + "MATCH"@.len();
    if has_tag_nc(s, p, "MATCH"@) && ws_end(s, q) > q {
        spec_match_type_value(s, ws_end(s, q))
    } else {
        Parsed::NoMatch
    }
}

pub fn match_type_at(src: &Input, p: usize) -> (r: Option<(usize, MatchType)>)
    requires
        p <= src@.len(),
    ensures
        agrees(r, spec_match_type(src@, p as int)),
        r matches Some((q, _)) ==> p <= q <= src@.len(),
{
    if !src.tag_nc(p, "MATCH") {
        return None;
    }
    let q = p + "MATCH".unicode_len();
    let w = src.skip_ws(q);
    if w == q {
        return None;
    }
    match_type_value_at(src, w)
}

/// `MATCH ... {FULL | PARTIAL | SIMPLE}`
pub fn match_type(i: &str) -> (r: Result<(&str, MatchType), ParseSQLError>)
    ensures
        str_agrees(i@, r, spec_match_type(i@, 0)),
{
    let src = Input::new(i);
    match match_type_at(&src, 0) {
        Some((q, v)) => Ok((src.rest(q), v)),
        None => Err(ParseSQLError::grammar(i)),
    }
}

/// reference_option: `RESTRICT | CASCADE | SET NULL | NO ACTION | SET DEFAULT`
#[derive(Clone, Copy, Debug, Eq, Hash, PartialEq, Structural)]
pub enum ReferenceOption {
    Restrict,
    Cascade,
    SetNull,
    NoAction,
    SetDefault,
}

impl DeepView for ReferenceOption {
    type V = ReferenceOption;

    open spec fn deep_view(&self) -> ReferenceOption {
        *self
    }
}

/// `RESTRICT | CASCADE | SET ws NULL | NO ws ACTION | SET ws DEFAULT`, ignoring
/// case, tried in this order.
pub open spec fn spec_reference_option(s: Seq<char>, p: int) -> Parsed<ReferenceOption> {
    if has_tag_nc(s, p, "RESTRICT"@) {
        Parsed::Done(p + "RESTRICT"@.len(), ReferenceOption::Restrict)
    } else if has_tag_nc(s, p, "CASCADE"@) {
        Parsed::Done(p + "CASCADE"@.len(), ReferenceOption::Cascade)
    } else if let Some(e) = two_words(s, p, "SET"@, "NULL"@) {
        Parsed::Done(e, ReferenceOption::SetNull)
    } else if let Some(e) = two_words(s, p, "NO"@, "ACTION"@) {
        Parsed::Done(e, ReferenceOption::NoAction)
    } else if let Some(e) = two_words(s, p, "SET"@, "DEFAULT"@) {
        Parsed::Done(e, ReferenceOption::SetDefault)
    } else {
        Parsed::NoMatch
    }
}

pub fn reference_option_at(src: &Input, p: usize) -> (r: Option<(usize, ReferenceOption)>)
    requires
        p <= src@.len(),
    ensures
        agrees(r, spec_reference_option(src@, p as int)),
        r matches Some((q, _)) ==> p <= q <= src@.len(),
{
    if src.tag_nc(p, "RESTRICT") {
        return Some((p + "RESTRICT".unicode_len(), ReferenceOption::Restrict));
    }
    if src.tag_nc(p, "CASCADE") {
        return Some((p + "CASCADE".unicode_len(), ReferenceOption::Cascade));
    }
    if let Some(e) = two_words_at(src, p, "SET", "NULL") {
        return Some((e, ReferenceOption::SetNull));
    }
    if let Some(e) = two_words_at(src, p, "NO", "ACTION") {
        return Some((e, ReferenceOption::NoAction));
    }
    if let Some(e) = two_words_at(src, p, "SET", "DEFAULT") {
        return Some((e, ReferenceOption::SetDefault));
    }
    None
}

/// reference_option: `RESTRICT | CASCADE | SET NULL | NO ACTION | SET DEFAULT`
pub fn reference_option(i: &str) -> (r: Result<(&str, ReferenceOption), ParseSQLError>)
    ensures
        str_agrees(i@, r, spec_reference_option(i@, 0)),
{
    let src = Input::new(i);
    match reference_option_at(&src, 0) {
        Some((q, v)) => Ok((src.rest(q), v)),
        None => Err(ParseSQLError::grammar(i)),
    }
}

/// {'ZLIB' | 'LZ4' | 'NONE'}
#[derive(Clone, Copy, Debug, Eq, Hash, PartialEq, Structural)]
pub enum CompressionType {
    ZLIB,
    LZ4,
    NONE,
}

impl DeepView for CompressionType {
    type V = CompressionType;

    open spec fn deep_view(&self) -> CompressionType {
        *self
    }
}

/// { NO | FIRST | LAST }
#[derive(Clone, Copy, Debug, Eq, Hash, PartialEq, Structural)]
pub enum InsertMethodType {
    NO,
    FIRST,
    LAST,
}

impl DeepView for InsertMethodType {
    type V = InsertMethodType;

    open spec fn deep_view(&self) -> InsertMethodType {
        *self
    }
}

/// {DEFAULT | DYNAMIC | FIXED | COMPRESSED | REDUNDANT | COMPACT}
#[derive(Clone, Copy, Debug, Eq, Hash, PartialEq, Structural)]
pub enum RowFormatType {
    DEFAULT,
    DYNAMIC,
    FIXED,
    COMPRESSED,
    REDUNDANT,
    COMPACT,
}

impl DeepView for RowFormatType {
    type V = RowFormatType;

    open spec fn deep_view(&self) -> RowFormatType {
        *self
    }
}

/// {DEFAULT | 0 | 1}
#[derive(Clone, Copy, Debug, Eq, Hash, PartialEq, Structural)]
pub enum DefaultOrZeroOrOne {
    Default,
    Zero,
    One,
}

impl DeepView for DefaultOrZeroOrOne {
    type V = DefaultOrZeroOrOne;

    open spec fn deep_view(&self) -> DefaultOrZeroOrOne {
        *self
    }
}

/// The text `to_string` gives for each value.
pub open spec fn default_or_zero_or_one_text(v: DefaultOrZeroOrOne) -> Seq<char> {
    match v {
        DefaultOrZeroOrOne::Default => "DEFAULT"@,
        DefaultOrZeroOrOne::Zero => "0"@,
        DefaultOrZeroOrOne::One => "1"@,
    }
}

impl DefaultOrZeroOrOne {
    /// The text of the value.
    pub fn to_string(&self) -> (r: String)
        ensures
            r@ == default_or_zero_or_one_text(*self),
    {
        match self {
            DefaultOrZeroOrOne::Default => "DEFAULT".to_owned(),
            DefaultOrZeroOrOne::Zero => "0".to_owned(),
            DefaultOrZeroOrOne::One => "1".to_owned(),
        }
    }
}

/// STORAGE {DISK | MEMORY}
#[derive(Clone, Copy, Debug, Eq, Hash, PartialEq, Structural)]
pub enum TablespaceType {
    StorageDisk,
    StorageMemory,
}

impl DeepView for TablespaceType {
    type V = TablespaceType;

    open spec fn deep_view(&self) -> TablespaceType {
        *self
    }
}

/// {FULLTEXT | SPATIAL}
#[derive(Clone, Copy, Debug, Eq, Hash, PartialEq, Structural)]
pub enum FulltextOrSpatialType {
    FULLTEXT,
    SPATIAL,
}

impl DeepView for FulltextOrSpatialType {
    type V = FulltextOrSpatialType;

    open spec fn deep_view(&self) -> FulltextOrSpatialType {
        *self
    }
}

/// `{FULLTEXT | SPATIAL}`, ignoring case, tried in this order.
pub open spec fn spec_fulltext_or_spatial_type_value(s: Seq<char>, p: int) -> Parsed<FulltextOrSpatialType> {
    if has_tag_nc(s, p, "FULLTEXT"@) {
        Parsed::Done(p + "FULLTEXT"@.len(), FulltextOrSpatialType::FULLTEXT)
    } else if has_tag_nc(s, p, "SPATIAL"@) {
        Parsed::Done(p + "SPATIAL"@.len(), FulltextOrSpatialType::SPATIAL)
    } else {
        Parsed::NoMatch
    }
}

fn fulltext_or_spatial_type_value_at(src: &Input, p: usize) -> (r: Option<(usize, FulltextOrSpatialType)>)
    requires
        p <= src@.len(),
    ensures
        agrees(r, spec_fulltext_or_spatial_type_value(src@, p as int)),
        r matches Some((q, _)) ==> p <= q <= src@.len(),
{
    if src.tag_nc(p, "FULLTEXT") {
        Some((p + "FULLTEXT".unicode_len(), FulltextOrSpatialType::FULLTEXT))
    } else if src.tag_nc(p, "SPATIAL") {
        Some((p + "SPATIAL".unicode_len(), FulltextOrSpatialType::SPATIAL))
    } else {
        None
    }
}

pub open spec fn spec_fulltext_or_spatial_type(s: Seq<char>, p: int) -> Parsed<FulltextOrSpatialType> {
    spec_fulltext_or_spatial_type_value(s, p)
}

pub fn fulltext_or_spatial_type_at(src: &Input, p: usize) -> (r: Option<(usize, FulltextOrSpatialType)>)
    requires
        p <= src@.len(),
    ensures
        agrees(r, spec_fulltext_or_spatial_type(src@, p as int)),
        r matches Some((q, _)) ==> p <= q <= src@.len(),
{
    fulltext_or_spatial_type_value_at(src, p)
}

/// `{FULLTEXT | SPATIAL}`
pub fn fulltext_or_spatial_type(i: &str) -> (r: Result<(&str, FulltextOrSpatialType), ParseSQLError>)
    ensures
        str_agrees(i@, r, spec_fulltext_or_spatial_type(i@, 0)),
{
    let src = Input::new(i);
    match fulltext_or_spatial_type_at(&src, 0) {
        Some((q, v)) => Ok((src.rest(q), v)),
        None => Err(ParseSQLError::grammar(i)),
    }
}

/// {INDEX | KEY}
#[derive(Clone, Copy, Debug, Eq, Hash, PartialEq, Structural)]
pub enum IndexOrKeyType {
    INDEX,
    KEY,
}

impl DeepView for IndexOrKeyType {
    type V = IndexOrKeyType;

    open spec fn deep_view(&self) -> IndexOrKeyType {
        *self
    }
}

/// `{KEY | INDEX}`, ignoring case, tried in this order.
pub open spec fn spec_index_or_key_type_value(s: Seq<char>, p: int) -> Parsed<IndexOrKeyType> {
    if has_tag_nc(s, p, "KEY"@) {
        Parsed::Done(p + "KEY"@.len(), IndexOrKeyType::KEY)
    } else if has_tag_nc(s, p, "INDEX"@) {
        Parsed::Done(p + "INDEX"@.len(), IndexOrKeyType::INDEX)
    } else {
        Parsed::NoMatch
    }
}

fn index_or_key_type_value_at(src: &Input, p: usize) -> (r: Option<(usize, IndexOrKeyType)>)
    requires
        p <= src@.len(),
    ensures
        agrees(r, spec_index_or_key_type_value(src@, p as int)),
        r matches Some((q, _)) ==> p <= q <= src@.len(),
{
    if src.tag_nc(p, "KEY") {
        Some((p + "KEY".unicode_len(), IndexOrKeyType::KEY))
    } else if src.tag_nc(p, "INDEX") {
        Some((p + "INDEX".unicode_len(), IndexOrKeyType::INDEX))
    } else {
        None
    }
}

pub open spec fn spec_index_or_key_type(s: Seq<char>, p: int) -> Parsed<IndexOrKeyType> {
    spec_index_or_key_type_value(s, p)
}

pub fn index_or_key_type_at(src: &Input, p: usize) -> (r: Option<(usize, IndexOrKeyType)>)
    requires
        p <= src@.len(),
    ensures
        agrees(r, spec_index_or_key_type(src@, p as int)),
        r matches Some((q, _)) ==> p <= q <= src@.len(),
{
    index_or_key_type_value_at(src, p)
}

/// `{KEY | INDEX}`
pub fn index_or_key_type(i: &str) -> (r: Result<(&str, IndexOrKeyType), ParseSQLError>)
    ensures
        str_agrees(i@, r, spec_index_or_key_type(i@, 0)),
{
    let src = Input::new(i);
    match index_or_key_type_at(&src, 0) {
        Some((q, v)) => Ok((src.rest(q), v)),
        None => Err(ParseSQLError::grammar(i)),
    }
}

/// [CONSTRAINT [symbol]] CHECK (expr) [[NOT] ENFORCED]
#[derive(Clone, Debug, Eq, Hash, PartialEq)]
pub struct CheckConstraintDefinition {
    pub symbol: Option<String>,
    pub expr: String,
    pub enforced: bool,
}

/// {VISIBLE | INVISIBLE}
#[derive(Clone, Copy, Debug, Eq, Hash, PartialEq, Structural)]
pub enum VisibleType {
    VISIBLE,
    INVISIBLE,
}

impl DeepView for VisibleType {
    type V = VisibleType;

    open spec fn deep_view(&self) -> VisibleType {
        *self
    }
}

/// `{VISIBLE | INVISIBLE}`, ignoring case, tried in this order.
pub open spec fn spec_visible_or_invisible_value(s: Seq<char>, p: int) -> Parsed<VisibleType> {
    if has_tag_nc(s, p, "VISIBLE"@) {
        Parsed::Done(p + "VISIBLE"@.len(), VisibleType::VISIBLE)
    } else if has_tag_nc(s, p, "INVISIBLE"@) {
        Parsed::Done(p + "INVISIBLE"@.len(), VisibleType::INVISIBLE)
    } else {
        Parsed::NoMatch
    }
}

fn visible_or_invisible_value_at(src: &Input, p: usize) -> (r: Option<(usize, VisibleType)>)
    requires
        p <= src@.len(),
    ensures
        agrees(r, spec_visible_or_invisible_value(src@, p as int)),
        r matches Some((q, _)) ==> p <= q <= src@.len(),
{
    if src.tag_nc(p, "VISIBLE") {
        Some((p + "VISIBLE".unicode_len(), VisibleType::VISIBLE))
    } else if src.tag_nc(p, "INVISIBLE") {
        Some((p + "INVISIBLE".unicode_len(), VisibleType::INVISIBLE))
    } else {
        None
    }
}

pub open spec fn spec_visible_or_invisible(s: Seq<char>, p: int) -> Parsed<VisibleType> {
    spec_visible_or_invisible_value(s, p)
}

pub fn visible_or_invisible_at(src: &Input, p: usize) -> (r: Option<(usize, VisibleType)>)
    requires
        p <= src@.len(),
    ensures
        agrees(r, spec_visible_or_invisible(src@, p as int)),
        r matches Some((q, _)) ==> p <= q <= src@.len(),
{
    visible_or_invisible_value_at(src, p)
}

/// `{VISIBLE | INVISIBLE}`
pub fn visible_or_invisible(i: &str) -> (r: Result<(&str, VisibleType), ParseSQLError>)
    ensures
        str_agrees(i@, r, spec_visible_or_invisible(i@, 0)),
{
    let src = Input::new(i);
    match visible_or_invisible_at(&src, 0) {
        Some((q, v)) => Ok((src.rest(q), v)),
        None => Err(ParseSQLError::grammar(i)),
    }
}

/// {col_name [(length)] | (expr)}
#[derive(Clone, Debug, Eq, Hash, PartialEq)]
pub enum KeyPartType {
    ColumnNameWithLength(String, Option<usize>),
    Expr(String),
}

/// [ASC | DESC]
#[derive(Clone, Copy, Debug, Eq, Hash, PartialEq, Structural)]
pub enum OrderType {
    Asc,
    Desc,
}

impl DeepView for OrderType {
    type V = OrderType;

    open spec fn deep_view(&self) -> OrderType {
        *self
    }
}

/// `{DESC | ASC}`, ignoring case, tried in this order.
pub open spec fn spec_order_type_value(s: Seq<char>, p: int) -> Parsed<OrderType> {
    if has_tag_nc(s, p, "DESC"@) {
        Parsed::Done(p + "DESC"@.len(), OrderType::Desc)
    } else if has_tag_nc(s, p, "ASC"@) {
        Parsed::Done(p + "ASC"@.len(), OrderType::Asc)
    } else {
        Parsed::NoMatch
    }
}

fn order_type_value_at(src: &Input, p: usize) -> (r: Option<(usize, OrderType)>)
    requires
        p <= src@.len(),
    ensures
        agrees(r, spec_order_type_value(src@, p as int)),
        r matches Some((q, _)) ==> p <= q <= src@.len(),
{
    if src.tag_nc(p, "DESC") {
        Some((p + "DESC".unicode_len(), OrderType::Desc))
    } else if src.tag_nc(p, "ASC") {
        Some((p + "ASC".unicode_len(), OrderType::Asc))
    } else {
        None
    }
}

pub open spec fn spec_order_type(s: Seq<char>, p: int) -> Parsed<OrderType> {
    spec_order_type_value(s, p)
}

pub fn order_type_at(src: &Input, p: usize) -> (r: Option<(usize, OrderType)>)
    requires
        p <= src@.len(),
    ensures
        agrees(r, spec_order_type(src@, p as int)),
        r matches Some((q, _)) ==> p <= q <= src@.len(),
{
    order_type_value_at(src, p)
}

/// The text `to_string` gives for each value.
pub open spec fn order_type_text(v: OrderType) -> Seq<char> {
    match v {
        OrderType::Asc => "ASC"@,
        OrderType::Desc => "DESC"@,
    }
}

/// `{DESC | ASC}`
pub fn order_type(i: &str) -> (r: Result<(&str, OrderType), ParseSQLError>)
    ensures
        str_agrees(i@, r, spec_order_type(i@, 0)),
{
    let src = Input::new(i);
    match order_type_at(&src, 0) {
        Some((q, v)) => Ok((src.rest(q), v)),
        None => Err(ParseSQLError::grammar(i)),
    }
}

impl OrderType {
    /// The text of the value.
    pub fn to_string(&self) -> (r: String)
        ensures
            r@ == order_type_text(*self),
    {
        match self {
            OrderType::Asc => "ASC".to_owned(),
            OrderType::Desc => "DESC".to_owned(),
        }
    }
}

/// USING {BTREE | HASH}
#[derive(Clone, Copy, Debug, Eq, Hash, PartialEq, Structural)]
pub enum IndexType {
    BTREE,
    HASH,
}

impl DeepView for IndexType {
    type V = IndexType;

    open spec fn deep_view(&self) -> IndexType {
        *self
    }
}

/// `{BTREE | HASH}`, ignoring case, tried in this order.
pub open spec fn spec_index_type_value(s: Seq<char>, p: int) -> Parsed<IndexType> {
    if has_tag_nc(s, p, "BTREE"@) {
        Parsed::Done(p + "BTREE"@.len(), IndexType::BTREE)
    } else if has_tag_nc(s, p, "HASH"@) {
        Parsed::Done(p + "HASH"@.len(), IndexType::HASH)
    } else {
        Parsed::NoMatch
    }
}

fn index_type_value_at(src: &Input, p: usize) -> (r: Option<(usize, IndexType)>)
    requires
        p <= src@.len(),
    ensures
        agrees(r, spec_index_type_value(src@, p as int)),
        r matches Some((q, _)) ==> p <= q <= src@.len(),
{
    if src.tag_nc(p, "BTREE") {
        Some((p + "BTREE".unicode_len(), IndexType::BTREE))
    } else if src.tag_nc(p, "HASH") {
        Some((p + "HASH".unicode_len(), IndexType::HASH))
    } else {
        None
    }
}

/// `USING ws value [ws]`, the keyword ignoring case.
pub open spec fn spec_index_type(s: Seq<char>, p: int) -> Parsed<IndexType> {
    let q = p + "USING"@.len();
    if has_tag_nc(s, p, "USING"@) && ws_end(s, q) > q {
        match spec_index_type_value(s, ws_end(s, q)) {
            Parsed::Done(e, v) => Parsed::Done(ws_end(s, e), v),
            other => other,
        }
    } else {
        Parsed::NoMatch
    }
}

pub fn index_type_at(src: &Input, p: usize) -> (r: Option<(usize, IndexType)>)
    requires
        p <= src@.len(),
    ensures
        agrees(r, spec_index_type(src@, p as int)),
        r matches Some((q, _)) ==> p <= q <= src@.len(),
{
    if !src.tag_nc(p, "USING") {
        return None;
    }
    let q = p + "USING".unicode_len();
    let w = src.skip_ws(q);
    if w == q {
        return None;
    }
    match index_type_value_at(src, w) {
        Some((e, v)) => Some((src.skip_ws(e), v)),
        None => None,
    }
}

/// The text `to_string` gives for each value.
pub open spec fn index_type_text(v: IndexType) -> Seq<char> {
    match v {
        IndexType::BTREE => " USING BTREE"@,
        IndexType::HASH => " USING HASH"@,
    }
}

/// `USING ... {BTREE | HASH}`
pub fn index_type(i: &str) -> (r: Result<(&str, IndexType), ParseSQLError>)
    ensures
        str_agrees(i@, r, spec_index_type(i@, 0)),
{
    let src = Input::new(i);
    match index_type_at(&src, 0) {
        Some((q, v)) => Ok((src.rest(q), v)),
        None => Err(ParseSQLError::grammar(i)),
    }
}

impl IndexType {
    /// The text of the value.
    pub fn to_string(&self) -> (r: String)
        ensures
            r@ == index_type_text(*self),
    {
        match self {
            IndexType::BTREE => " USING BTREE".to_owned(),
            IndexType::HASH => " USING HASH".to_owned(),
        }
    }
}

/// `[ws index_type [ws]]`, optional.
pub open spec fn spec_opt_index_type(s: Seq<char>, p: int) -> Parsed<Option<IndexType>> {
    let a = ws_end(s, p);
    if a > p && spec_index_type(s, a) is Done {
        match spec_index_type(s, a) {
            Parsed::Done(q, v) => Parsed::Done(ws_end(s, q), Some(v)),
            _ => Parsed::NoMatch,
        }
    } else {
        Parsed::Done(p, None)
    }
}

pub fn opt_index_type_at(src: &Input, p: usize) -> (r: Option<(usize, Option<IndexType>)>)
    requires
        p <= src@.len(),
    ensures
        agrees(r, spec_opt_index_type(src@, p as int)),
        r matches Some((q, _)) ==> p <= q <= src@.len(),
{
    let w = src.skip_ws(p);
    if w > p {
        if let Some((q, v)) = index_type_at(src, w) {
            return Some((src.skip_ws(q), Some(v)));
        }
    }
    Some((p, None))
}

/// `[index_type]`: `USING {BTREE | HASH}` after white space, optional.
pub fn opt_index_type(i: &str) -> (r: Result<(&str, Option<IndexType>), ParseSQLError>)
    ensures
        str_agrees(i@, r, spec_opt_index_type(i@, 0)),
{
    let src = Input::new(i);
    match opt_index_type_at(&src, 0) {
        Some((q, v)) => Ok((src.rest(q), v)),
        None => Err(ParseSQLError::grammar(i)),
    }
}

} // verus!
