//! Column references, function calls over columns, and column definitions.
use vstd::prelude::*;

use crate::base::case::{
    case_when_at, case_when_text, spec_case_when, CaseWhenExpression, CaseWhenExpressionView,
};
use crate::base::common_parser::{
    as_alias_at, delim_digit_at, parse_comment_at, quoted_at, spec_as_alias, spec_delim_digit,
    spec_parse_comment, spec_quoted, spec_sql_identifier, sql_identifier_at, Span,
};
use crate::base::display_util::{escaped_name, DisplayUtil};
use crate::base::error::{ParseSQLError, ParseSQLErrorKind};
use crate::base::input::{
    agrees, char_at, digits_end, digits_value, has_tag, has_tag_nc, is_alnum, is_alpha_exec,
    is_digit, is_digit_exec, is_grammar_error, lemma_run_end_bounds, lemma_tag_nc_mismatch,
    lemma_tag_nc_of_eq, run_end, str_agrees, ws_end, Input, Parsed, spelled, eq_no_case,
    lemma_spelled_tag, lemma_run_end_stops,
};
use crate::base::data_type::{
    data_type_text, len_at, spec_len, spec_type_identifier, type_identifier_at, DataType,
    DataTypeView,
};
use crate::base::literal::{
    all_digits, literal_text, opt_comma_end, opt_comma_end_at, prepend, Literal, LiteralView, Real,
};
use crate::base::order::{order_type_at, spec_order_type, OrderType};
use crate::base::table::{opt_range_text, opt_span_string, schema_prefix_at, spec_schema_prefix};

verus! {

/// An aggregate or other function applied to arguments.
#[derive(Debug, Eq, Hash, PartialEq)]
pub enum FunctionExpression {
    Avg(FunctionArgument, bool),
    Count(FunctionArgument, bool),
    CountStar,
    Sum(FunctionArgument, bool),
    Max(FunctionArgument),
    Min(FunctionArgument),
    GroupConcat(FunctionArgument, String),
    Generic(String, FunctionArguments),
}

/// The argument list of a generic function.
#[derive(Debug, Eq, Hash, PartialEq)]
pub struct FunctionArguments {
    pub arguments: Vec<FunctionArgument>,
}

/// One argument of a function: a column or a `CASE WHEN` expression.
#[derive(Debug, Eq, Hash, PartialEq)]
pub enum FunctionArgument {
    Column(Column),
    Conditional(CaseWhenExpression),
}

/// A column reference, possibly qualified by a table, aliased, or computed by
/// a function (then `name` is the function's text).
#[derive(Debug, Eq, Hash, PartialEq)]
pub struct Column {
    pub name: String,
    pub alias: Option<String>,
    pub table: Option<String>,
    pub function: Option<Box<FunctionExpression>>,
}

pub enum FunctionExpressionView {
    Avg(FunctionArgumentView, bool),
    Count(FunctionArgumentView, bool),
    CountStar,
    Sum(FunctionArgumentView, bool),
    Max(FunctionArgumentView),
    Min(FunctionArgumentView),
    GroupConcat(FunctionArgumentView, Seq<char>),
    Generic(Seq<char>, FunctionArgumentsView),
}

pub struct FunctionArgumentsView {
    pub arguments: Seq<FunctionArgumentView>,
}

pub enum FunctionArgumentView {
    Column(ColumnView),
    Conditional(CaseWhenExpressionView),
}

pub struct ColumnView {
    pub name: Seq<char>,
    pub alias: Option<Seq<char>>,
    pub table: Option<Seq<char>>,
    pub function: Option<Box<FunctionExpressionView>>,
}

impl DeepView for FunctionExpression {
    type V = FunctionExpressionView;

    open spec fn deep_view(&self) -> FunctionExpressionView
        decreases self,
    {
        match self {
            FunctionExpression::Avg(a, d) => FunctionExpressionView::Avg(a.deep_view(), *d),
            FunctionExpression::Count(a, d) => FunctionExpressionView::Count(a.deep_view(), *d),
            FunctionExpression::CountStar => FunctionExpressionView::CountStar,
            FunctionExpression::Sum(a, d) => FunctionExpressionView::Sum(a.deep_view(), *d),
            FunctionExpression::Max(a) => FunctionExpressionView::Max(a.deep_view()),
            FunctionExpression::Min(a) => FunctionExpressionView::Min(a.deep_view()),
            FunctionExpression::GroupConcat(a, sep) => FunctionExpressionView::GroupConcat(
                a.deep_view(),
                sep@,
            ),
            FunctionExpression::Generic(name, args) => FunctionExpressionView::Generic(
                name@,
                args.deep_view(),
            ),
        }
    }
}

/// The views of a sequence of arguments.
pub open spec fn arguments_view(s: Seq<FunctionArgument>) -> Seq<FunctionArgumentView>
    decreases s,
{
    if s.len() == 0 {
        Seq::empty()
    } else {
        arguments_view(s.drop_last()).push(s.last().deep_view())
    }
}

impl DeepView for FunctionArguments {
    type V = FunctionArgumentsView;

    open spec fn deep_view(&self) -> FunctionArgumentsView
        decreases self,
    {
        FunctionArgumentsView { arguments: arguments_view(self.arguments@) }
    }
}

impl DeepView for FunctionArgument {
    type V = FunctionArgumentView;

    open spec fn deep_view(&self) -> FunctionArgumentView
        decreases self,
    {
        match self {
            FunctionArgument::Column(c) => FunctionArgumentView::Column(c.deep_view()),
            FunctionArgument::Conditional(e) => FunctionArgumentView::Conditional(e.deep_view()),
        }
    }
}

impl DeepView for Column {
    type V = ColumnView;

    open spec fn deep_view(&self) -> ColumnView
        decreases self,
    {
        ColumnView {
            name: self.name@,
            alias: self.alias.deep_view(),
            table: self.table.deep_view(),
            function: match &self.function {
                Some(f) => Some(Box::new((**f).deep_view())),
                None => None,
            },
        }
    }
}

/// `name(arg)` or `name(distinct arg)`.
pub open spec fn aggregate_text(name: Seq<char>, arg: Seq<char>, distinct: bool) -> Seq<char> {
    name + (if distinct {
        "(distinct "@
    } else {
        "("@
    }) + arg + ")"@
}

/// The SQL text of a function call, function names in lower case.
pub open spec fn function_expression_text(f: FunctionExpressionView) -> Seq<char>
    decreases f,
{
    match f {
        FunctionExpressionView::Avg(a, d) => aggregate_text("avg"@, function_argument_text(a), d),
        FunctionExpressionView::Count(a, d) => aggregate_text("count"@, function_argument_text(a), d),
        FunctionExpressionView::CountStar => "count(*)"@,
        FunctionExpressionView::Sum(a, d) => aggregate_text("sum"@, function_argument_text(a), d),
        FunctionExpressionView::Max(a) => aggregate_text("max"@, function_argument_text(a), false),
        FunctionExpressionView::Min(a) => aggregate_text("min"@, function_argument_text(a), false),
        FunctionExpressionView::GroupConcat(a, sep) => "group_concat("@ + function_argument_text(a)
            + ", "@ + sep + ")"@,
        FunctionExpressionView::Generic(name, args) => name + "("@ + arguments_text(args.arguments)
            + ")"@,
    }
}

/// Arguments separated by `,`.
pub open spec fn arguments_text(s: Seq<FunctionArgumentView>) -> Seq<char>
    decreases s,
{
    if s.len() == 0 {
        Seq::empty()
    } else if s.len() == 1 {
        function_argument_text(s[0])
    } else {
        arguments_text(s.drop_last()) + ","@ + function_argument_text(s.last())
    }
}

pub open spec fn function_argument_text(a: FunctionArgumentView) -> Seq<char>
    decreases a,
{
    match a {
        FunctionArgumentView::Column(c) => column_text(c),
        FunctionArgumentView::Conditional(e) => case_when_text(e),
    }
}

/// `table.name`, the function's text, or `name`, then ` AS alias`; table,
/// name and alias in back quotes when they read as keywords.
pub open spec fn column_text(c: ColumnView) -> Seq<char>
    decreases c,
{
    (match c.table {
        Some(t) => escaped_name(t) + "."@ + escaped_name(c.name),
        None => match c.function {
            Some(f) => function_expression_text(*f),
            None => escaped_name(c.name),
        },
    }) + match c.alias {
        Some(a) => " AS "@ + escaped_name(a),
        None => Seq::empty(),
    }
}


/// `[table.]name`
pub open spec fn spec_column_name(s: Seq<char>, p: int) -> Parsed<ColumnView> {
    match spec_schema_prefix(s, p) {
        Parsed::Done(q, pre) => match spec_sql_identifier(s, q) {
            Parsed::Done(e, (a, b)) => Parsed::Done(
                e,
                ColumnView {
                    name: s.subrange(a, b),
                    alias: None,
                    table: opt_range_text(s, pre),
                    function: None,
                },
            ),
            _ => Parsed::NoMatch,
        },
        _ => Parsed::NoMatch,
    }
}

/// The column computed by a function: named by its alias, or else by the
/// function's text.
pub open spec fn function_column(f: FunctionExpressionView, alias: Option<Seq<char>>) -> ColumnView {
    ColumnView {
        name: match alias {
            Some(a) => a,
            None => function_expression_text(f),
        },
        alias: alias,
        table: None,
        function: Some(Box::new(f)),
    }
}

/// A column without alias: a function call, or else `[table.]name`.
#[verifier::opaque]
pub open spec fn spec_column_without_alias(s: Seq<char>, p: int) -> Parsed<ColumnView>
    decreases s.len() - p, 4nat,
{
    match spec_function_expression(s, p) {
        Parsed::Done(e, f) => Parsed::Done(e, function_column(f, None)),
        Parsed::NoMatch => spec_column_name(s, p),
        Parsed::Abort => Parsed::Abort,
    }
}

/// A column with an optional alias: a function call, or else `[table.]name`,
/// each followed by an optional `[AS] alias`.
#[verifier::opaque]
pub open spec fn spec_column(s: Seq<char>, p: int) -> Parsed<ColumnView>
    decreases s.len() - p, 12nat,
{
    match spec_function_expression(s, p) {
        Parsed::Done(e, f) => match spec_as_alias(s, e) {
            Parsed::Done(g, (a, b)) => Parsed::Done(g, function_column(f, Some(s.subrange(a, b)))),
            _ => Parsed::Done(e, function_column(f, None)),
        },
        Parsed::Abort => Parsed::Abort,
        Parsed::NoMatch => match spec_column_name(s, p) {
            Parsed::Done(e, c) => match spec_as_alias(s, e) {
                Parsed::Done(g, (a, b)) => Parsed::Done(
                    g,
                    ColumnView {
                        name: c.name,
                        alias: Some(s.subrange(a, b)),
                        table: c.table,
                        function: c.function,
                    },
                ),
                _ => Parsed::Done(e, c),
            },
            _ => Parsed::NoMatch,
        },
    }
}

/// `kw (args)`, the function name ignoring case.
#[verifier::opaque]
pub open spec fn spec_named_fx_args(s: Seq<char>, p: int, kw: Seq<char>) -> Parsed<
    (FunctionArgumentView, bool),
>
    decreases s.len() - p, 2nat,
{
    if has_tag_nc(s, p, kw) {
        spec_delim_fx_args(s, p + kw.len())
    } else {
        Parsed::NoMatch
    }
}

/// `(args)`
#[verifier::opaque]
pub open spec fn spec_delim_fx_args(s: Seq<char>, p: int) -> Parsed<(FunctionArgumentView, bool)>
    decreases s.len() - p, 1nat,
{
    if char_at(s, p, '(') {
        match spec_function_arguments(s, p + 1) {
            Parsed::Done(e, v) => if char_at(s, e, ')') {
                Parsed::Done(e + 1, v)
            } else {
                Parsed::NoMatch
            },
            Parsed::NoMatch => Parsed::NoMatch,
            Parsed::Abort => Parsed::Abort,
        }
    } else {
        Parsed::NoMatch
    }
}

/// `DISTINCT` followed by white space, ignoring case, at `p`.
pub open spec fn distinct_at(s: Seq<char>, p: int) -> bool {
    has_tag_nc(s, p, "distinct"@) && ws_end(s, p + "distinct"@.len()) > p + "distinct"@.len()
}

/// `[DISTINCT ws] argument`; the flag tells whether `DISTINCT` was there.
#[verifier::opaque]
pub open spec fn spec_function_arguments(s: Seq<char>, p: int) -> Parsed<
    (FunctionArgumentView, bool),
>
    decreases s.len() - p, 8nat,
{
    let q = if distinct_at(s, p) {
        ws_end(s, p + "distinct"@.len())
    } else {
        p
    };
    if p <= q <= s.len() {
        match spec_function_argument(s, q) {
            Parsed::Done(e, a) => Parsed::Done(e, (a, distinct_at(s, p))),
            Parsed::NoMatch => Parsed::NoMatch,
            Parsed::Abort => Parsed::Abort,
        }
    } else {
        Parsed::NoMatch
    }
}

/// A `CASE WHEN` expression, or else a column without alias.
#[verifier::opaque]
pub open spec fn spec_function_argument(s: Seq<char>, p: int) -> Parsed<FunctionArgumentView>
    decreases s.len() - p, 7nat,
{
    match spec_case_when(s, p) {
        Parsed::Done(e, c) => Parsed::Done(e, FunctionArgumentView::Conditional(c)),
        Parsed::Abort => Parsed::Abort,
        Parsed::NoMatch => match spec_column_without_alias(s, p) {
            Parsed::Done(e, c) => Parsed::Done(e, FunctionArgumentView::Column(c)),
            Parsed::NoMatch => Parsed::NoMatch,
            Parsed::Abort => Parsed::Abort,
        },
    }
}

/// An argument with white space around it.
#[verifier::opaque]
pub open spec fn spec_ws_fx_arg(s: Seq<char>, p: int) -> Parsed<FunctionArgumentView>
    decreases s.len() - p, 9nat,
{
    let a = ws_end(s, p);
    if p <= a <= s.len() {
        match spec_function_argument(s, a) {
            Parsed::Done(e, v) => Parsed::Done(ws_end(s, e), v),
            Parsed::NoMatch => Parsed::NoMatch,
            Parsed::Abort => Parsed::Abort,
        }
    } else {
        Parsed::NoMatch
    }
}

/// Arguments separated by `,`, possibly none.
#[verifier::opaque]
pub open spec fn spec_fx_arg_list(s: Seq<char>, p: int) -> Parsed<Seq<FunctionArgumentView>>
    decreases s.len() - p, 11nat,
{
    match spec_ws_fx_arg(s, p) {
        Parsed::Done(e, v) => if p <= e <= s.len() {
            prepend(seq![v], spec_fx_arg_tail(s, e))
        } else {
            Parsed::NoMatch
        },
        Parsed::NoMatch => Parsed::Done(p, Seq::empty()),
        Parsed::Abort => Parsed::Abort,
    }
}

/// `, argument` as many times as it matches.
#[verifier::opaque]
pub open spec fn spec_fx_arg_tail(s: Seq<char>, p: int) -> Parsed<Seq<FunctionArgumentView>>
    decreases s.len() - p, 10nat,
{
    if char_at(s, p, ',') {
        match spec_ws_fx_arg(s, p + 1) {
            Parsed::Done(e, v) => if p < e <= s.len() {
                prepend(seq![v], spec_fx_arg_tail(s, e))
            } else {
                Parsed::NoMatch
            },
            Parsed::NoMatch => Parsed::Done(p, Seq::empty()),
            Parsed::Abort => Parsed::Abort,
        }
    } else {
        Parsed::Done(p, Seq::empty())
    }
}

/// `[ws] SEPARATOR'text'[ws]`, ignoring case; the text is letters and digits,
/// possibly none.
pub open spec fn group_concat_separator(s: Seq<char>, p: int) -> Option<(int, Seq<char>)> {
    let a = ws_end(s, p);
    let b = a + "separator"@.len() + 1;
    let c = run_end(s, b, |x: char| is_alnum(x));
    if has_tag_nc(s, a, "separator"@) && char_at(s, b - 1, '\'') && char_at(s, c, '\'') {
        Some((ws_end(s, c + 1), s.subrange(b, c)))
    } else {
        None
    }
}

/// `column [separator]`; without a separator it is `,`.
#[verifier::opaque]
pub open spec fn spec_group_concat_fx(s: Seq<char>, p: int) -> Parsed<(ColumnView, Seq<char>)>
    decreases s.len() - p, 5nat,
{
    match spec_column_without_alias(s, p) {
        Parsed::Done(e, c) => match group_concat_separator(s, e) {
            Some((g, sep)) => Parsed::Done(g, (c, sep)),
            None => Parsed::Done(e, (c, ","@)),
        },
        Parsed::NoMatch => Parsed::NoMatch,
        Parsed::Abort => Parsed::Abort,
    }
}

/// A function call, trying in order: `COUNT(*)`, `COUNT`, `SUM`, `AVG`,
/// `MAX`, `MIN` (names ignoring case) with one argument in brackets,
/// `GROUP_CONCAT(column [separator])`, and `name [ws] (arguments)`.
#[verifier::opaque]
pub open spec fn spec_function_expression(s: Seq<char>, p: int) -> Parsed<FunctionExpressionView>
    decreases s.len() - p, 3nat,
{
    if has_tag_nc(s, p, "COUNT(*)"@) {
        Parsed::Done(p + "COUNT(*)"@.len(), FunctionExpressionView::CountStar)
    } else {
        match spec_named_fx_args(s, p, "COUNT"@) {
            Parsed::Done(e, (a, d)) => Parsed::Done(e, FunctionExpressionView::Count(a, d)),
            Parsed::Abort => Parsed::Abort,
            Parsed::NoMatch => match spec_named_fx_args(s, p, "SUM"@) {
                Parsed::Done(e, (a, d)) => Parsed::Done(e, FunctionExpressionView::Sum(a, d)),
                Parsed::Abort => Parsed::Abort,
                Parsed::NoMatch => match spec_named_fx_args(s, p, "AVG"@) {
                    Parsed::Done(e, (a, d)) => Parsed::Done(e, FunctionExpressionView::Avg(a, d)),
                    Parsed::Abort => Parsed::Abort,
                    Parsed::NoMatch => match spec_named_fx_args(s, p, "MAX"@) {
                        Parsed::Done(e, (a, _)) => Parsed::Done(e, FunctionExpressionView::Max(a)),
                        Parsed::Abort => Parsed::Abort,
                        Parsed::NoMatch => match spec_named_fx_args(s, p, "MIN"@) {
                            Parsed::Done(e, (a, _)) => Parsed::Done(
                                e,
                                FunctionExpressionView::Min(a),
                            ),
                            Parsed::Abort => Parsed::Abort,
                            Parsed::NoMatch => spec_group_concat_or_generic(s, p),
                        },
                    },
                },
            },
        }
    }
}

/// `GROUP_CONCAT(column [separator])`, or else `name [ws] (arguments)`.
#[verifier::opaque]
pub open spec fn spec_group_concat_or_generic(s: Seq<char>, p: int) -> Parsed<
    FunctionExpressionView,
>
    decreases s.len() - p, 2nat,
{
    let g = p + "GROUP_CONCAT"@.len();
    let gc = if has_tag_nc(s, p, "GROUP_CONCAT"@) && char_at(s, g, '(') {
        match spec_group_concat_fx(s, g + 1) {
            Parsed::Done(e, (c, sep)) => if char_at(s, e, ')') {
                Parsed::Done(
                    e + 1,
                    FunctionExpressionView::GroupConcat(FunctionArgumentView::Column(c), sep),
                )
            } else {
                Parsed::NoMatch
            },
            Parsed::NoMatch => Parsed::NoMatch,
            Parsed::Abort => Parsed::Abort,
        }
    } else {
        Parsed::NoMatch
    };
    match gc {
        Parsed::NoMatch => match spec_sql_identifier(s, p) {
            Parsed::Done(e1, (a, b)) => {
                let e2 = ws_end(s, e1);
                if p <= e2 && char_at(s, e2, '(') {
                    match spec_fx_arg_list(s, e2 + 1) {
                        Parsed::Done(e3, args) => if char_at(s, e3, ')') {
                            Parsed::Done(
                                e3 + 1,
                                FunctionExpressionView::Generic(
                                    s.subrange(a, b),
                                    FunctionArgumentsView { arguments: args },
                                ),
                            )
                        } else {
                            Parsed::NoMatch
                        },
                        Parsed::NoMatch => Parsed::NoMatch,
                        Parsed::Abort => Parsed::Abort,
                    }
                } else {
                    Parsed::NoMatch
                }
            },
            _ => Parsed::NoMatch,
        },
        _ => gc,
    }
}

/// `r` is the executable result that corresponds to the outcome `sp` over
/// argument lists.
pub open spec fn arguments_agree(
    r: Option<(usize, Vec<FunctionArgument>)>,
    sp: Parsed<Seq<FunctionArgumentView>>,
) -> bool {
    match sp {
        Parsed::Done(q, v) => r matches Some((q2, x)) && q2 == q && arguments_view(x@) == v,
        Parsed::NoMatch => r is None,
        Parsed::Abort => false,
    }
}

pub fn column_name_at(src: &Input, p: usize) -> (r: Option<(usize, Column)>)
    requires
        p <= src@.len(),
    ensures
        agrees(r, spec_column_name(src@, p as int)),
        r matches Some((e, _)) ==> p < e <= src@.len(),
{
    match schema_prefix_at(src, p) {
        Some((q, pre)) => match sql_identifier_at(src, q) {
            Some((e, sp)) => Some(
                (
                    e,
                    Column {
                        name: src.string(sp.start, sp.end),
                        alias: None,
                        table: opt_span_string(src, pre),
                        function: None,
                    },
                ),
            ),
            None => None,
        },
        None => None,
    }
}

fn make_function_column(f: FunctionExpression, alias: Option<String>) -> (c: Column)
    ensures
        c.deep_view() == function_column(f.deep_view(), alias.deep_view()),
{
    let name = match &alias {
        Some(a) => a.clone(),
        None => f.to_string(),
    };
    Column { name, alias, table: None, function: Some(Box::new(f)) }
}

pub fn column_without_alias_at(src: &Input, p: usize) -> (r: Option<(usize, Column)>)
    requires
        p <= src@.len(),
        !(spec_column_without_alias(src@, p as int) is Abort),
    ensures
        agrees(r, spec_column_without_alias(src@, p as int)),
        r matches Some((e, _)) ==> p < e <= src@.len(),
    decreases src@.len() - p, 4nat,
{
    proof {
        reveal_with_fuel(spec_column_without_alias, 1);
        reveal_with_fuel(spec_function_expression, 1);
    }
    match function_expression_at(src, p) {
        Some((e, f)) => Some((e, make_function_column(f, None))),
        None => column_name_at(src, p),
    }
}

pub fn column_at(src: &Input, p: usize) -> (r: Option<(usize, Column)>)
    requires
        p <= src@.len(),
        !(spec_column(src@, p as int) is Abort),
    ensures
        agrees(r, spec_column(src@, p as int)),
        r matches Some((e, _)) ==> p < e <= src@.len(),
    decreases src@.len() - p, 12nat,
{
    proof {
        reveal_with_fuel(spec_column, 1);
        reveal_with_fuel(spec_function_expression, 1);
    }
    match function_expression_at(src, p) {
        Some((e, f)) => match as_alias_at(src, e) {
            Some((g, sp)) => Some((g, make_function_column(f, Some(src.string(sp.start, sp.end))))),
            None => Some((e, make_function_column(f, None))),
        },
        None => match column_name_at(src, p) {
            Some((e, c)) => match as_alias_at(src, e) {
                Some((g, sp)) => Some(
                    (
                        g,
                        Column {
                            name: c.name,
                            alias: Some(src.string(sp.start, sp.end)),
                            table: c.table,
                            function: c.function,
                        },
                    ),
                ),
                None => Some((e, c)),
            },
            None => None,
        },
    }
}

fn named_fx_args_at(src: &Input, p: usize, kw: &str) -> (r: Option<(usize, (FunctionArgument, bool))>)
    requires
        p <= src@.len(),
        !(spec_named_fx_args(src@, p as int, kw@) is Abort),
    ensures
        agrees(r, spec_named_fx_args(src@, p as int, kw@)),
        r matches Some((e, _)) ==> p < e <= src@.len(),
    decreases src@.len() - p, 2nat,
{
    proof {
        reveal_with_fuel(spec_named_fx_args, 1);
        reveal_with_fuel(spec_delim_fx_args, 1);
    }
    if src.tag_nc(p, kw) {
        delim_fx_args_at(src, p + kw.unicode_len())
    } else {
        None
    }
}

fn delim_fx_args_at(src: &Input, p: usize) -> (r: Option<(usize, (FunctionArgument, bool))>)
    requires
        p <= src@.len(),
        !(spec_delim_fx_args(src@, p as int) is Abort),
    ensures
        agrees(r, spec_delim_fx_args(src@, p as int)),
        r matches Some((e, _)) ==> p < e <= src@.len(),
    decreases src@.len() - p, 1nat,
{
    proof {
        reveal_with_fuel(spec_delim_fx_args, 1);
        reveal_with_fuel(spec_function_arguments, 1);
    }
    if src.is_char(p, '(') {
        match function_arguments_at(src, p + 1) {
            Some((e, v)) => if src.is_char(e, ')') {
                Some((e + 1, v))
            } else {
                None
            },
            None => None,
        }
    } else {
        None
    }
}

fn distinct_at_exec(src: &Input, p: usize) -> (r: bool)
    requires
        p <= src@.len(),
    ensures
        r == distinct_at(src@, p as int),
{
    if src.tag_nc(p, "distinct") {
        let b = p + "distinct".unicode_len();
        src.skip_ws(b) > b
    } else {
        false
    }
}

fn function_arguments_at(src: &Input, p: usize) -> (r: Option<(usize, (FunctionArgument, bool))>)
    requires
        p <= src@.len(),
        !(spec_function_arguments(src@, p as int) is Abort),
    ensures
        agrees(r, spec_function_arguments(src@, p as int)),
        r matches Some((e, _)) ==> p < e <= src@.len(),
    decreases src@.len() - p, 8nat,
{
    proof {
        reveal_with_fuel(spec_function_arguments, 1);
        reveal_with_fuel(spec_function_argument, 1);
    }
    let d = distinct_at_exec(src, p);
    let _n = src.len();
    let q = if d {
        src.skip_ws(p + "distinct".unicode_len())
    } else {
        p
    };
    match function_argument_at(src, q) {
        Some((e, a)) => Some((e, (a, d))),
        None => None,
    }
}

pub fn function_argument_at(src: &Input, p: usize) -> (r: Option<(usize, FunctionArgument)>)
    requires
        p <= src@.len(),
        !(spec_function_argument(src@, p as int) is Abort),
    ensures
        agrees(r, spec_function_argument(src@, p as int)),
        r matches Some((e, _)) ==> p < e <= src@.len(),
    decreases src@.len() - p, 7nat,
{
    proof {
        reveal_with_fuel(spec_function_argument, 1);
        reveal_with_fuel(spec_case_when, 1);
        reveal_with_fuel(spec_column_without_alias, 1);
    }
    match case_when_at(src, p) {
        Some((e, c)) => Some((e, FunctionArgument::Conditional(c))),
        None => match column_without_alias_at(src, p) {
            Some((e, c)) => Some((e, FunctionArgument::Column(c))),
            None => None,
        },
    }
}

fn ws_fx_arg_at(src: &Input, p: usize) -> (r: Option<(usize, FunctionArgument)>)
    requires
        p <= src@.len(),
        !(spec_ws_fx_arg(src@, p as int) is Abort),
    ensures
        agrees(r, spec_ws_fx_arg(src@, p as int)),
        r matches Some((e, _)) ==> p < e <= src@.len(),
    decreases src@.len() - p, 9nat,
{
    proof {
        reveal_with_fuel(spec_ws_fx_arg, 1);
        reveal_with_fuel(spec_function_argument, 1);
    }
    let a = src.skip_ws(p);
    match function_argument_at(src, a) {
        Some((e, v)) => Some((src.skip_ws(e), v)),
        None => None,
    }
}

fn fx_arg_list_at(src: &Input, p: usize) -> (r: Option<(usize, Vec<FunctionArgument>)>)
    requires
        p <= src@.len(),
        !(spec_fx_arg_list(src@, p as int) is Abort),
    ensures
        arguments_agree(r, spec_fx_arg_list(src@, p as int)),
        r matches Some((e, _)) ==> p <= e <= src@.len(),
    decreases src@.len() - p, 11nat,
{
    proof {
        reveal_with_fuel(spec_fx_arg_list, 1);
        reveal_with_fuel(spec_fx_arg_tail, 1);
        reveal_with_fuel(spec_ws_fx_arg, 1);
    }
    match ws_fx_arg_at(src, p) {
        None => Some((p, Vec::new())),
        Some((e, v)) => {
            let mut acc: Vec<FunctionArgument> = Vec::new();
            acc.push(v);
            let mut k = e;
            proof {
                assert(acc@.drop_last() =~= Seq::<FunctionArgument>::empty());
                assert(arguments_view(acc@.drop_last()) =~= Seq::<FunctionArgumentView>::empty());
                assert(arguments_view(acc@) =~= seq![v.deep_view()]);
            }
            loop
                invariant
                    p < k <= src@.len(),
                    spec_fx_arg_list(src@, p as int) == prepend(
                        arguments_view(acc@),
                        spec_fx_arg_tail(src@, k as int),
                    ),
                    !(spec_fx_arg_list(src@, p as int) is Abort),
                decreases src@.len() - k,
            {
                proof {
                    reveal_with_fuel(spec_fx_arg_list, 1);
                    reveal_with_fuel(spec_fx_arg_tail, 1);
                    reveal_with_fuel(spec_ws_fx_arg, 1);
                }
                if !src.is_char(k, ',') {
                    assert(arguments_view(acc@) + Seq::<FunctionArgumentView>::empty() =~= arguments_view(acc@));
                    return Some((k, acc));
                }
                match ws_fx_arg_at(src, k + 1) {
                    Some((g, v2)) => {
                        let ghost old_acc = acc@;
                        acc.push(v2);
                        proof {
                            assert(acc@.drop_last() =~= old_acc);
                            let tail = spec_fx_arg_tail(src@, g as int);
                            match tail {
                                Parsed::Done(h, ys) => assert(arguments_view(old_acc) + (seq![v2.deep_view()] + ys) =~= arguments_view(acc@) + ys),
                                _ => {},
                            }
                        }
                        k = g;
                    },
                    None => {
                        assert(arguments_view(acc@) + Seq::<FunctionArgumentView>::empty() =~= arguments_view(acc@));
                        return Some((k, acc));
                    },
                }
            }
        },
    }
}

pub fn is_alnum_exec(c: char) -> (r: bool)
    ensures
        r == is_alnum(c),
{
    is_alpha_exec(c) || is_digit_exec(c)
}

fn skip_alnum(src: &Input, p: usize) -> (q: usize)
    requires
        p <= src@.len(),
    ensures
        q == run_end(src@, p as int, |x: char| is_alnum(x)),
        p <= q <= src@.len(),
{
    let mut q = p;
    while q < src.len() && is_alnum_exec(src.at(q))
        invariant
            p <= q <= src@.len(),
            run_end(src@, q as int, |x: char| is_alnum(x)) == run_end(
                src@,
                p as int,
                |x: char| is_alnum(x),
            ),
        decreases src@.len() - q,
    {
        q = q + 1;
    }
    q
}

fn group_concat_separator_at(src: &Input, p: usize) -> (r: Option<(usize, String)>)
    requires
        p <= src@.len(),
    ensures
        match group_concat_separator(src@, p as int) {
            Some((g, sep)) => r matches Some((g2, x)) && g2 == g && x@ == sep,
            None => r is None,
        },
        r matches Some((g, _)) ==> p < g <= src@.len(),
{
    let a = src.skip_ws(p);
    if !src.tag_nc(a, "separator") {
        return None;
    }
    let b1 = a + "separator".unicode_len();
    if !src.is_char(b1, '\'') {
        return None;
    }
    let b = b1 + 1;
    let c = skip_alnum(src, b);
    if !src.is_char(c, '\'') {
        return None;
    }
    Some((src.skip_ws(c + 1), src.string(b, c)))
}

fn group_concat_fx_at(src: &Input, p: usize) -> (r: Option<(usize, (Column, String))>)
    requires
        p <= src@.len(),
        !(spec_group_concat_fx(src@, p as int) is Abort),
    ensures
        agrees(r, spec_group_concat_fx(src@, p as int)),
        r matches Some((e, _)) ==> p < e <= src@.len(),
    decreases src@.len() - p, 5nat,
{
    proof {
        reveal_with_fuel(spec_group_concat_fx, 1);
        reveal_with_fuel(spec_column_without_alias, 1);
    }
    match column_without_alias_at(src, p) {
        Some((e, c)) => match group_concat_separator_at(src, e) {
            Some((g, sep)) => Some((g, (c, sep))),
            None => Some((e, (c, ",".to_owned()))),
        },
        None => None,
    }
}

pub fn function_expression_at(src: &Input, p: usize) -> (r: Option<(usize, FunctionExpression)>)
    requires
        p <= src@.len(),
        !(spec_function_expression(src@, p as int) is Abort),
    ensures
        agrees(r, spec_function_expression(src@, p as int)),
        r matches Some((e, _)) ==> p < e <= src@.len(),
    decreases src@.len() - p, 3nat,
{
    proof {
        reveal_with_fuel(spec_function_expression, 1);
        reveal_with_fuel(spec_group_concat_or_generic, 1);
        reveal_with_fuel(spec_named_fx_args, 1);
    }
    if src.tag_nc(p, "COUNT(*)") {
        proof {
            reveal_strlit("COUNT(*)");
        }
        return Some((p + "COUNT(*)".unicode_len(), FunctionExpression::CountStar));
    }
    if let Some((e, (a, d))) = named_fx_args_at(src, p, "COUNT") {
        return Some((e, FunctionExpression::Count(a, d)));
    }
    if let Some((e, (a, d))) = named_fx_args_at(src, p, "SUM") {
        return Some((e, FunctionExpression::Sum(a, d)));
    }
    if let Some((e, (a, d))) = named_fx_args_at(src, p, "AVG") {
        return Some((e, FunctionExpression::Avg(a, d)));
    }
    if let Some((e, (a, _d))) = named_fx_args_at(src, p, "MAX") {
        return Some((e, FunctionExpression::Max(a)));
    }
    if let Some((e, (a, _d))) = named_fx_args_at(src, p, "MIN") {
        return Some((e, FunctionExpression::Min(a)));
    }
    group_concat_or_generic_at(src, p)
}

fn group_concat_or_generic_at(src: &Input, p: usize) -> (r: Option<(usize, FunctionExpression)>)
    requires
        p <= src@.len(),
        !(spec_group_concat_or_generic(src@, p as int) is Abort),
    ensures
        agrees(r, spec_group_concat_or_generic(src@, p as int)),
        r matches Some((e, _)) ==> p < e <= src@.len(),
    decreases src@.len() - p, 2nat,
{
    proof {
        reveal_with_fuel(spec_group_concat_or_generic, 1);
        reveal_with_fuel(spec_fx_arg_list, 1);
        reveal_with_fuel(spec_group_concat_fx, 1);
    }
    if src.tag_nc(p, "GROUP_CONCAT") && src.is_char(p + "GROUP_CONCAT".unicode_len(), '(') {
        match group_concat_fx_at(src, p + "GROUP_CONCAT".unicode_len() + 1) {
            Some((e, (c, sep))) => if src.is_char(e, ')') {
                return Some(
                    (e + 1, FunctionExpression::GroupConcat(FunctionArgument::Column(c), sep)),
                );
            },
            None => {},
        }
    }
    match sql_identifier_at(src, p) {
        Some((e1, sp)) => {
            let e2 = src.skip_ws(e1);
            if src.is_char(e2, '(') {
                match fx_arg_list_at(src, e2 + 1) {
                    Some((e3, args)) => if src.is_char(e3, ')') {
                        Some(
                            (
                                e3 + 1,
                                FunctionExpression::Generic(
                                    src.string(sp.start, sp.end),
                                    FunctionArguments { arguments: args },
                                ),
                            ),
                        )
                    } else {
                        None
                    },
                    None => None,
                }
            } else {
                None
            }
        },
        None => None,
    }
}

/// Columns without alias, each followed by an optional comma, as many as match.
pub open spec fn spec_field_list(s: Seq<char>, p: int) -> Parsed<Seq<ColumnView>>
    decreases s.len() - p,
{
    match spec_column_without_alias(s, p) {
        Parsed::Done(e, c) => {
            let f = opt_comma_end(s, e);
            if p < f <= s.len() {
                prepend(seq![c], spec_field_list(s, f))
            } else {
                Parsed::NoMatch
            }
        },
        Parsed::NoMatch => Parsed::Done(p, Seq::empty()),
        Parsed::Abort => Parsed::Abort,
    }
}

/// An optional sort order at `p`: where it ends and the order.
pub open spec fn opt_order(s: Seq<char>, p: int) -> (int, Option<OrderType>) {
    match spec_order_type(s, p) {
        Parsed::Done(q, o) => (q, Some(o)),
        _ => (p, None),
    }
}

/// `column [ws] [(length)] [ASC | DESC]`; a length above 65535 aborts.
pub open spec fn spec_index_col_name(s: Seq<char>, p: int) -> Parsed<
    (ColumnView, Option<u16>, Option<OrderType>),
> {
    match spec_column_without_alias(s, p) {
        Parsed::Done(e, c) => {
            let a = ws_end(s, e);
            match spec_len(s, a) {
                Parsed::Done(b, n) => Parsed::Done(opt_order(s, b).0, (c, Some(n), opt_order(s, b).1)),
                Parsed::NoMatch => Parsed::Done(opt_order(s, a).0, (c, None, opt_order(s, a).1)),
                Parsed::Abort => Parsed::Abort,
            }
        },
        Parsed::NoMatch => Parsed::NoMatch,
        Parsed::Abort => Parsed::Abort,
    }
}

/// Index columns, each followed by an optional comma, as many as match; only
/// the columns are kept.
pub open spec fn spec_index_col_list(s: Seq<char>, p: int) -> Parsed<Seq<ColumnView>>
    decreases s.len() - p,
{
    match spec_index_col_name(s, p) {
        Parsed::Done(e, (c, _, _)) => {
            let f = opt_comma_end(s, e);
            if p < f <= s.len() {
                prepend(seq![c], spec_index_col_list(s, f))
            } else {
                Parsed::NoMatch
            }
        },
        Parsed::NoMatch => Parsed::Done(p, Seq::empty()),
        Parsed::Abort => Parsed::Abort,
    }
}

fn opt_order_at(src: &Input, p: usize) -> (r: (usize, Option<OrderType>))
    requires
        p <= src@.len(),
    ensures
        r.0 == opt_order(src@, p as int).0,
        r.1 == opt_order(src@, p as int).1,
        p <= r.0 <= src@.len(),
{
    match order_type_at(src, p) {
        Some((q, o)) => (q, Some(o)),
        None => (p, None),
    }
}

pub fn index_col_name_at(src: &Input, p: usize) -> (r: Option<
    (usize, (Column, Option<u16>, Option<OrderType>)),
>)
    requires
        p <= src@.len(),
        !(spec_index_col_name(src@, p as int) is Abort),
    ensures
        agrees(r, spec_index_col_name(src@, p as int)),
        r matches Some((e, _)) ==> p < e <= src@.len(),
{
    match column_without_alias_at(src, p) {
        Some((e, c)) => {
            let a = src.skip_ws(e);
            match len_at(src, a) {
                Some((b, n)) => {
                    let (q, o) = opt_order_at(src, b);
                    Some((q, (c, Some(n), o)))
                },
                None => {
                    let (q, o) = opt_order_at(src, a);
                    Some((q, (c, None, o)))
                },
            }
        },
        None => None,
    }
}

pub fn field_list_at(src: &Input, p: usize) -> (r: Option<(usize, Vec<Column>)>)
    requires
        p <= src@.len(),
        !(spec_field_list(src@, p as int) is Abort),
    ensures
        agrees(r, spec_field_list(src@, p as int)),
        r matches Some((e, _)) ==> p <= e <= src@.len(),
{
    let mut acc: Vec<Column> = Vec::new();
    let mut k = p;
    loop
        invariant
            p <= k <= src@.len(),
            spec_field_list(src@, p as int) == prepend(acc.deep_view(), spec_field_list(src@, k as int)),
            !(spec_field_list(src@, p as int) is Abort),
        decreases src@.len() - k,
    {
        match column_without_alias_at(src, k) {
            Some((e, c)) => {
                let f = opt_comma_end_at(src, e);
                let ghost old_acc = acc.deep_view();
                acc.push(c);
                assert(acc.deep_view() =~= old_acc + seq![c.deep_view()]);
                proof {
                    let tail = spec_field_list(src@, f as int);
                    match tail {
                        Parsed::Done(h, ys) => assert(old_acc + (seq![c.deep_view()] + ys) =~= acc.deep_view() + ys),
                        _ => {},
                    }
                }
                k = f;
            },
            None => {
                assert(acc.deep_view() + Seq::<ColumnView>::empty() =~= acc.deep_view());
                return Some((k, acc));
            },
        }
    }
}

pub fn index_col_list_at(src: &Input, p: usize) -> (r: Option<(usize, Vec<Column>)>)
    requires
        p <= src@.len(),
        !(spec_index_col_list(src@, p as int) is Abort),
    ensures
        agrees(r, spec_index_col_list(src@, p as int)),
        r matches Some((e, _)) ==> p <= e <= src@.len(),
{
    let mut acc: Vec<Column> = Vec::new();
    let mut k = p;
    loop
        invariant
            p <= k <= src@.len(),
            spec_index_col_list(src@, p as int) == prepend(
                acc.deep_view(),
                spec_index_col_list(src@, k as int),
            ),
            !(spec_index_col_list(src@, p as int) is Abort),
        decreases src@.len() - k,
    {
        match index_col_name_at(src, k) {
            Some((e, (c, _, _))) => {
                let f = opt_comma_end_at(src, e);
                let ghost old_acc = acc.deep_view();
                acc.push(c);
                assert(acc.deep_view() =~= old_acc + seq![c.deep_view()]);
                proof {
                    let tail = spec_index_col_list(src@, f as int);
                    match tail {
                        Parsed::Done(h, ys) => assert(old_acc + (seq![c.deep_view()] + ys) =~= acc.deep_view() + ys),
                        _ => {},
                    }
                }
                k = f;
            },
            None => {
                assert(acc.deep_view() + Seq::<ColumnView>::empty() =~= acc.deep_view());
                return Some((k, acc));
            },
        }
    }
}

/// Position of the first `.` in `s`, if any.
pub open spec fn first_dot(s: Seq<char>) -> int {
    run_end(s, 0, |c: char| c != '.')
}

/// The column that a `[table.]name` text names, split at its first `.`.
pub open spec fn column_of_text(s: Seq<char>) -> ColumnView {
    let i = first_dot(s);
    if i < s.len() {
        ColumnView {
            name: s.subrange(i + 1, s.len() as int),
            alias: None,
            table: Some(s.subrange(0, i)),
            function: None,
        }
    } else {
        ColumnView { name: s, alias: None, table: None, function: None }
    }
}

/// The text of the column that a `[table.]name` string names is that string,
/// where neither part starts with a keyword (such a part comes back quoted).
pub proof fn lemma_column_of_text_round_trip(s: Seq<char>)
    requires
        !(crate::base::common_parser::spec_sql_keyword(column_of_text(s).name, 0) is Some),
        column_of_text(s).table matches Some(t) ==> !(
        crate::base::common_parser::spec_sql_keyword(t, 0) is Some),
    ensures
        column_text(column_of_text(s)) == s,
{
    let i = first_dot(s);
    lemma_run_end_bounds(s, 0, |c: char| c != '.');
    if i < s.len() {
        assert(s[i] == '.');
        assert(s.subrange(0, i) + "."@ + s.subrange(i + 1, s.len() as int) =~= s) by {
            reveal_strlit(".");
        }
    }
    assert(column_text(column_of_text(s)) =~= s) by {
        reveal_strlit(".");
    }
}

impl FunctionExpression {
    /// A function call: `COUNT(*)`, `COUNT`, `SUM`, `AVG`, `MAX` or `MIN` of
    /// one argument, `GROUP_CONCAT`, or a generic `name(arguments)`.
    pub fn parse(i: &str) -> (r: Result<(&str, FunctionExpression), ParseSQLError>)
        requires
            !(spec_function_expression(i@, 0) is Abort),
        ensures
            str_agrees(i@, r, spec_function_expression(i@, 0)),
    {
        let src = Input::new(i);
        match function_expression_at(&src, 0) {
            Some((q, v)) => Ok((src.rest(q), v)),
            None => Err(ParseSQLError::grammar(i)),
        }
    }
}

impl FunctionArgument {
    /// Parses the argument for an aggregation function.
    pub fn parse(i: &str) -> (r: Result<(&str, FunctionArgument), ParseSQLError>)
        requires
            !(spec_function_argument(i@, 0) is Abort),
        ensures
            str_agrees(i@, r, spec_function_argument(i@, 0)),
    {
        let src = Input::new(i);
        match function_argument_at(&src, 0) {
            Some((q, v)) => Ok((src.rest(q), v)),
            None => Err(ParseSQLError::grammar(i)),
        }
    }

    /// Parses the bracketed argument of an aggregation function, and also
    /// returns whether the `DISTINCT` flag is present.
    pub fn delim_fx_args(i: &str) -> (r: Result<(&str, (FunctionArgument, bool)), ParseSQLError>)
        requires
            !(spec_delim_fx_args(i@, 0) is Abort),
        ensures
            str_agrees(i@, r, spec_delim_fx_args(i@, 0)),
    {
        let src = Input::new(i);
        match delim_fx_args_at(&src, 0) {
            Some((q, v)) => Ok((src.rest(q), v)),
            None => Err(ParseSQLError::grammar(i)),
        }
    }
}

impl From<Vec<FunctionArgument>> for FunctionArguments {
    fn from(args: Vec<FunctionArgument>) -> FunctionArguments {
        FunctionArguments::new(args)
    }
}

impl vstd::std_specs::convert::FromSpecImpl<Vec<FunctionArgument>> for FunctionArguments {
    open spec fn obeys_from_spec() -> bool {
        false
    }

    open spec fn from_spec(args: Vec<FunctionArgument>) -> FunctionArguments {
        vstd::pervasive::arbitrary()
    }
}

impl FunctionArguments {
    /// The argument list holding `args`.
    pub fn new(args: Vec<FunctionArgument>) -> (r: FunctionArguments)
        ensures
            r.arguments@ == args@,
    {
        FunctionArguments { arguments: args }
    }
}

impl Column {
    /// Index columns (`column [(length)] [ASC|DESC]`), separated by optional
    /// commas; lengths and orders are dropped.
    pub fn index_col_list(i: &str) -> (r: Result<(&str, Vec<Column>), ParseSQLError>)
        requires
            !(spec_index_col_list(i@, 0) is Abort),
        ensures
            str_agrees(i@, r, spec_index_col_list(i@, 0)),
    {
        let src = Input::new(i);
        match index_col_list_at(&src, 0) {
            Some((q, v)) => Ok((src.rest(q), v)),
            None => Err(ParseSQLError::grammar(i)),
        }
    }

    /// A comma-separated list of fields without aliases.
    pub fn field_list(i: &str) -> (r: Result<(&str, Vec<Column>), ParseSQLError>)
        requires
            !(spec_field_list(i@, 0) is Abort),
        ensures
            str_agrees(i@, r, spec_field_list(i@, 0)),
    {
        let src = Input::new(i);
        match field_list_at(&src, 0) {
            Some((q, v)) => Ok((src.rest(q), v)),
            None => Err(ParseSQLError::grammar(i)),
        }
    }

    /// A column without alias: a function call or `[table.]name`.
    pub fn without_alias(i: &str) -> (r: Result<(&str, Column), ParseSQLError>)
        requires
            !(spec_column_without_alias(i@, 0) is Abort),
        ensures
            str_agrees(i@, r, spec_column_without_alias(i@, 0)),
    {
        let src = Input::new(i);
        match column_without_alias_at(&src, 0) {
            Some((q, v)) => Ok((src.rest(q), v)),
            None => Err(ParseSQLError::grammar(i)),
        }
    }

    /// A column in the `[table.]name [[AS] alias]` form, or a function call
    /// with an optional alias.
    pub fn parse(i: &str) -> (r: Result<(&str, Column), ParseSQLError>)
        requires
            !(spec_column(i@, 0) is Abort),
        ensures
            str_agrees(i@, r, spec_column(i@, 0)),
    {
        let src = Input::new(i);
        match column_at(&src, 0) {
            Some((q, v)) => Ok((src.rest(q), v)),
            None => Err(ParseSQLError::grammar(i)),
        }
    }

    /// The column that `[table.]name` names: the text up to its first `.` is
    /// the table, the rest the name.
    pub fn from_name(c: &str) -> (r: Column)
        ensures
            r.deep_view() == column_of_text(c@),
    {
        let src = Input::new(c);
        let n = src.len();
        let mut i: usize = 0;
        while i < n && src.at(i) != '.'
            invariant
                i <= n,
                n == c@.len(),
                src@ == c@,
                run_end(c@, i as int, |x: char| x != '.') == first_dot(c@),
            decreases n - i,
        {
            i = i + 1;
        }
        if i < n {
            Column {
                name: src.string(i + 1, n),
                alias: None,
                table: Some(src.string(0, i)),
                function: None,
            }
        } else {
            assert(src@.subrange(0, n as int) =~= c@);
            Column { name: c.to_owned(), alias: None, table: None, function: None }
        }
    }
}

impl From<String> for Column {
    fn from(value: String) -> Column {
        Column::from_name(value.as_str())
    }
}

impl vstd::std_specs::convert::FromSpecImpl<String> for Column {
    open spec fn obeys_from_spec() -> bool {
        false
    }

    open spec fn from_spec(value: String) -> Column {
        vstd::pervasive::arbitrary()
    }
}

impl<'a> From<&'a str> for Column {
    fn from(c: &str) -> Column {
        Column::from_name(c)
    }
}

impl<'a> vstd::std_specs::convert::FromSpecImpl<&'a str> for Column {
    open spec fn obeys_from_spec() -> bool {
        false
    }

    open spec fn from_spec(c: &'a str) -> Column {
        vstd::pervasive::arbitrary()
    }
}

/// The views of the first `k + 1` arguments extend those of the first `k`.
pub proof fn lemma_arguments_view_step(s: Seq<FunctionArgument>, k: int)
    requires
        0 <= k < s.len(),
    ensures
        arguments_view(s.subrange(0, k + 1)) == arguments_view(s.subrange(0, k)).push(
            s[k].deep_view(),
        ),
{
    assert(s.subrange(0, k + 1).drop_last() =~= s.subrange(0, k));
}

pub proof fn lemma_arguments_view_len(s: Seq<FunctionArgument>)
    ensures
        arguments_view(s).len() == s.len(),
    decreases s.len(),
{
    if s.len() > 0 {
        lemma_arguments_view_len(s.drop_last());
        assert(arguments_view(s) == arguments_view(s.drop_last()).push(s.last().deep_view()));
    } else {
        assert(arguments_view(s) == Seq::<FunctionArgumentView>::empty());
    }
}

impl FunctionExpression {
    /// Appends the SQL text of the function call.
    pub fn push_text(&self, out: &mut String)
        ensures
            final(out)@ == old(out)@ + function_expression_text(self.deep_view()),
        decreases self,
    {
        let ghost start = out@;
        match self {
            FunctionExpression::Avg(a, d) => {
                out.append(if *d { "avg(distinct " } else { "avg(" });
                a.push_text(out);
                out.append(")");
            },
            FunctionExpression::Count(a, d) => {
                out.append(if *d { "count(distinct " } else { "count(" });
                a.push_text(out);
                out.append(")");
            },
            FunctionExpression::CountStar => {
                out.append("count(*)");
            },
            FunctionExpression::Sum(a, d) => {
                out.append(if *d { "sum(distinct " } else { "sum(" });
                a.push_text(out);
                out.append(")");
            },
            FunctionExpression::Max(a) => {
                out.append("max(");
                a.push_text(out);
                out.append(")");
            },
            FunctionExpression::Min(a) => {
                out.append("min(");
                a.push_text(out);
                out.append(")");
            },
            FunctionExpression::GroupConcat(a, sep) => {
                out.append("group_concat(");
                a.push_text(out);
                out.append(", ");
                out.append(sep.as_str());
                out.append(")");
            },
            FunctionExpression::Generic(name, args) => {
                out.append(name.as_str());
                out.append("(");
                args.push_text(out);
                out.append(")");
            },
        }
        proof {
            reveal_strlit("avg(distinct ");
            reveal_strlit("avg(");
            reveal_strlit("count(distinct ");
            reveal_strlit("count(");
            reveal_strlit("sum(distinct ");
            reveal_strlit("sum(");
            reveal_strlit("max(");
            reveal_strlit("min(");
            reveal_strlit("(distinct ");
            reveal_strlit("(");
            reveal_strlit("avg");
            reveal_strlit("count");
            reveal_strlit("sum");
            reveal_strlit("max");
            reveal_strlit("min");
        }
        assert(out@ =~= start + function_expression_text(self.deep_view()));
    }

    /// The SQL text of the function call.
    pub fn to_string(&self) -> (r: String)
        ensures
            r@ == function_expression_text(self.deep_view()),
    {
        let mut out = String::new();
        self.push_text(&mut out);
        assert(out@ =~= function_expression_text(self.deep_view()));
        out
    }
}

impl FunctionArguments {
    /// Appends the arguments separated by `,`.
    pub fn push_text(&self, out: &mut String)
        ensures
            final(out)@ == old(out)@ + arguments_text(self.deep_view().arguments),
        decreases self,
    {
        let ghost start = out@;
        let n = self.arguments.len();
        let mut k: usize = 0;
        assert(self.arguments@.subrange(0, 0) =~= Seq::<FunctionArgument>::empty());
        while k < n
            invariant
                k <= n,
                n == self.arguments@.len(),
                out@ == start + arguments_text(arguments_view(self.arguments@.subrange(0, k as int))),
            decreases n - k,
        {
            proof {
                lemma_arguments_view_step(self.arguments@, k as int);
                lemma_arguments_view_len(self.arguments@.subrange(0, k as int));
            }
            let ghost prev = arguments_view(self.arguments@.subrange(0, k as int));
            let ghost next = prev.push(self.arguments@[k as int].deep_view());
            if k > 0 {
                out.append(",");
            }
            self.arguments[k].push_text(out);
            proof {
                reveal_strlit(",");
                assert(next.drop_last() =~= prev);
                if k == 0 {
                    assert(next =~= seq![self.arguments@[k as int].deep_view()]);
                }
            }
            assert(out@ =~= start + arguments_text(next));
            k = k + 1;
        }
        assert(self.arguments@.subrange(0, n as int) =~= self.arguments@);
    }
}

impl FunctionArgument {
    /// Appends the SQL text of the argument.
    pub fn push_text(&self, out: &mut String)
        ensures
            final(out)@ == old(out)@ + function_argument_text(self.deep_view()),
        decreases self,
    {
        match self {
            FunctionArgument::Column(c) => c.push_text(out),
            FunctionArgument::Conditional(e) => e.push_text(out),
        }
    }
}

impl Column {
    /// Appends the SQL text of the column.
    pub fn push_text(&self, out: &mut String)
        ensures
            final(out)@ == old(out)@ + column_text(self.deep_view()),
        decreases self,
    {
        let ghost start = out@;
        match &self.table {
            Some(t) => {
                out.append(DisplayUtil::escape_if_keyword(t.as_str()).as_str());
                out.append(".");
                out.append(DisplayUtil::escape_if_keyword(self.name.as_str()).as_str());
            },
            None => match &self.function {
                Some(f) => f.push_text(out),
                None => out.append(DisplayUtil::escape_if_keyword(self.name.as_str()).as_str()),
            },
        }
        match &self.alias {
            Some(a) => {
                out.append(" AS ");
                out.append(DisplayUtil::escape_if_keyword(a.as_str()).as_str());
            },
            None => {},
        }
        assert(out@ =~= start + column_text(self.deep_view()));
    }

    /// The SQL text of the column.
    pub fn to_string(&self) -> (r: String)
        ensures
            r@ == column_text(self.deep_view()),
    {
        let mut out = String::new();
        self.push_text(&mut out);
        assert(out@ =~= column_text(self.deep_view()));
        out
    }
}


#[derive(Clone, Debug, Eq, Hash, PartialEq)]
pub enum ColumnConstraint {
    NotNull,
    Null,
    CharacterSet(String),
    Collation(String),
    DefaultValue(Literal),
    AutoIncrement,
    PrimaryKey,
    Unique,
    OnUpdate(Literal),
}

pub enum ColumnConstraintView {
    NotNull,
    Null,
    CharacterSet(Seq<char>),
    Collation(Seq<char>),
    DefaultValue(LiteralView),
    AutoIncrement,
    PrimaryKey,
    Unique,
    OnUpdate(LiteralView),
}

impl DeepView for ColumnConstraint {
    type V = ColumnConstraintView;

    open spec fn deep_view(&self) -> ColumnConstraintView {
        match self {
            ColumnConstraint::NotNull => ColumnConstraintView::NotNull,
            ColumnConstraint::Null => ColumnConstraintView::Null,
            ColumnConstraint::CharacterSet(s) => ColumnConstraintView::CharacterSet(s@),
            ColumnConstraint::Collation(s) => ColumnConstraintView::Collation(s@),
            ColumnConstraint::DefaultValue(l) => ColumnConstraintView::DefaultValue(l.deep_view()),
            ColumnConstraint::AutoIncrement => ColumnConstraintView::AutoIncrement,
            ColumnConstraint::PrimaryKey => ColumnConstraintView::PrimaryKey,
            ColumnConstraint::Unique => ColumnConstraintView::Unique,
            ColumnConstraint::OnUpdate(l) => ColumnConstraintView::OnUpdate(l.deep_view()),
        }
    }
}

/// `[ws] kw [ws]`, the keyword ignoring case: where it ends.
pub open spec fn ws_keyword_ws(s: Seq<char>, p: int, kw: Seq<char>) -> Option<int> {
    let a = ws_end(s, p);
    if has_tag_nc(s, a, kw) {
        Some(ws_end(s, a + kw.len()))
    } else {
        None
    }
}

/// A default value, trying in order: `'text'`, `"text"`, `digits.digits`,
/// `[-]digits`, `''`, `NULL`, `FALSE`, `TRUE` and `CURRENT_TIMESTAMP[(digits)]`
/// (words ignoring case). A number too large for its type aborts.
pub open spec fn spec_default_literal(s: Seq<char>, q: int) -> Parsed<LiteralView> {
    let d1 = digits_end(s, q);
    let d2 = digits_end(s, d1 + 1);
    let m = if char_at(s, q, '-') {
        q + 1
    } else {
        q
    };
    let d = digits_end(s, m);
    if let Parsed::Done(e, (a, b)) = spec_quoted(s, q, '\'') {
        Parsed::Done(e, LiteralView::String(s.subrange(a, b)))
    } else if let Parsed::Done(e, (a, b)) = spec_quoted(s, q, '"') {
        Parsed::Done(e, LiteralView::String(s.subrange(a, b)))
    } else if d1 > q && char_at(s, d1, '.') && d2 > d1 + 1 {
        let i = digits_value(s.subrange(q, d1));
        let f = digits_value(s.subrange(d1 + 1, d2));
        if i <= i32::MAX && f <= i32::MAX {
            Parsed::Done(
                d2,
                LiteralView::FixedPoint(Real { integral: i as i32, fractional: f as i32 }),
            )
        } else {
            Parsed::Abort
        }
    } else if d > m {
        let v = digits_value(s.subrange(m, d));
        if v <= i64::MAX {
            Parsed::Done(
                d,
                LiteralView::Integer(
                    if m > q {
                        (-v) as i64
                    } else {
                        v as i64
                    },
                ),
            )
        } else {
            Parsed::Abort
        }
    } else if has_tag(s, q, "''"@) {
        Parsed::Done(q + 2, LiteralView::String(Seq::empty()))
    } else if has_tag_nc(s, q, "NULL"@) {
        Parsed::Done(q + 4, LiteralView::Null)
    } else if has_tag_nc(s, q, "FALSE"@) {
        Parsed::Done(q + 5, LiteralView::Bool(false))
    } else if has_tag_nc(s, q, "TRUE"@) {
        Parsed::Done(q + 4, LiteralView::Bool(true))
    } else if has_tag_nc(s, q, "CURRENT_TIMESTAMP"@) {
        Parsed::Done(opt_delim_digit_end(s, q + 17), LiteralView::CurrentTimestamp)
    } else {
        Parsed::NoMatch
    }
}

/// Position after an optional `(digits)` at `p`.
pub open spec fn opt_delim_digit_end(s: Seq<char>, p: int) -> int {
    match spec_delim_digit(s, p) {
        Parsed::Done(e, _) => e,
        _ => p,
    }
}

/// `[ws] DEFAULT ws value [ws]`
pub open spec fn spec_default_constraint(s: Seq<char>, p: int) -> Parsed<LiteralView> {
    let a = ws_end(s, p);
    let c = ws_end(s, a + "DEFAULT"@.len());
    if has_tag_nc(s, a, "DEFAULT"@) && c > a + "DEFAULT"@.len() {
        match spec_default_literal(s, c) {
            Parsed::Done(e, l) => Parsed::Done(ws_end(s, e), l),
            other => other,
        }
    } else {
        Parsed::NoMatch
    }
}

/// An identifier, or one in `'` or `"` quotes; the value is its range.
pub open spec fn spec_name_maybe_quoted(s: Seq<char>, p: int) -> Parsed<(int, int)> {
    match spec_sql_identifier(s, p) {
        Parsed::Done(e, r) => Parsed::Done(e, r),
        _ => if char_at(s, p, '\'') || char_at(s, p, '"') {
            match spec_sql_identifier(s, p + 1) {
                Parsed::Done(e, r) => if char_at(s, e, s[p]) {
                    Parsed::Done(e + 1, r)
                } else {
                    Parsed::NoMatch
                },
                _ => Parsed::NoMatch,
            }
        } else {
            Parsed::NoMatch
        },
    }
}

/// `[ws] kw ws name` with the name possibly quoted: the name's range.
pub open spec fn spec_named_setting(s: Seq<char>, p: int, kw: Seq<char>) -> Parsed<(int, int)> {
    let a = ws_end(s, p);
    let c = ws_end(s, a + kw.len());
    if has_tag_nc(s, a, kw) && c > a + kw.len() {
        spec_name_maybe_quoted(s, c)
    } else {
        Parsed::NoMatch
    }
}

/// `ON ws UPDATE ws CURRENT_TIMESTAMP[(digits)]`, ignoring case: where it ends.
pub open spec fn on_update_end(s: Seq<char>, p: int) -> Option<int> {
    let a = ws_end(s, p + "ON"@.len());
    let b = ws_end(s, a + "UPDATE"@.len());
    if has_tag_nc(s, p, "ON"@) && a > p + "ON"@.len() && has_tag_nc(s, a, "UPDATE"@) && b > a
        + "UPDATE"@.len() && has_tag_nc(s, b, "CURRENT_TIMESTAMP"@) {
        Some(opt_delim_digit_end(s, b + "CURRENT_TIMESTAMP"@.len()))
    } else {
        None
    }
}

/// A column constraint, trying in order: `NOT NULL`, `NULL`, `AUTO_INCREMENT`,
/// `DEFAULT value`, `PRIMARY KEY`, `UNIQUE`, `CHARACTER SET name`,
/// `COLLATE name` and `ON UPDATE CURRENT_TIMESTAMP`, keywords ignoring case.
pub open spec fn spec_column_constraint(s: Seq<char>, p: int) -> Parsed<ColumnConstraintView> {
    if let Some(e) = ws_keyword_ws(s, p, "NOT NULL"@) {
        Parsed::Done(e, ColumnConstraintView::NotNull)
    } else if let Some(e) = ws_keyword_ws(s, p, "NULL"@) {
        Parsed::Done(e, ColumnConstraintView::Null)
    } else if let Some(e) = ws_keyword_ws(s, p, "AUTO_INCREMENT"@) {
        Parsed::Done(e, ColumnConstraintView::AutoIncrement)
    } else {
        match spec_default_constraint(s, p) {
            Parsed::Done(e, l) => Parsed::Done(e, ColumnConstraintView::DefaultValue(l)),
            Parsed::Abort => Parsed::Abort,
            Parsed::NoMatch => if let Some(e) = ws_keyword_ws(s, p, "PRIMARY KEY"@) {
                Parsed::Done(e, ColumnConstraintView::PrimaryKey)
            } else if let Some(e) = ws_keyword_ws(s, p, "UNIQUE"@) {
                Parsed::Done(e, ColumnConstraintView::Unique)
            } else if let Parsed::Done(e, (a, b)) = spec_named_setting(s, p, "CHARACTER SET"@) {
                Parsed::Done(e, ColumnConstraintView::CharacterSet(s.subrange(a, b)))
            } else if let Parsed::Done(e, (a, b)) = spec_named_setting(s, p, "COLLATE"@) {
                Parsed::Done(e, ColumnConstraintView::Collation(s.subrange(a, b)))
            } else if let Some(e) = on_update_end(s, p) {
                Parsed::Done(e, ColumnConstraintView::OnUpdate(LiteralView::CurrentTimestamp))
            } else {
                Parsed::NoMatch
            },
        }
    }
}

/// Column constraints, as many as match.
pub open spec fn spec_column_constraints(s: Seq<char>, p: int) -> Parsed<Seq<ColumnConstraintView>>
    decreases s.len() - p,
{
    match spec_column_constraint(s, p) {
        Parsed::Done(e, c) => if p < e <= s.len() {
            prepend(seq![c], spec_column_constraints(s, e))
        } else {
            Parsed::NoMatch
        },
        Parsed::NoMatch => Parsed::Done(p, Seq::empty()),
        Parsed::Abort => Parsed::Abort,
    }
}

pub open spec fn column_constraint_text(c: ColumnConstraintView) -> Seq<char> {
    match c {
        ColumnConstraintView::NotNull => "NOT NULL"@,
        ColumnConstraintView::Null => "NULL"@,
        ColumnConstraintView::CharacterSet(x) => "CHARACTER SET "@ + x,
        ColumnConstraintView::Collation(x) => "COLLATE "@ + x,
        ColumnConstraintView::DefaultValue(l) => "DEFAULT "@ + literal_text(l),
        ColumnConstraintView::AutoIncrement => "AUTO_INCREMENT"@,
        ColumnConstraintView::PrimaryKey => "PRIMARY KEY"@,
        ColumnConstraintView::Unique => "UNIQUE"@,
        ColumnConstraintView::OnUpdate(_) => "ON UPDATE CURRENT_TIMESTAMP"@,
    }
}

/// The text of a keyword constraint reads back as that constraint, the whole
/// text being read; the constraints that carry a name or a value are left
/// out of this statement.
pub proof fn lemma_keyword_constraint_round_trip(c: ColumnConstraintView)
    requires
        c is NotNull || c is Null || c is AutoIncrement || c is PrimaryKey || c is Unique
            || c == ColumnConstraintView::OnUpdate(LiteralView::CurrentTimestamp),
    ensures
        spec_column_constraint(column_constraint_text(c), 0) == Parsed::Done(
            column_constraint_text(c).len() as int,
            c,
        ),
{
    reveal_strlit("NOT NULL");
    reveal_strlit("NULL");
    reveal_strlit("AUTO_INCREMENT");
    reveal_strlit("DEFAULT");
    reveal_strlit("PRIMARY KEY");
    reveal_strlit("UNIQUE");
    reveal_strlit("CHARACTER SET");
    reveal_strlit("COLLATE");
    reveal_strlit("ON");
    reveal_strlit("UPDATE");
    reveal_strlit("CURRENT_TIMESTAMP");
    reveal_strlit("ON UPDATE CURRENT_TIMESTAMP");
    let s = column_constraint_text(c);
    reveal_with_fuel(run_end, 2);
    if c is NotNull {
        lemma_tag_nc_of_eq(s, 0, "NOT NULL"@);
    } else if c is Null {
        lemma_tag_nc_mismatch(s, 0, "NOT NULL"@, 1);
        lemma_tag_nc_of_eq(s, 0, "NULL"@);
    } else if c is AutoIncrement {
        lemma_tag_nc_mismatch(s, 0, "NOT NULL"@, 0);
        lemma_tag_nc_mismatch(s, 0, "NULL"@, 0);
        lemma_tag_nc_of_eq(s, 0, "AUTO_INCREMENT"@);
    } else if c is PrimaryKey {
        lemma_tag_nc_mismatch(s, 0, "NOT NULL"@, 0);
        lemma_tag_nc_mismatch(s, 0, "NULL"@, 0);
        lemma_tag_nc_mismatch(s, 0, "AUTO_INCREMENT"@, 0);
        lemma_tag_nc_mismatch(s, 0, "DEFAULT"@, 0);
        lemma_tag_nc_of_eq(s, 0, "PRIMARY KEY"@);
    } else if c is Unique {
        lemma_tag_nc_mismatch(s, 0, "NOT NULL"@, 0);
        lemma_tag_nc_mismatch(s, 0, "NULL"@, 0);
        lemma_tag_nc_mismatch(s, 0, "AUTO_INCREMENT"@, 0);
        lemma_tag_nc_mismatch(s, 0, "DEFAULT"@, 0);
        lemma_tag_nc_mismatch(s, 0, "PRIMARY KEY"@, 0);
        lemma_tag_nc_of_eq(s, 0, "UNIQUE"@);
    } else {
        lemma_tag_nc_mismatch(s, 0, "NOT NULL"@, 0);
        lemma_tag_nc_mismatch(s, 0, "NULL"@, 0);
        lemma_tag_nc_mismatch(s, 0, "AUTO_INCREMENT"@, 0);
        lemma_tag_nc_mismatch(s, 0, "DEFAULT"@, 0);
        lemma_tag_nc_mismatch(s, 0, "PRIMARY KEY"@, 0);
        lemma_tag_nc_mismatch(s, 0, "UNIQUE"@, 0);
        lemma_tag_nc_mismatch(s, 0, "CHARACTER SET"@, 0);
        lemma_tag_nc_mismatch(s, 0, "COLLATE"@, 0);
        lemma_tag_nc_of_eq(s, 0, "ON"@);
        lemma_tag_nc_of_eq(s, 3, "UPDATE"@);
        lemma_tag_nc_of_eq(s, 10, "CURRENT_TIMESTAMP"@);
    }
}

#[derive(Clone, Debug, Eq, Hash, PartialEq)]
pub enum ColumnPosition {
    First,
    After(Column),
}

pub enum ColumnPositionView {
    First,
    After(ColumnView),
}

impl DeepView for ColumnPosition {
    type V = ColumnPositionView;

    open spec fn deep_view(&self) -> ColumnPositionView {
        match self {
            ColumnPosition::First => ColumnPositionView::First,
            ColumnPosition::After(c) => ColumnPositionView::After(c.deep_view()),
        }
    }
}

/// `[ws] FIRST [ws]`, or `[ws] AFTER ws identifier`, ignoring case.
pub open spec fn spec_column_position(s: Seq<char>, p: int) -> Parsed<ColumnPositionView> {
    let a = ws_end(s, p);
    let c = ws_end(s, a + "AFTER"@.len());
    if has_tag_nc(s, a, "FIRST"@) {
        Parsed::Done(ws_end(s, a + "FIRST"@.len()), ColumnPositionView::First)
    } else if has_tag_nc(s, a, "AFTER"@) && c > a + "AFTER"@.len() {
        match spec_sql_identifier(s, c) {
            Parsed::Done(e, (x, y)) => Parsed::Done(
                e,
                ColumnPositionView::After(column_of_text(s.subrange(x, y))),
            ),
            _ => Parsed::NoMatch,
        }
    } else {
        Parsed::NoMatch
    }
}

/// `FIRST`, or `AFTER [table.]name`.
pub open spec fn column_position_text(p: ColumnPositionView) -> Seq<char> {
    match p {
        ColumnPositionView::First => "FIRST"@,
        ColumnPositionView::After(c) => "AFTER "@ + match c.table {
            Some(t) => t + "."@ + c.name,
            None => c.name,
        },
    }
}

#[derive(Clone, Debug, Eq, Hash, PartialEq)]
pub struct ColumnSpecification {
    pub column: Column,
    pub sql_type: DataType,
    pub constraints: Vec<ColumnConstraint>,
    pub comment: Option<String>,
    pub position: Option<ColumnPosition>,
}

pub struct ColumnSpecificationView {
    pub column: ColumnView,
    pub sql_type: DataTypeView,
    pub constraints: Seq<ColumnConstraintView>,
    pub comment: Option<Seq<char>>,
    pub position: Option<ColumnPositionView>,
}

impl DeepView for ColumnSpecification {
    type V = ColumnSpecificationView;

    open spec fn deep_view(&self) -> ColumnSpecificationView {
        ColumnSpecificationView {
            column: self.column.deep_view(),
            sql_type: self.sql_type.deep_view(),
            constraints: self.constraints.deep_view(),
            comment: self.comment.deep_view(),
            position: match &self.position {
                Some(x) => Some(x.deep_view()),
                None => None,
            },
        }
    }
}

/// The parts of a column definition: the column, the type if there is one,
/// the constraints, the comment and the position.
pub struct ColumnDefinitionParts {
    pub column: ColumnView,
    pub sql_type: Option<DataTypeView>,
    pub constraints: Seq<ColumnConstraintView>,
    pub comment: Option<Seq<char>>,
    pub position: Option<ColumnPositionView>,
}

/// `column [ws type [ws]] constraints [comment] [position] [ws , ws]`.
pub open spec fn spec_column_definition(s: Seq<char>, p: int) -> Parsed<ColumnDefinitionParts> {
    match spec_column_without_alias(s, p) {
        Parsed::Done(e, col) => {
            let a = ws_end(s, e);
            let typed = if a > e {
                match spec_type_identifier(s, a) {
                    Parsed::Done(f, t) => Parsed::Done(ws_end(s, f), Some(t)),
                    Parsed::NoMatch => Parsed::Done(e, None),
                    Parsed::Abort => Parsed::Abort,
                }
            } else {
                Parsed::Done(e, None)
            };
            match typed {
                Parsed::Done(f, t) => match spec_column_constraints(s, f) {
                    Parsed::Done(g, cs) => {
                        let (h, comment) = match spec_parse_comment(s, g) {
                            Parsed::Done(h, (x, y)) => (h, Some(s.subrange(x, y))),
                            _ => (g, None),
                        };
                        let (k, position) = match spec_column_position(s, h) {
                            Parsed::Done(k, pos) => (k, Some(pos)),
                            _ => (h, None),
                        };
                        Parsed::Done(
                            opt_comma_end(s, k),
                            ColumnDefinitionParts {
                                column: col,
                                sql_type: t,
                                constraints: cs,
                                comment,
                                position,
                            },
                        )
                    },
                    Parsed::NoMatch => Parsed::NoMatch,
                    Parsed::Abort => Parsed::Abort,
                },
                Parsed::NoMatch => Parsed::NoMatch,
                Parsed::Abort => Parsed::Abort,
            }
        },
        Parsed::NoMatch => Parsed::NoMatch,
        Parsed::Abort => Parsed::Abort,
    }
}

/// Constraints, each preceded by a space.
pub open spec fn constraints_text(cs: Seq<ColumnConstraintView>) -> Seq<char>
    decreases cs.len(),
{
    if cs.len() == 0 {
        Seq::empty()
    } else {
        constraints_text(cs.drop_last()) + " "@ + column_constraint_text(cs.last())
    }
}

/// `name type constraints[ COMMENT 'comment']`, the name in back quotes when
/// it reads as a keyword.
pub open spec fn column_specification_text(c: ColumnSpecificationView) -> Seq<char> {
    escaped_name(c.column.name) + " "@ + data_type_text(c.sql_type) + constraints_text(
        c.constraints,
    ) + match c.comment {
        Some(x) => " COMMENT '"@ + x + "'"@,
        None => Seq::empty(),
    }
}

fn ws_keyword_ws_at(src: &Input, p: usize, kw: &str) -> (r: Option<usize>)
    requires
        p <= src@.len(),
    ensures
        match ws_keyword_ws(src@, p as int, kw@) {
            Some(e) => r matches Some(e2) && e2 == e,
            None => r is None,
        },
        r matches Some(e) ==> p + kw@.len() <= e <= src@.len(),
{
    let a = src.skip_ws(p);
    if src.tag_nc(a, kw) {
        Some(src.skip_ws(a + kw.unicode_len()))
    } else {
        None
    }
}

fn opt_delim_digit_end_at(src: &Input, p: usize) -> (r: usize)
    requires
        p <= src@.len(),
    ensures
        r == opt_delim_digit_end(src@, p as int),
        p <= r <= src@.len(),
{
    match delim_digit_at(src, p) {
        Some((e, _)) => e,
        None => p,
    }
}

fn default_literal_at(src: &Input, q: usize) -> (r: Option<(usize, Literal)>)
    requires
        q <= src@.len(),
        !(spec_default_literal(src@, q as int) is Abort),
    ensures
        agrees(r, spec_default_literal(src@, q as int)),
        r matches Some((e, _)) ==> q <= e <= src@.len(),
{
    if let Some((e, sp)) = quoted_at(src, q, '\'') {
        return Some((e, Literal::String(src.string(sp.start, sp.end))));
    }
    if let Some((e, sp)) = quoted_at(src, q, '"') {
        return Some((e, Literal::String(src.string(sp.start, sp.end))));
    }
    let d1 = src.skip_digits(q);
    proof {
        lemma_run_end_bounds(src@, q as int, |c: char| is_digit(c));
    }
    if d1 > q && src.is_char(d1, '.') {
        let d2 = src.skip_digits(d1 + 1);
        proof {
            lemma_run_end_bounds(src@, d1 + 1, |c: char| is_digit(c));
        }
        if d2 > d1 + 1 {
            let i = src.digits_upto(q, d1, i32::MAX as u64);
            let f = src.digits_upto(d1 + 1, d2, i32::MAX as u64);
            return match (i, f) {
                (Some(i), Some(f)) => Some(
                    (d2, Literal::FixedPoint(Real { integral: i as i32, fractional: f as i32 })),
                ),
                _ => None,
            };
        }
    }
    let m = if src.is_char(q, '-') {
        q + 1
    } else {
        q
    };
    let d = src.skip_digits(m);
    proof {
        lemma_run_end_bounds(src@, m as int, |c: char| is_digit(c));
    }
    if d > m {
        return match src.digits_upto(m, d, i64::MAX as u64) {
            Some(v) => Some(
                (
                    d,
                    Literal::Integer(
                        if m > q {
                            -(v as i64)
                        } else {
                            v as i64
                        },
                    ),
                ),
            ),
            None => None,
        };
    }
    proof {
        reveal_strlit("''");
        reveal_strlit("NULL");
        reveal_strlit("FALSE");
        reveal_strlit("TRUE");
        reveal_strlit("CURRENT_TIMESTAMP");
    }
    if src.tag(q, "''") {
        Some((q + 2, Literal::String(String::new())))
    } else if src.tag_nc(q, "NULL") {
        Some((q + 4, Literal::Null))
    } else if src.tag_nc(q, "FALSE") {
        Some((q + 5, Literal::Bool(false)))
    } else if src.tag_nc(q, "TRUE") {
        Some((q + 4, Literal::Bool(true)))
    } else if src.tag_nc(q, "CURRENT_TIMESTAMP") {
        Some((opt_delim_digit_end_at(src, q + 17), Literal::CurrentTimestamp))
    } else {
        None
    }
}

fn default_constraint_at(src: &Input, p: usize) -> (r: Option<(usize, Literal)>)
    requires
        p <= src@.len(),
        !(spec_default_constraint(src@, p as int) is Abort),
    ensures
        agrees(r, spec_default_constraint(src@, p as int)),
        r matches Some((e, _)) ==> p < e <= src@.len(),
{
    let a = src.skip_ws(p);
    if !src.tag_nc(a, "DEFAULT") {
        return None;
    }
    let c = src.skip_ws(a + "DEFAULT".unicode_len());
    if c == a + "DEFAULT".unicode_len() {
        return None;
    }
    match default_literal_at(src, c) {
        Some((e, l)) => Some((src.skip_ws(e), l)),
        None => None,
    }
}

fn name_maybe_quoted_at(src: &Input, p: usize) -> (r: Option<(usize, Span)>)
    requires
        p <= src@.len(),
    ensures
        agrees(r, spec_name_maybe_quoted(src@, p as int)),
        r matches Some((e, sp)) ==> p <= e <= src@.len() && sp.start <= sp.end <= src@.len(),
{
    if let Some(x) = sql_identifier_at(src, p) {
        return Some(x);
    }
    if src.is_char(p, '\'') || src.is_char(p, '"') {
        let q = src.at(p);
        if let Some((e, sp)) = sql_identifier_at(src, p + 1) {
            if src.is_char(e, q) {
                return Some((e + 1, sp));
            }
        }
    }
    None
}

fn named_setting_at(src: &Input, p: usize, kw: &str) -> (r: Option<(usize, String)>)
    requires
        p <= src@.len(),
    ensures
        match spec_named_setting(src@, p as int, kw@) {
            Parsed::Done(e, (a, b)) => r matches Some((e2, x)) && e2 == e && x@ == src@.subrange(
                a,
                b,
            ),
            _ => r is None,
        },
        r matches Some((e, _)) ==> p + kw@.len() <= e <= src@.len(),
{
    let a = src.skip_ws(p);
    if !src.tag_nc(a, kw) {
        return None;
    }
    let c = src.skip_ws(a + kw.unicode_len());
    if c == a + kw.unicode_len() {
        return None;
    }
    match name_maybe_quoted_at(src, c) {
        Some((e, sp)) => {
            proof {
                crate::base::common_parser::lemma_sql_identifier_bounds(src@, c as int);
                crate::base::common_parser::lemma_sql_identifier_bounds(src@, c + 1);
            }
            Some((e, src.string(sp.start, sp.end)))
        },
        None => None,
    }
}

fn on_update_end_at(src: &Input, p: usize) -> (r: Option<usize>)
    requires
        p <= src@.len(),
    ensures
        match on_update_end(src@, p as int) {
            Some(e) => r matches Some(e2) && e2 == e,
            None => r is None,
        },
        r matches Some(e) ==> p <= e <= src@.len(),
{
    if !src.tag_nc(p, "ON") {
        return None;
    }
    let a = src.skip_ws(p + "ON".unicode_len());
    if a == p + "ON".unicode_len() || !src.tag_nc(a, "UPDATE") {
        return None;
    }
    let b = src.skip_ws(a + "UPDATE".unicode_len());
    if b == a + "UPDATE".unicode_len() || !src.tag_nc(b, "CURRENT_TIMESTAMP") {
        return None;
    }
    Some(opt_delim_digit_end_at(src, b + "CURRENT_TIMESTAMP".unicode_len()))
}

pub fn column_constraint_at(src: &Input, p: usize) -> (r: Option<(usize, ColumnConstraint)>)
    requires
        p <= src@.len(),
        !(spec_column_constraint(src@, p as int) is Abort),
    ensures
        agrees(r, spec_column_constraint(src@, p as int)),
        r matches Some((e, _)) ==> p < e <= src@.len(),
{
    proof {
        reveal_strlit("NOT NULL");
        reveal_strlit("NULL");
        reveal_strlit("AUTO_INCREMENT");
        reveal_strlit("PRIMARY KEY");
        reveal_strlit("UNIQUE");
        reveal_strlit("CHARACTER SET");
        reveal_strlit("COLLATE");
    }
    if let Some(e) = ws_keyword_ws_at(src, p, "NOT NULL") {
        return Some((e, ColumnConstraint::NotNull));
    }
    if let Some(e) = ws_keyword_ws_at(src, p, "NULL") {
        return Some((e, ColumnConstraint::Null));
    }
    if let Some(e) = ws_keyword_ws_at(src, p, "AUTO_INCREMENT") {
        return Some((e, ColumnConstraint::AutoIncrement));
    }
    if let Some((e, l)) = default_constraint_at(src, p) {
        return Some((e, ColumnConstraint::DefaultValue(l)));
    }
    if let Some(e) = ws_keyword_ws_at(src, p, "PRIMARY KEY") {
        return Some((e, ColumnConstraint::PrimaryKey));
    }
    if let Some(e) = ws_keyword_ws_at(src, p, "UNIQUE") {
        return Some((e, ColumnConstraint::Unique));
    }
    if let Some((e, x)) = named_setting_at(src, p, "CHARACTER SET") {
        return Some((e, ColumnConstraint::CharacterSet(x)));
    }
    if let Some((e, x)) = named_setting_at(src, p, "COLLATE") {
        return Some((e, ColumnConstraint::Collation(x)));
    }
    if let Some(e) = on_update_end_at(src, p) {
        return Some((e, ColumnConstraint::OnUpdate(Literal::CurrentTimestamp)));
    }
    None
}

fn column_constraints_at(src: &Input, p: usize) -> (r: Option<(usize, Vec<ColumnConstraint>)>)
    requires
        p <= src@.len(),
        !(spec_column_constraints(src@, p as int) is Abort),
    ensures
        agrees(r, spec_column_constraints(src@, p as int)),
        r matches Some((e, _)) ==> p <= e <= src@.len(),
{
    let mut acc: Vec<ColumnConstraint> = Vec::new();
    let mut k = p;
    loop
        invariant
            p <= k <= src@.len(),
            spec_column_constraints(src@, p as int) == prepend(
                acc.deep_view(),
                spec_column_constraints(src@, k as int),
            ),
            !(spec_column_constraints(src@, p as int) is Abort),
        decreases src@.len() - k,
    {
        match column_constraint_at(src, k) {
            Some((e, x)) => {
                if e == k {
                    return None;
                }
                let ghost old_acc = acc.deep_view();
                acc.push(x);
                assert(acc.deep_view() =~= old_acc + seq![x.deep_view()]);
                proof {
                    match spec_column_constraints(src@, e as int) {
                        Parsed::Done(h, ys) => assert(old_acc + (seq![x.deep_view()] + ys)
                            =~= acc.deep_view() + ys),
                        _ => {},
                    }
                }
                k = e;
            },
            None => {
                assert(acc.deep_view() + Seq::<ColumnConstraintView>::empty() =~= acc.deep_view());
                return Some((k, acc));
            },
        }
    }
}

pub fn column_position_at(src: &Input, p: usize) -> (r: Option<(usize, ColumnPosition)>)
    requires
        p <= src@.len(),
    ensures
        agrees(r, spec_column_position(src@, p as int)),
        r matches Some((e, _)) ==> p <= e <= src@.len(),
{
    let a = src.skip_ws(p);
    if src.tag_nc(a, "FIRST") {
        return Some((src.skip_ws(a + "FIRST".unicode_len()), ColumnPosition::First));
    }
    if !src.tag_nc(a, "AFTER") {
        return None;
    }
    let c = src.skip_ws(a + "AFTER".unicode_len());
    if c == a + "AFTER".unicode_len() {
        return None;
    }
    match sql_identifier_at(src, c) {
        Some((e, sp)) => {
            let name = src.slice(sp.start, sp.end);
            Some((e, ColumnPosition::After(Column::from_name(name))))
        },
        None => None,
    }
}

/// Everything of a column definition but the check that it has a type.
fn column_definition_at(src: &Input, p: usize) -> (r: Option<
    (usize, (Column, Option<DataType>, Vec<ColumnConstraint>, Option<String>, Option<ColumnPosition>)),
>)
    requires
        p <= src@.len(),
        !(spec_column_definition(src@, p as int) is Abort),
    ensures
        match spec_column_definition(src@, p as int) {
            Parsed::Done(q, d) => r matches Some((q2, (c, t, cs, cm, pos))) && q2 == q
                && c.deep_view() == d.column && t.deep_view() == d.sql_type && cs.deep_view()
                == d.constraints && cm.deep_view() == d.comment && (match pos {
                Some(x) => Some(x.deep_view()),
                None => None,
            }) == d.position,
            _ => r is None,
        },
        r matches Some((e, _)) ==> p <= e <= src@.len(),
{
    let (e, col) = match column_without_alias_at(src, p) {
        Some(x) => x,
        None => return None,
    };
    let a = src.skip_ws(e);
    let mut f = e;
    let mut t: Option<DataType> = None;
    if a > e {
        if let Some((f2, t2)) = type_identifier_at(src, a) {
            f = src.skip_ws(f2);
            t = Some(t2);
        }
    }
    let (g, cs) = match column_constraints_at(src, f) {
        Some(x) => x,
        None => return None,
    };
    let (h, comment) = match parse_comment_at(src, g) {
        Some((h, sp)) => (h, Some(src.string(sp.start, sp.end))),
        None => (g, None),
    };
    let (k, position) = match column_position_at(src, h) {
        Some((k, pos)) => (k, Some(pos)),
        None => (h, None),
    };
    Some((opt_comma_end_at(src, k), (col, t, cs, comment, position)))
}

impl ColumnConstraint {
    /// One column constraint.
    pub fn parse(i: &str) -> (r: Result<(&str, Option<ColumnConstraint>), ParseSQLError>)
        requires
            !(spec_column_constraint(i@, 0) is Abort),
        ensures
            match spec_column_constraint(i@, 0) {
                Parsed::Done(q, c) => r matches Ok((rest, Some(x))) && 0 < q <= i@.len()
                    && rest@ == i@.subrange(q, i@.len() as int) && x.deep_view() == c,
                _ => r matches Err(e) && is_grammar_error(i@, e),
            },
            r matches Ok((rest, c)) ==> c is Some && rest@.len() < i@.len() && rest@ == i@.subrange(
                i@.len() - rest@.len(),
                i@.len() as int,
            ),
    {
        let src = Input::new(i);
        match column_constraint_at(&src, 0) {
            Some((q, v)) => Ok((src.rest(q), Some(v))),
            None => Err(ParseSQLError::grammar(i)),
        }
    }

    /// The SQL text of the constraint.
    pub fn to_string(&self) -> (r: String)
        ensures
            r@ == column_constraint_text(self.deep_view()),
    {
        match self {
            ColumnConstraint::NotNull => "NOT NULL".to_owned(),
            ColumnConstraint::Null => "NULL".to_owned(),
            ColumnConstraint::CharacterSet(x) => {
                let mut out = "CHARACTER SET ".to_owned();
                out.append(x.as_str());
                out
            },
            ColumnConstraint::Collation(x) => {
                let mut out = "COLLATE ".to_owned();
                out.append(x.as_str());
                out
            },
            ColumnConstraint::DefaultValue(l) => {
                let mut out = "DEFAULT ".to_owned();
                l.push_text(&mut out);
                out
            },
            ColumnConstraint::AutoIncrement => "AUTO_INCREMENT".to_owned(),
            ColumnConstraint::PrimaryKey => "PRIMARY KEY".to_owned(),
            ColumnConstraint::Unique => "UNIQUE".to_owned(),
            ColumnConstraint::OnUpdate(_) => "ON UPDATE CURRENT_TIMESTAMP".to_owned(),
        }
    }
}

impl ColumnPosition {
    /// `FIRST` or `AFTER column`.
    pub fn parse(i: &str) -> (r: Result<(&str, ColumnPosition), ParseSQLError>)
        ensures
            str_agrees(i@, r, spec_column_position(i@, 0)),
    {
        let src = Input::new(i);
        match column_position_at(&src, 0) {
            Some((q, v)) => Ok((src.rest(q), v)),
            None => Err(ParseSQLError::grammar(i)),
        }
    }

    /// `FIRST` or `AFTER [table.]name`.
    pub fn to_string(&self) -> (r: String)
        ensures
            r@ == column_position_text(self.deep_view()),
    {
        match self {
            ColumnPosition::First => "FIRST".to_owned(),
            ColumnPosition::After(c) => {
                let mut out = "AFTER ".to_owned();
                match &c.table {
                    Some(t) => {
                        out.append(t.as_str());
                        out.append(".");
                    },
                    None => {},
                }
                out.append(c.name.as_str());
                assert(out@ =~= column_position_text(self.deep_view()));
                out
            },
        }
    }
}

/// The error of a column definition without a data type.
pub open spec fn is_missing_type_error(i: Seq<char>, e: ParseSQLError) -> bool {
    &&& e.errors@.len() == 1
    &&& e.errors@[0].0@ == i
    &&& e.errors@[0].1 matches ParseSQLErrorKind::Context(m) && m@ == "data type is empty"@
}

impl ColumnSpecification {
    /// `column type constraints [comment] [position] [,]`. A definition
    /// without a type is refused with the error "data type is empty".
    pub fn parse(i: &str) -> (r: Result<(&str, ColumnSpecification), ParseSQLError>)
        requires
            !(spec_column_definition(i@, 0) is Abort),
        ensures
            match spec_column_definition(i@, 0) {
                Parsed::Done(q, d) => match d.sql_type {
                    Some(t) => r matches Ok((rest, c)) && 0 <= q <= i@.len()
                        && rest@ == i@.subrange(q, i@.len() as int)
                        && c.deep_view() == (ColumnSpecificationView {
                        column: d.column,
                        sql_type: t,
                        constraints: d.constraints,
                        comment: d.comment,
                        position: d.position,
                    }),
                    None => r matches Err(e) && is_missing_type_error(i@, e),
                },
                _ => r matches Err(e) && is_grammar_error(i@, e),
            },
    {
        let src = Input::new(i);
        match column_definition_at(&src, 0) {
            Some((q, (column, t, constraints, comment, position))) => match t {
                Some(sql_type) => Ok(
                    (
                        src.rest(q),
                        ColumnSpecification { column, sql_type, constraints, comment, position },
                    ),
                ),
                None => {
                    let mut errors = Vec::new();
                    errors.push(
                        (i.to_owned(), ParseSQLErrorKind::Context("data type is empty".to_owned())),
                    );
                    Err(ParseSQLError { errors })
                },
            },
            None => Err(ParseSQLError::grammar(i)),
        }
    }

    /// A column definition without constraints, comment or position.
    pub fn new(column: Column, sql_type: DataType) -> (r: ColumnSpecification)
        ensures
            r.column == column,
            r.sql_type == sql_type,
            r.constraints@.len() == 0,
            r.comment is None,
            r.position is None,
    {
        ColumnSpecification {
            column,
            sql_type,
            constraints: Vec::new(),
            comment: None,
            position: None,
        }
    }

    /// A column definition with constraints and without comment or position.
    pub fn with_constraints(
        column: Column,
        sql_type: DataType,
        constraints: Vec<ColumnConstraint>,
    ) -> (r: ColumnSpecification)
        ensures
            r.column == column,
            r.sql_type == sql_type,
            r.constraints == constraints,
            r.comment is None,
            r.position is None,
    {
        ColumnSpecification { column, sql_type, constraints, comment: None, position: None }
    }

    /// `name type constraints[ COMMENT 'comment']`.
    pub fn to_string(&self) -> (r: String)
        ensures
            r@ == column_specification_text(self.deep_view()),
    {
        let mut out = DisplayUtil::escape_if_keyword(self.column.name.as_str());
        out.append(" ");
        out.append(self.sql_type.to_string().as_str());
        let ghost head = out@;
        let n = self.constraints.len();
        let mut k: usize = 0;
        let ghost cs = self.constraints.deep_view();
        assert(cs.subrange(0, 0) =~= Seq::<ColumnConstraintView>::empty());
        while k < n
            invariant
                k <= n,
                n == self.constraints@.len(),
                cs == self.constraints.deep_view(),
                out@ == head + constraints_text(cs.subrange(0, k as int)),
            decreases n - k,
        {
            out.append(" ");
            out.append(self.constraints[k].to_string().as_str());
            proof {
                assert(cs.subrange(0, k + 1).drop_last() =~= cs.subrange(0, k as int));
            }
            assert(out@ =~= head + constraints_text(cs.subrange(0, k + 1)));
            k = k + 1;
        }
        assert(cs.subrange(0, n as int) =~= cs);
        match &self.comment {
            Some(c) => {
                out.append(" COMMENT '");
                out.append(c.as_str());
                out.append("'");
            },
            None => {},
        }
        assert(out@ =~= column_specification_text(self.deep_view()));
        out
    }
}


/// `DEFAULT` followed by `TRUE` or `FALSE`, in any case, is the default value
/// given by that keyword: `TRUE` gives true and `FALSE` gives false.
pub proof fn lemma_default_boolean_reads(w: Seq<char>)
    ensures
        spelled(w, "TRUE"@) ==> spec_column_constraint("DEFAULT"@ + seq![' '] + w, 0)
            == Parsed::Done(
            ("DEFAULT"@ + seq![' '] + w).len() as int,
            ColumnConstraintView::DefaultValue(LiteralView::Bool(true)),
        ),
        spelled(w, "FALSE"@) ==> spec_column_constraint("DEFAULT"@ + seq![' '] + w, 0)
            == Parsed::Done(
            ("DEFAULT"@ + seq![' '] + w).len() as int,
            ColumnConstraintView::DefaultValue(LiteralView::Bool(false)),
        ),
{
    reveal_strlit("NOT NULL");
    reveal_strlit("NULL");
    reveal_strlit("AUTO_INCREMENT");
    reveal_strlit("DEFAULT");
    reveal_strlit("TRUE");
    reveal_strlit("FALSE");
    reveal_strlit("''");
    let s = "DEFAULT"@ + seq![' '] + w;
    if spelled(w, "TRUE"@) || spelled(w, "FALSE"@) {
        assert(s.subrange(0, 7) =~= "DEFAULT"@);
        lemma_tag_nc_of_eq(s, 0, "DEFAULT"@);
        assert(s[7] == ' ');
        assert(s[8] == w[0]);
        assert(s.subrange(8, s.len() as int) =~= w);
        reveal_with_fuel(run_end, 2);
        lemma_tag_nc_mismatch(s, 0, "NOT NULL"@, 0);
        lemma_tag_nc_mismatch(s, 0, "NULL"@, 0);
        lemma_tag_nc_mismatch(s, 0, "AUTO_INCREMENT"@, 0);
        if spelled(w, "TRUE"@) {
            assert(eq_no_case(w[0], "TRUE"@[0]));
            lemma_tag_nc_mismatch(s, 8, "NULL"@, 0);
            lemma_tag_nc_mismatch(s, 8, "FALSE"@, 0);
            lemma_spelled_tag(s, 8, w, "TRUE"@);
            assert(!is_digit(s[8]));
        } else {
            assert(eq_no_case(w[0], "FALSE"@[0]));
            lemma_tag_nc_mismatch(s, 8, "NULL"@, 0);
            lemma_spelled_tag(s, 8, w, "FALSE"@);
            assert(!is_digit(s[8]));
        }
        lemma_tag_nc_mismatch(s, 8, "''"@, 0);
        assert(spec_quoted(s, 8, '\'') is NoMatch);
        assert(spec_quoted(s, 8, '"') is NoMatch);
        assert(digits_end(s, 8) == 8);
    }
}



/// A keyword constraint written in any case (`NOT NULL`, `NULL`,
/// `AUTO_INCREMENT`, `PRIMARY KEY`, `UNIQUE`) is read as the constraint it
/// names.
pub proof fn lemma_keyword_constraint_words(w: Seq<char>)
    ensures
        spelled(w, "NOT NULL"@) ==> spec_column_constraint(w, 0) == Parsed::Done(
            w.len() as int,
            ColumnConstraintView::NotNull,
        ),
        spelled(w, "NULL"@) ==> spec_column_constraint(w, 0) == Parsed::Done(
            w.len() as int,
            ColumnConstraintView::Null,
        ),
        spelled(w, "AUTO_INCREMENT"@) ==> spec_column_constraint(w, 0) == Parsed::Done(
            w.len() as int,
            ColumnConstraintView::AutoIncrement,
        ),
        spelled(w, "PRIMARY KEY"@) ==> spec_column_constraint(w, 0) == Parsed::Done(
            w.len() as int,
            ColumnConstraintView::PrimaryKey,
        ),
        spelled(w, "UNIQUE"@) ==> spec_column_constraint(w, 0) == Parsed::Done(
            w.len() as int,
            ColumnConstraintView::Unique,
        ),
{
    reveal_strlit("NOT NULL");
    reveal_strlit("NULL");
    reveal_strlit("AUTO_INCREMENT");
    reveal_strlit("DEFAULT");
    reveal_strlit("PRIMARY KEY");
    reveal_strlit("UNIQUE");
    let l = w.len() as int;
    assert(w.subrange(0, l) =~= w);
    assert(ws_end(w, l) == l);
    if spelled(w, "NOT NULL"@) {
        assert(eq_no_case(w[0], "NOT NULL"@[0]));
        lemma_spelled_tag(w, 0, w, "NOT NULL"@);
    }
    if spelled(w, "NULL"@) {
        assert(eq_no_case(w[0], "NULL"@[0]) && eq_no_case(w[1], "NULL"@[1]));
        lemma_tag_nc_mismatch(w, 0, "NOT NULL"@, 1);
        lemma_spelled_tag(w, 0, w, "NULL"@);
    }
    if spelled(w, "AUTO_INCREMENT"@) {
        assert(eq_no_case(w[0], "AUTO_INCREMENT"@[0]));
        lemma_tag_nc_mismatch(w, 0, "NOT NULL"@, 0);
        lemma_tag_nc_mismatch(w, 0, "NULL"@, 0);
        lemma_spelled_tag(w, 0, w, "AUTO_INCREMENT"@);
    }
    if spelled(w, "PRIMARY KEY"@) {
        assert(eq_no_case(w[0], "PRIMARY KEY"@[0]));
        lemma_tag_nc_mismatch(w, 0, "NOT NULL"@, 0);
        lemma_tag_nc_mismatch(w, 0, "NULL"@, 0);
        lemma_tag_nc_mismatch(w, 0, "AUTO_INCREMENT"@, 0);
        lemma_tag_nc_mismatch(w, 0, "DEFAULT"@, 0);
        lemma_spelled_tag(w, 0, w, "PRIMARY KEY"@);
    }
    if spelled(w, "UNIQUE"@) {
        assert(eq_no_case(w[0], "UNIQUE"@[0]));
        lemma_tag_nc_mismatch(w, 0, "NOT NULL"@, 0);
        lemma_tag_nc_mismatch(w, 0, "NULL"@, 0);
        lemma_tag_nc_mismatch(w, 0, "AUTO_INCREMENT"@, 0);
        lemma_tag_nc_mismatch(w, 0, "DEFAULT"@, 0);
        lemma_tag_nc_mismatch(w, 0, "PRIMARY KEY"@, 0);
        lemma_spelled_tag(w, 0, w, "UNIQUE"@);
    }
}


/// `DEFAULT` followed by an integer `[-]D` is the default value of its digits
/// `D`, negated when the minus sign is there.
pub proof fn lemma_default_integer_reads(d: Seq<char>)
    requires
        d.len() > 0,
        all_digits(d),
        digits_value(d) <= i64::MAX,
    ensures
        spec_column_constraint("DEFAULT"@ + seq![' ', '-'] + d, 0) matches Parsed::Done(
            e,
            ColumnConstraintView::DefaultValue(LiteralView::Integer(v)),
        ) && e == d.len() + 9 && v == -(digits_value(d) as int),
        spec_column_constraint("DEFAULT"@ + seq![' '] + d, 0) matches Parsed::Done(
            e,
            ColumnConstraintView::DefaultValue(LiteralView::Integer(v)),
        ) && e == d.len() + 8 && v == digits_value(d) as int,
{
    reveal_strlit("NOT NULL");
    reveal_strlit("NULL");
    reveal_strlit("AUTO_INCREMENT");
    reveal_strlit("DEFAULT");
    let n = "DEFAULT"@ + seq![' ', '-'] + d;
    let t = "DEFAULT"@ + seq![' '] + d;
    assert(n.subrange(0, 7) =~= "DEFAULT"@);
    assert(t.subrange(0, 7) =~= "DEFAULT"@);
    lemma_tag_nc_of_eq(n, 0, "DEFAULT"@);
    lemma_tag_nc_of_eq(t, 0, "DEFAULT"@);
    assert(n[7] == ' ' && n[8] == '-' && t[7] == ' ' && t[8] == d[0]);
    assert(is_digit(d[0]));
    reveal_with_fuel(run_end, 2);
    lemma_tag_nc_mismatch(n, 0, "NOT NULL"@, 0);
    lemma_tag_nc_mismatch(n, 0, "NULL"@, 0);
    lemma_tag_nc_mismatch(n, 0, "AUTO_INCREMENT"@, 0);
    lemma_tag_nc_mismatch(t, 0, "NOT NULL"@, 0);
    lemma_tag_nc_mismatch(t, 0, "NULL"@, 0);
    lemma_tag_nc_mismatch(t, 0, "AUTO_INCREMENT"@, 0);
    assert forall|j: int| 9 <= j < n.len() implies is_digit(#[trigger] n[j]) by {
        assert(n[j] == d[j - 9]);
    }
    assert forall|j: int| 8 <= j < t.len() implies is_digit(#[trigger] t[j]) by {
        assert(t[j] == d[j - 8]);
    }
    lemma_run_end_stops(n, 9, n.len() as int, |c: char| is_digit(c));
    lemma_run_end_stops(t, 8, t.len() as int, |c: char| is_digit(c));
    assert(n.subrange(9, n.len() as int) =~= d);
    assert(t.subrange(8, t.len() as int) =~= d);
    assert(digits_end(n, 8) == 8);
    assert(digits_end(t, t.len() + 1int) == t.len() + 1);
    assert(spec_quoted(n, 8, '\'') is NoMatch);
    assert(spec_quoted(n, 8, '"') is NoMatch);
    assert(spec_quoted(t, 8, '\'') is NoMatch);
    assert(spec_quoted(t, 8, '"') is NoMatch);
    assert(ws_end(n, n.len() as int) == n.len());
    assert(ws_end(t, t.len() as int) == t.len());
}

} // verus!
