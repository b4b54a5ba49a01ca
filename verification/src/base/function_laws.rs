//! What an aggregate call is read as: the function its name denotes, applied
//! to the column in its brackets.
use vstd::prelude::*;

use crate::base::case::spec_case_when;
use crate::base::column::{
    spec_column_without_alias, spec_delim_fx_args, spec_function_argument,
    spec_function_arguments, spec_function_expression, spec_named_fx_args, ColumnView,
    FunctionArgumentView, FunctionExpressionView,
};
use crate::base::common_parser::ident_char;
use crate::base::input::{
    eq_no_case, has_tag_nc, is_alpha, is_space, lemma_spelled_tag, lemma_tag_nc_mismatch, run_end,
    spelled, ws_end, Parsed,
};
use crate::base::table_option_laws::{lemma_index_col_at, lemma_word_fits, plain_name};

verus! {

/// The call `w(n)`: a function name, a column name in brackets.
pub open spec fn call_text(w: Seq<char>, n: Seq<char>) -> Seq<char> {
    w + seq!['('] + n + seq![')']
}

/// The argument that names the column `n`, with no table and no alias.
pub open spec fn column_argument(n: Seq<char>) -> FunctionArgumentView {
    FunctionArgumentView::Column(ColumnView { name: n, alias: None, table: None, function: None })
}

/// A word of letters that occurs at `q`, where a plain name `n` ending at `e`
/// is followed by `)`, is not followed by white space.
proof fn lemma_word_not_before_blank(s: Seq<char>, q: int, e: int, w: Seq<char>)
    requires
        0 <= q <= e < s.len(),
        forall|j: int| q <= j < e ==> ident_char(#[trigger] s[j]),
        s[e] == ')',
        forall|k: int| 0 <= k < w.len() ==> is_alpha(#[trigger] w[k]) || w[k] == '_',
    ensures
        has_tag_nc(s, q, w) ==> ws_end(s, q + w.len()) == q + w.len(),
{
    lemma_word_fits(s, q, e, w);
    if has_tag_nc(s, q, w) {
        let x = q + w.len();
        if x < e {
            assert(ident_char(s[x]));
        }
        assert(!is_space(s[x]));
    }
}

/// `(n)` with a plain column name `n` is one argument, that column, without
/// `DISTINCT`.
#[verifier::rlimit(100)]
proof fn lemma_single_column_args(s: Seq<char>, p: int, n: Seq<char>)
    requires
        plain_name(n),
        0 <= p,
        p + n.len() + 1 < s.len(),
        s[p] == '(',
        s.subrange(p + 1, p + 1 + n.len()) == n,
        s[p + 1 + n.len()] == ')',
    ensures
        spec_delim_fx_args(s, p) == Parsed::Done(p + n.len() + 2, (column_argument(n), false)),
{
    let q = p + 1;
    let e = q + n.len();
    lemma_index_col_at(s, q, n);
    assert forall|j: int| q <= j < e implies ident_char(#[trigger] s[j]) by {
        assert(s.subrange(q, e)[j - q] == s[j]);
        assert(ident_char(n[j - q]));
    }
    reveal_strlit("CASE");
    reveal_strlit("distinct");
    lemma_word_not_before_blank(s, q, e, "CASE"@);
    lemma_word_not_before_blank(s, q, e, "distinct"@);
    reveal(spec_case_when);
    reveal(spec_function_argument);
    reveal(spec_function_arguments);
    reveal(spec_delim_fx_args);
    assert(spec_case_when(s, q) is NoMatch);
    assert(spec_function_argument(s, q) == Parsed::Done(e, column_argument(n)));
    assert(spec_function_arguments(s, q) == Parsed::Done(e, (column_argument(n), false)));
}

/// An aggregate call `COUNT(n)`, `SUM(n)`, `AVG(n)`, `MAX(n)` or `MIN(n)`,
/// its name in any case and `n` a plain column name, is read as the
/// aggregate that its name denotes, applied to the column `n`, without
/// `DISTINCT`; the whole call is read.
#[verifier::rlimit(100)]
pub proof fn lemma_aggregate_call_reads(w: Seq<char>, n: Seq<char>)
    requires
        plain_name(n),
    ensures
        spelled(w, "COUNT"@) ==> spec_function_expression(call_text(w, n), 0) == Parsed::Done(
            call_text(w, n).len() as int,
            FunctionExpressionView::Count(column_argument(n), false),
        ),
        spelled(w, "SUM"@) ==> spec_function_expression(call_text(w, n), 0) == Parsed::Done(
            call_text(w, n).len() as int,
            FunctionExpressionView::Sum(column_argument(n), false),
        ),
        spelled(w, "AVG"@) ==> spec_function_expression(call_text(w, n), 0) == Parsed::Done(
            call_text(w, n).len() as int,
            FunctionExpressionView::Avg(column_argument(n), false),
        ),
        spelled(w, "MAX"@) ==> spec_function_expression(call_text(w, n), 0) == Parsed::Done(
            call_text(w, n).len() as int,
            FunctionExpressionView::Max(column_argument(n)),
        ),
        spelled(w, "MIN"@) ==> spec_function_expression(call_text(w, n), 0) == Parsed::Done(
            call_text(w, n).len() as int,
            FunctionExpressionView::Min(column_argument(n)),
        ),
{
    reveal_strlit("COUNT(*)");
    reveal_strlit("COUNT");
    reveal_strlit("SUM");
    reveal_strlit("AVG");
    reveal_strlit("MAX");
    reveal_strlit("MIN");
    let s = call_text(w, n);
    let l = w.len() as int;
    reveal(spec_function_expression);
    reveal(spec_named_fx_args);
    reveal(spec_delim_fx_args);
    if spelled(w, "COUNT"@) || spelled(w, "SUM"@) || spelled(w, "AVG"@) || spelled(w, "MAX"@)
        || spelled(w, "MIN"@) {
        assert(s.subrange(0, l) =~= w);
        assert(s[l] == '(');
        assert(s.subrange(l + 1, l + 1 + n.len()) =~= n);
        assert(s[l + 1 + n.len()] == ')');
        assert(s.len() == l + n.len() + 2);
        lemma_single_column_args(s, l, n);
        assert(s[0] == w[0]);
        if spelled(w, "SUM"@) {
            assert(eq_no_case(w[0], "SUM"@[0]));
        }
        if spelled(w, "AVG"@) {
            assert(eq_no_case(w[0], "AVG"@[0]));
        }
        if spelled(w, "MAX"@) {
            assert(eq_no_case(w[0], "MAX"@[0]) && eq_no_case(w[1], "MAX"@[1]));
        }
        if spelled(w, "MIN"@) {
            assert(eq_no_case(w[0], "MIN"@[0]) && eq_no_case(w[1], "MIN"@[1]));
        }
        if spelled(w, "COUNT"@) {
            assert(s[6] == n[0]);
            assert(is_alpha(n[0]));
            lemma_tag_nc_mismatch(s, 0, "COUNT(*)"@, 6);
            lemma_spelled_tag(s, 0, w, "COUNT"@);
        } else {
            if spelled(w, "SUM"@) {
                assert(eq_no_case(w[0], "SUM"@[0]));
            } else if spelled(w, "AVG"@) {
                assert(eq_no_case(w[0], "AVG"@[0]));
            } else if spelled(w, "MAX"@) {
                assert(eq_no_case(w[0], "MAX"@[0]));
            } else {
                assert(eq_no_case(w[0], "MIN"@[0]));
                assert(eq_no_case(w[1], "MIN"@[1]));
                assert(s[1] == w[1]);
            }
            lemma_tag_nc_mismatch(s, 0, "COUNT(*)"@, 0);
            lemma_tag_nc_mismatch(s, 0, "COUNT"@, 0);
            if spelled(w, "SUM"@) {
                lemma_spelled_tag(s, 0, w, "SUM"@);
            } else {
                lemma_tag_nc_mismatch(s, 0, "SUM"@, 0);
                if spelled(w, "AVG"@) {
                    lemma_spelled_tag(s, 0, w, "AVG"@);
                } else {
                    lemma_tag_nc_mismatch(s, 0, "AVG"@, 0);
                    if spelled(w, "MAX"@) {
                        lemma_spelled_tag(s, 0, w, "MAX"@);
                    } else {
                        lemma_tag_nc_mismatch(s, 0, "MAX"@, 1);
                        lemma_spelled_tag(s, 0, w, "MIN"@);
                    }
                }
            }
        }
    }
}


} // verus!
