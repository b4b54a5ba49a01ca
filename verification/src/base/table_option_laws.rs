//! The text of a table option reads back as that option.
use vstd::prelude::*;

use crate::base::common_parser::{
    alpha_end, ident_char, ident_end, keyword, keyword_at, keyword_search, spec_quoted,
    spec_quoted_string, spec_sql_identifier, spec_sql_keyword, spec_unsigned_number, until_char,
    KEYWORD_COUNT,
};
use crate::base::compression_type::lemma_compression_type_round_trip;
use crate::base::display_util::nat_text;
use crate::base::index_option::opt_equals;
use crate::base::input::{
    digits_end, eq_no_case, has_tag_nc, is_alpha, is_digit, is_space, lemma_run_end_bounds,
    lemma_run_end_stops, lemma_tag_nc_mismatch, lemma_tag_nc_of_eq, run_end, ws_end, Parsed,
};
use crate::base::insert_method_type::lemma_insert_method_type_round_trip;
use crate::base::literal::lemma_nat_text_digits;
use crate::base::row_format_type::lemma_row_format_type_round_trip;
use crate::base::table_option::{
    spec_default_character_set, spec_default_charset, spec_default_collate, spec_directory,
    spec_encryption, spec_key_default_zero_one, spec_key_identifier, spec_key_number,
    spec_key_quoted, spec_key_zero_one, spec_table_option, spec_table_option_part_1,
    spec_table_option_part_1b, spec_table_option_part_2, spec_table_option_part_2b,
    spec_tablespace, spec_union, names_text, table_option_text, value_start, TableOptionView,
};
use crate::base::column::{
    spec_column_without_alias, spec_delim_fx_args, spec_function_expression,
    spec_group_concat_or_generic, spec_index_col_list, spec_index_col_name, spec_named_fx_args,
    ColumnView,
};
use crate::base::data_type::spec_len;
use crate::base::literal::opt_comma_end;
use crate::base::order::OrderType;
use crate::base::table::spec_schema_prefix;
use crate::base::compression_type::{spec_compression_type, CompressionType};
use crate::base::insert_method_type::{spec_insert_method_type, InsertMethodType};
use crate::base::row_format_type::{spec_row_format_type, RowFormatType};
use crate::base::default_or_zero_or_one::{default_or_zero_or_one_text, DefaultOrZeroOrOne};
use crate::base::tablespace_type::{tablespace_type_text, TablespaceType};

verus! {

/// A name that reads back as an identifier: it starts with a letter, is made
/// of identifier characters and does not start with a keyword.
pub open spec fn plain_name(n: Seq<char>) -> bool {
    &&& n.len() > 0
    &&& is_alpha(n[0])
    &&& forall|j: int| 0 <= j < n.len() ==> ident_char(#[trigger] n[j])
    &&& !(spec_sql_keyword(n, 0) is Some)
}

/// A text that holds no single quote.
pub open spec fn quote_free(t: Seq<char>) -> bool {
    forall|j: int| 0 <= j < t.len() ==> #[trigger] t[j] != '\''
}

/// The options that `lemma_table_option_round_trip` covers: every option
/// but `START TRANSACTION` (which no option rule reads), with names that read
/// back as identifiers, quoted texts free of quotes, and `0` or `1` where the
/// rule reads one digit.
pub open spec fn option_reads_back(o: TableOptionView) -> bool {
    match o {
        TableOptionView::DefaultCharacterSet(v) => plain_name(v),
        TableOptionView::DefaultCharset(v) => plain_name(v),
        TableOptionView::Checksum(v) => v <= 1,
        TableOptionView::DefaultCollate(v) => plain_name(v),
        TableOptionView::Comment(v) => quote_free(v),
        TableOptionView::Connection(v) => quote_free(v),
        TableOptionView::DataDirectory(v) => quote_free(v),
        TableOptionView::IndexDirectory(v) => quote_free(v),
        TableOptionView::DelayKeyWrite(v) => v <= 1,
        TableOptionView::Engine(v) => plain_name(v),
        TableOptionView::EngineAttribute(v) => quote_free(v),
        TableOptionView::Password(v) => quote_free(v),
        TableOptionView::SecondaryEngineAttribute(v) => quote_free(v),
        TableOptionView::Tablespace(n, _) => plain_name(n),
        TableOptionView::StartTransaction => false,
        TableOptionView::Union(ns) => forall|i: int| 0 <= i < ns.len() ==> plain_name(#[trigger] ns[i]),
        _ => true,
    }
}

/// Keyword search at `q` of `s` sees what it sees at the start of the rest.
proof fn lemma_keyword_shift(s: Seq<char>, q: int, u: Seq<char>, i: int)
    requires
        0 <= q <= s.len(),
        s.subrange(q, s.len() as int) == u,
        0 <= i,
    ensures
        (keyword_search(s, q, i) is None) == (keyword_search(u, 0, i) is None),
    decreases KEYWORD_COUNT - i,
{
    if i < KEYWORD_COUNT {
        lemma_keyword_shift(s, q, u, i + 1);
        let k = crate::base::common_parser::keyword(i);
        assert forall|j: int| 0 <= j < u.len() implies #[trigger] s[q + j] == u[j] by {
            assert(s.subrange(q, s.len() as int)[j] == s[q + j]);
        }
        if has_tag_nc(u, 0, k) {
            assert forall|j: int| 0 <= j < k.len() implies #[trigger] eq_no_case(s[q + j], k[j]) by {
                assert(s[q + j] == u[0 + j]);
            }
        }
        if has_tag_nc(s, q, k) {
            assert forall|j: int| 0 <= j < k.len() implies #[trigger] eq_no_case(u[0 + j], k[j]) by {
                assert(s[q + j] == u[j]);
            }
        }
        assert(keyword_at(s, q, i) == keyword_at(u, 0, i));
    }
}

/// `key`, a blank and a value that starts with neither a blank nor `=`,
/// after `pre`: the value starts after the blank.
pub proof fn lemma_value_start(s: Seq<char>, pre: Seq<char>, key: Seq<char>, rest: Seq<char>)
    requires
        s == pre + key + seq![' '] + rest,
        rest.len() > 0,
        !is_space(rest[0]),
        rest[0] != '=',
    ensures
        value_start(s, pre.len() as int, key) == Some(pre.len() + key.len() + 1 as int),
{
    let a = pre.len() as int;
    assert(s.subrange(a, a + key.len()) =~= key);
    lemma_tag_nc_of_eq(s, a, key);
    assert(s[a + key.len()] == ' ');
    assert(s[a + key.len() + 1] == rest[0]);
    reveal_with_fuel(run_end, 2);
}

/// Digits of `v` that end the text read back as `v`.
pub proof fn lemma_number_to_end(pre: Seq<char>, v: u64)
    ensures
        spec_unsigned_number(pre + nat_text(v as nat), pre.len() as int) == Parsed::Done(
            (pre + nat_text(v as nat)).len() as int,
            v,
        ),
        !is_space(nat_text(v as nat)[0]) && nat_text(v as nat)[0] != '=',
        nat_text(v as nat).len() > 0,
{
    let s = pre + nat_text(v as nat);
    let a = pre.len() as int;
    lemma_nat_text_digits(v as nat);
    assert forall|j: int| a <= j < s.len() implies is_digit(#[trigger] s[j]) by {
        assert(s[j] == nat_text(v as nat)[j - a]);
    }
    lemma_run_end_stops(s, a, s.len() as int, |c: char| is_digit(c));
    assert(s.subrange(a, s.len() as int) =~= nat_text(v as nat));
    assert(is_digit(nat_text(v as nat)[0]));
}

/// The run of characters other than `c` that stops at `e` ends at `e`.
proof fn lemma_until_stops(s: Seq<char>, p: int, e: int, c: char)
    requires
        0 <= p <= e < s.len(),
        forall|j: int| p <= j < e ==> #[trigger] s[j] != c,
        s[e] == c,
    ensures
        until_char(s, p, c) == e,
    decreases e - p,
{
    if p < e {
        lemma_until_stops(s, p + 1, e, c);
    }
}

/// A quoted text free of quotes that ends the text reads back as that text.
pub proof fn lemma_quoted_to_end(pre: Seq<char>, t: Seq<char>)
    requires
        quote_free(t),
    ensures
        spec_quoted(pre + seq!['\''] + t + seq!['\''], pre.len() as int, '\'') == Parsed::Done(
            pre.len() + t.len() + 2 as int,
            (pre.len() + 1 as int, pre.len() + 1 + t.len() as int),
        ),
        spec_quoted_string(pre + seq!['\''] + t + seq!['\''], pre.len() as int) == Parsed::Done(
            pre.len() + t.len() + 2 as int,
            (pre.len() + 1 as int, pre.len() + 1 + t.len() as int),
        ),
        (pre + seq!['\''] + t + seq!['\'']).subrange(
            pre.len() + 1 as int,
            pre.len() + 1 + t.len() as int,
        ) == t,
        (pre + seq!['\''] + t + seq!['\'']).len() == pre.len() + t.len() + 2,
{
    let s = pre + seq!['\''] + t + seq!['\''];
    let a = pre.len() as int;
    assert(s[a] == '\'');
    assert forall|j: int| a + 1 <= j < a + 1 + t.len() implies #[trigger] s[j] != '\'' by {
        assert(s[j] == t[j - a - 1]);
    }
    assert(s[a + 1 + t.len()] == '\'');
    lemma_until_stops(s, a + 1, a + 1 + t.len(), '\'');
    assert(s.subrange(a + 1, a + 1 + t.len()) =~= t);
}

/// A plain name that ends the text reads back as an identifier.
pub proof fn lemma_identifier_to_end(pre: Seq<char>, n: Seq<char>)
    requires
        plain_name(n),
    ensures
        spec_sql_identifier(pre + n, pre.len() as int) == Parsed::Done(
            (pre + n).len() as int,
            (pre.len() as int, (pre + n).len() as int),
        ),
        (pre + n).subrange(pre.len() as int, (pre + n).len() as int) == n,
        !is_space(n[0]) && n[0] != '=' && n[0] != '\'',
{
    let s = pre + n;
    let a = pre.len() as int;
    assert(s.subrange(a, s.len() as int) =~= n);
    lemma_keyword_shift(s, a, n, 0);
    assert forall|j: int| a <= j < s.len() implies ident_char(#[trigger] s[j]) by {
        assert(s[j] == n[j - a]);
    }
    assert(s[a] == n[0]);
    lemma_run_end_bounds(s, a, |c: char| is_alpha(c));
    let k = alpha_end(s, a);
    lemma_run_end_stops(s, k, s.len() as int, |c: char| ident_char(c));
}

/// `CHARACTER SET name` reads back as the character set option.
proof fn lemma_character_set_text(n: Seq<char>)
    requires
        plain_name(n),
    ensures
        spec_default_character_set("CHARACTER"@ + seq![' '] + "SET"@ + seq![' '] + n, 0)
            == Parsed::Done(n.len() + 14 as int, (14 as int, n.len() + 14 as int)),
        ("CHARACTER"@ + seq![' '] + "SET"@ + seq![' '] + n).subrange(14, n.len() + 14 as int)
            == n,
{
    reveal_strlit("CHARACTER");
    reveal_strlit("SET");
    reveal_strlit("DEFAULT ");
    let s = "CHARACTER"@ + seq![' '] + "SET"@ + seq![' '] + n;
    lemma_identifier_to_end("CHARACTER"@ + seq![' '] + "SET"@ + seq![' '], n);
    lemma_value_start(s, "CHARACTER"@ + seq![' '], "SET"@, n);
    assert(s.subrange(0, 9) =~= "CHARACTER"@);
    lemma_tag_nc_of_eq(s, 0, "CHARACTER"@);
    lemma_tag_nc_mismatch(s, 0, "DEFAULT "@, 0);
    assert(s[9] == ' ' && s[10] == 'S');
    reveal_with_fuel(run_end, 2);
}

#[verifier::spinoff_prover]
#[verifier::rlimit(100)]
proof fn lemma_option_text_autoextend_size(v: u64)
    ensures
        spec_table_option(table_option_text(TableOptionView::AutoextendSize(v)), 0) == Parsed::Done(
            table_option_text(TableOptionView::AutoextendSize(v)).len() as int,
            TableOptionView::AutoextendSize(v),
        ),
{
    let o = TableOptionView::AutoextendSize(v);
    let s = table_option_text(o);
    reveal_strlit("AUTOEXTEND_SIZE");
    reveal_strlit("AUTO_INCREMENT");
    reveal_strlit("AVG_ROW_LENGTH");
    reveal_strlit("DEFAULT ");
    reveal_strlit("CHARACTER");
    reveal_strlit("DEFAULT");
    reveal_strlit("CHARSET");
    reveal_strlit("CHECKSUM");
    reveal_strlit("DEFAULT ");
    reveal_strlit("COLLATE");
    reveal_strlit("COMMENT");
    reveal_strlit("COMPRESSION");
    reveal_strlit("CONNECTION");
    reveal_strlit("DATA");
    reveal_strlit("INDEX");
    reveal_strlit("DELAY_KEY_WRITE");
    reveal_strlit("ENCRYPTION");
    reveal_strlit("ENGINE_ATTRIBUTE");
    reveal_strlit("ENGINE");
    reveal_strlit("INSERT_METHOD");
    reveal_strlit("KEY_BLOCK_SIZE");
    reveal_strlit("MAX_ROWS");
    reveal_strlit("MIN_ROWS");
    reveal_strlit("PACK_KEYS");
    reveal_strlit("PASSWORD");
    reveal_strlit("ROW_FORMAT");
    reveal_strlit("SECONDARY_ENGINE_ATTRIBUTE");
    reveal_strlit("STATS_AUTO_RECALC");
    reveal_strlit("STATS_PERSISTENT");
    reveal_strlit("STATS_SAMPLE_PAGES");
    reveal_strlit("TABLESPACE");
    assert(s =~= "AUTOEXTEND_SIZE"@ + seq![' '] + nat_text(v as nat)) by { reveal_strlit("AUTOEXTEND_SIZE "); }
    lemma_number_to_end("AUTOEXTEND_SIZE"@ + seq![' '], v);
    lemma_value_start(s, Seq::empty(), "AUTOEXTEND_SIZE"@, nat_text(v as nat));
    assert(Seq::<char>::empty() + "AUTOEXTEND_SIZE"@ + seq![' '] + nat_text(v as nat) =~= s);
    reveal_with_fuel(run_end, 2);
    assert(!(spec_key_number(s, 0, "AUTOEXTEND_SIZE"@) is NoMatch));
    assert(spec_table_option_part_1(s, 0) == Parsed::Done(s.len() as int, o));
}

#[verifier::spinoff_prover]
#[verifier::rlimit(100)]
proof fn lemma_option_text_auto_increment(v: u64)
    ensures
        spec_table_option(table_option_text(TableOptionView::AutoIncrement(v)), 0) == Parsed::Done(
            table_option_text(TableOptionView::AutoIncrement(v)).len() as int,
            TableOptionView::AutoIncrement(v),
        ),
{
    let o = TableOptionView::AutoIncrement(v);
    let s = table_option_text(o);
    reveal_strlit("AUTOEXTEND_SIZE");
    reveal_strlit("AUTO_INCREMENT");
    reveal_strlit("AVG_ROW_LENGTH");
    reveal_strlit("DEFAULT ");
    reveal_strlit("CHARACTER");
    reveal_strlit("DEFAULT");
    reveal_strlit("CHARSET");
    reveal_strlit("CHECKSUM");
    reveal_strlit("DEFAULT ");
    reveal_strlit("COLLATE");
    reveal_strlit("COMMENT");
    reveal_strlit("COMPRESSION");
    reveal_strlit("CONNECTION");
    reveal_strlit("DATA");
    reveal_strlit("INDEX");
    reveal_strlit("DELAY_KEY_WRITE");
    reveal_strlit("ENCRYPTION");
    reveal_strlit("ENGINE_ATTRIBUTE");
    reveal_strlit("ENGINE");
    reveal_strlit("INSERT_METHOD");
    reveal_strlit("KEY_BLOCK_SIZE");
    reveal_strlit("MAX_ROWS");
    reveal_strlit("MIN_ROWS");
    reveal_strlit("PACK_KEYS");
    reveal_strlit("PASSWORD");
    reveal_strlit("ROW_FORMAT");
    reveal_strlit("SECONDARY_ENGINE_ATTRIBUTE");
    reveal_strlit("STATS_AUTO_RECALC");
    reveal_strlit("STATS_PERSISTENT");
    reveal_strlit("STATS_SAMPLE_PAGES");
    reveal_strlit("TABLESPACE");
    assert(s =~= "AUTO_INCREMENT"@ + seq![' '] + nat_text(v as nat)) by { reveal_strlit("AUTO_INCREMENT "); }
    lemma_number_to_end("AUTO_INCREMENT"@ + seq![' '], v);
    lemma_value_start(s, Seq::empty(), "AUTO_INCREMENT"@, nat_text(v as nat));
    assert(Seq::<char>::empty() + "AUTO_INCREMENT"@ + seq![' '] + nat_text(v as nat) =~= s);
    reveal_with_fuel(run_end, 2);
    lemma_tag_nc_mismatch(s, 0, "AUTOEXTEND_SIZE"@, 4);
    assert(spec_key_number(s, 0, "AUTOEXTEND_SIZE"@) is NoMatch);
    assert(!(spec_key_number(s, 0, "AUTO_INCREMENT"@) is NoMatch));
    assert(spec_table_option_part_1(s, 0) == Parsed::Done(s.len() as int, o));
}

#[verifier::spinoff_prover]
#[verifier::rlimit(100)]
proof fn lemma_option_text_avg_row_length(v: u64)
    ensures
        spec_table_option(table_option_text(TableOptionView::AvgRowLength(v)), 0) == Parsed::Done(
            table_option_text(TableOptionView::AvgRowLength(v)).len() as int,
            TableOptionView::AvgRowLength(v),
        ),
{
    let o = TableOptionView::AvgRowLength(v);
    let s = table_option_text(o);
    reveal_strlit("AUTOEXTEND_SIZE");
    reveal_strlit("AUTO_INCREMENT");
    reveal_strlit("AVG_ROW_LENGTH");
    reveal_strlit("DEFAULT ");
    reveal_strlit("CHARACTER");
    reveal_strlit("DEFAULT");
    reveal_strlit("CHARSET");
    reveal_strlit("CHECKSUM");
    reveal_strlit("DEFAULT ");
    reveal_strlit("COLLATE");
    reveal_strlit("COMMENT");
    reveal_strlit("COMPRESSION");
    reveal_strlit("CONNECTION");
    reveal_strlit("DATA");
    reveal_strlit("INDEX");
    reveal_strlit("DELAY_KEY_WRITE");
    reveal_strlit("ENCRYPTION");
    reveal_strlit("ENGINE_ATTRIBUTE");
    reveal_strlit("ENGINE");
    reveal_strlit("INSERT_METHOD");
    reveal_strlit("KEY_BLOCK_SIZE");
    reveal_strlit("MAX_ROWS");
    reveal_strlit("MIN_ROWS");
    reveal_strlit("PACK_KEYS");
    reveal_strlit("PASSWORD");
    reveal_strlit("ROW_FORMAT");
    reveal_strlit("SECONDARY_ENGINE_ATTRIBUTE");
    reveal_strlit("STATS_AUTO_RECALC");
    reveal_strlit("STATS_PERSISTENT");
    reveal_strlit("STATS_SAMPLE_PAGES");
    reveal_strlit("TABLESPACE");
    assert(s =~= "AVG_ROW_LENGTH"@ + seq![' '] + nat_text(v as nat)) by { reveal_strlit("AVG_ROW_LENGTH "); }
    lemma_number_to_end("AVG_ROW_LENGTH"@ + seq![' '], v);
    lemma_value_start(s, Seq::empty(), "AVG_ROW_LENGTH"@, nat_text(v as nat));
    assert(Seq::<char>::empty() + "AVG_ROW_LENGTH"@ + seq![' '] + nat_text(v as nat) =~= s);
    reveal_with_fuel(run_end, 2);
    lemma_tag_nc_mismatch(s, 0, "AUTOEXTEND_SIZE"@, 1);
    assert(spec_key_number(s, 0, "AUTOEXTEND_SIZE"@) is NoMatch);
    lemma_tag_nc_mismatch(s, 0, "AUTO_INCREMENT"@, 1);
    assert(spec_key_number(s, 0, "AUTO_INCREMENT"@) is NoMatch);
    assert(!(spec_key_number(s, 0, "AVG_ROW_LENGTH"@) is NoMatch));
    assert(spec_table_option_part_1(s, 0) == Parsed::Done(s.len() as int, o));
}

#[verifier::spinoff_prover]
#[verifier::rlimit(100)]
proof fn lemma_option_text_default_character_set(v: Seq<char>)
    requires
        plain_name(v),
    ensures
        spec_table_option(table_option_text(TableOptionView::DefaultCharacterSet(v)), 0) == Parsed::Done(
            table_option_text(TableOptionView::DefaultCharacterSet(v)).len() as int,
            TableOptionView::DefaultCharacterSet(v),
        ),
{
    let o = TableOptionView::DefaultCharacterSet(v);
    let s = table_option_text(o);
    reveal_strlit("AUTOEXTEND_SIZE");
    reveal_strlit("AUTO_INCREMENT");
    reveal_strlit("AVG_ROW_LENGTH");
    reveal_strlit("DEFAULT ");
    reveal_strlit("CHARACTER");
    reveal_strlit("DEFAULT");
    reveal_strlit("CHARSET");
    reveal_strlit("CHECKSUM");
    reveal_strlit("DEFAULT ");
    reveal_strlit("COLLATE");
    reveal_strlit("COMMENT");
    reveal_strlit("COMPRESSION");
    reveal_strlit("CONNECTION");
    reveal_strlit("DATA");
    reveal_strlit("INDEX");
    reveal_strlit("DELAY_KEY_WRITE");
    reveal_strlit("ENCRYPTION");
    reveal_strlit("ENGINE_ATTRIBUTE");
    reveal_strlit("ENGINE");
    reveal_strlit("INSERT_METHOD");
    reveal_strlit("KEY_BLOCK_SIZE");
    reveal_strlit("MAX_ROWS");
    reveal_strlit("MIN_ROWS");
    reveal_strlit("PACK_KEYS");
    reveal_strlit("PASSWORD");
    reveal_strlit("ROW_FORMAT");
    reveal_strlit("SECONDARY_ENGINE_ATTRIBUTE");
    reveal_strlit("STATS_AUTO_RECALC");
    reveal_strlit("STATS_PERSISTENT");
    reveal_strlit("STATS_SAMPLE_PAGES");
    reveal_strlit("TABLESPACE");
    assert(s =~= "CHARACTER"@ + seq![' '] + "SET"@ + seq![' '] + v) by { reveal_strlit("CHARACTER SET "); reveal_strlit("CHARACTER"); reveal_strlit("SET"); }
    lemma_character_set_text(v);
    reveal_with_fuel(run_end, 2);
    lemma_tag_nc_mismatch(s, 0, "AUTOEXTEND_SIZE"@, 0);
    assert(spec_key_number(s, 0, "AUTOEXTEND_SIZE"@) is NoMatch);
    lemma_tag_nc_mismatch(s, 0, "AUTO_INCREMENT"@, 0);
    assert(spec_key_number(s, 0, "AUTO_INCREMENT"@) is NoMatch);
    lemma_tag_nc_mismatch(s, 0, "AVG_ROW_LENGTH"@, 0);
    assert(spec_key_number(s, 0, "AVG_ROW_LENGTH"@) is NoMatch);
    lemma_tag_nc_mismatch(s, 0, "DEFAULT "@, 0);
    assert(!(spec_default_character_set(s, 0) is NoMatch));
    assert(spec_table_option_part_1(s, 0) == Parsed::Done(s.len() as int, o));
}

#[verifier::spinoff_prover]
#[verifier::rlimit(100)]
proof fn lemma_option_text_default_charset(v: Seq<char>)
    requires
        plain_name(v),
    ensures
        spec_table_option(table_option_text(TableOptionView::DefaultCharset(v)), 0) == Parsed::Done(
            table_option_text(TableOptionView::DefaultCharset(v)).len() as int,
            TableOptionView::DefaultCharset(v),
        ),
{
    let o = TableOptionView::DefaultCharset(v);
    let s = table_option_text(o);
    reveal_strlit("AUTOEXTEND_SIZE");
    reveal_strlit("AUTO_INCREMENT");
    reveal_strlit("AVG_ROW_LENGTH");
    reveal_strlit("DEFAULT ");
    reveal_strlit("CHARACTER");
    reveal_strlit("DEFAULT");
    reveal_strlit("CHARSET");
    reveal_strlit("CHECKSUM");
    reveal_strlit("DEFAULT ");
    reveal_strlit("COLLATE");
    reveal_strlit("COMMENT");
    reveal_strlit("COMPRESSION");
    reveal_strlit("CONNECTION");
    reveal_strlit("DATA");
    reveal_strlit("INDEX");
    reveal_strlit("DELAY_KEY_WRITE");
    reveal_strlit("ENCRYPTION");
    reveal_strlit("ENGINE_ATTRIBUTE");
    reveal_strlit("ENGINE");
    reveal_strlit("INSERT_METHOD");
    reveal_strlit("KEY_BLOCK_SIZE");
    reveal_strlit("MAX_ROWS");
    reveal_strlit("MIN_ROWS");
    reveal_strlit("PACK_KEYS");
    reveal_strlit("PASSWORD");
    reveal_strlit("ROW_FORMAT");
    reveal_strlit("SECONDARY_ENGINE_ATTRIBUTE");
    reveal_strlit("STATS_AUTO_RECALC");
    reveal_strlit("STATS_PERSISTENT");
    reveal_strlit("STATS_SAMPLE_PAGES");
    reveal_strlit("TABLESPACE");
    assert(s =~= "CHARSET"@ + seq![' '] + v) by { reveal_strlit("CHARSET "); }
    lemma_identifier_to_end("CHARSET"@ + seq![' '], v);
    assert(Seq::<char>::empty() + "CHARSET"@ + seq![' '] + v =~= s);
    lemma_value_start(s, Seq::empty(), "CHARSET"@, v);
    reveal_with_fuel(run_end, 2);
    lemma_tag_nc_mismatch(s, 0, "AUTOEXTEND_SIZE"@, 0);
    assert(spec_key_number(s, 0, "AUTOEXTEND_SIZE"@) is NoMatch);
    lemma_tag_nc_mismatch(s, 0, "AUTO_INCREMENT"@, 0);
    assert(spec_key_number(s, 0, "AUTO_INCREMENT"@) is NoMatch);
    lemma_tag_nc_mismatch(s, 0, "AVG_ROW_LENGTH"@, 0);
    assert(spec_key_number(s, 0, "AVG_ROW_LENGTH"@) is NoMatch);
    lemma_tag_nc_mismatch(s, 0, "DEFAULT "@, 0);
    lemma_tag_nc_mismatch(s, 0, "CHARACTER"@, 4);
    assert(spec_default_character_set(s, 0) is NoMatch);
    lemma_tag_nc_mismatch(s, 0, "DEFAULT"@, 0);
    assert(!(spec_default_charset(s, 0) is NoMatch));
    assert(spec_table_option_part_1(s, 0) == Parsed::Done(s.len() as int, o));
}

#[verifier::spinoff_prover]
#[verifier::rlimit(100)]
proof fn lemma_option_text_checksum(v: u8)
    requires
        v <= 1,
    ensures
        spec_table_option(table_option_text(TableOptionView::Checksum(v)), 0) == Parsed::Done(
            table_option_text(TableOptionView::Checksum(v)).len() as int,
            TableOptionView::Checksum(v),
        ),
{
    let o = TableOptionView::Checksum(v);
    let s = table_option_text(o);
    reveal_strlit("AUTOEXTEND_SIZE");
    reveal_strlit("AUTO_INCREMENT");
    reveal_strlit("AVG_ROW_LENGTH");
    reveal_strlit("DEFAULT ");
    reveal_strlit("CHARACTER");
    reveal_strlit("DEFAULT");
    reveal_strlit("CHARSET");
    reveal_strlit("CHECKSUM");
    reveal_strlit("DEFAULT ");
    reveal_strlit("COLLATE");
    reveal_strlit("COMMENT");
    reveal_strlit("COMPRESSION");
    reveal_strlit("CONNECTION");
    reveal_strlit("DATA");
    reveal_strlit("INDEX");
    reveal_strlit("DELAY_KEY_WRITE");
    reveal_strlit("ENCRYPTION");
    reveal_strlit("ENGINE_ATTRIBUTE");
    reveal_strlit("ENGINE");
    reveal_strlit("INSERT_METHOD");
    reveal_strlit("KEY_BLOCK_SIZE");
    reveal_strlit("MAX_ROWS");
    reveal_strlit("MIN_ROWS");
    reveal_strlit("PACK_KEYS");
    reveal_strlit("PASSWORD");
    reveal_strlit("ROW_FORMAT");
    reveal_strlit("SECONDARY_ENGINE_ATTRIBUTE");
    reveal_strlit("STATS_AUTO_RECALC");
    reveal_strlit("STATS_PERSISTENT");
    reveal_strlit("STATS_SAMPLE_PAGES");
    reveal_strlit("TABLESPACE");
    assert(s =~= "CHECKSUM"@ + seq![' '] + nat_text(v as nat)) by { reveal_strlit("CHECKSUM "); }
    lemma_number_to_end("CHECKSUM"@ + seq![' '], v as u64);
    assert(Seq::<char>::empty() + "CHECKSUM"@ + seq![' '] + nat_text(v as nat) =~= s);
    lemma_value_start(s, Seq::empty(), "CHECKSUM"@, nat_text(v as nat));
    assert(nat_text(v as nat) == seq![if v == 0 { '0' } else { '1' }]);
    reveal_with_fuel(run_end, 2);
    lemma_tag_nc_mismatch(s, 0, "AUTOEXTEND_SIZE"@, 0);
    assert(spec_key_number(s, 0, "AUTOEXTEND_SIZE"@) is NoMatch);
    lemma_tag_nc_mismatch(s, 0, "AUTO_INCREMENT"@, 0);
    assert(spec_key_number(s, 0, "AUTO_INCREMENT"@) is NoMatch);
    lemma_tag_nc_mismatch(s, 0, "AVG_ROW_LENGTH"@, 0);
    assert(spec_key_number(s, 0, "AVG_ROW_LENGTH"@) is NoMatch);
    lemma_tag_nc_mismatch(s, 0, "DEFAULT "@, 0);
    lemma_tag_nc_mismatch(s, 0, "CHARACTER"@, 2);
    assert(spec_default_character_set(s, 0) is NoMatch);
    lemma_tag_nc_mismatch(s, 0, "DEFAULT"@, 0);
    lemma_tag_nc_mismatch(s, 0, "CHARSET"@, 2);
    assert(spec_default_charset(s, 0) is NoMatch);
    assert(!(spec_key_zero_one(s, 0, "CHECKSUM"@) is NoMatch));
    assert(spec_table_option_part_1(s, 0) == Parsed::Done(s.len() as int, o));
}

#[verifier::spinoff_prover]
#[verifier::rlimit(100)]
proof fn lemma_option_text_default_collate(v: Seq<char>)
    requires
        plain_name(v),
    ensures
        spec_table_option(table_option_text(TableOptionView::DefaultCollate(v)), 0) == Parsed::Done(
            table_option_text(TableOptionView::DefaultCollate(v)).len() as int,
            TableOptionView::DefaultCollate(v),
        ),
{
    let o = TableOptionView::DefaultCollate(v);
    let s = table_option_text(o);
    reveal_strlit("AUTOEXTEND_SIZE");
    reveal_strlit("AUTO_INCREMENT");
    reveal_strlit("AVG_ROW_LENGTH");
    reveal_strlit("DEFAULT ");
    reveal_strlit("CHARACTER");
    reveal_strlit("DEFAULT");
    reveal_strlit("CHARSET");
    reveal_strlit("CHECKSUM");
    reveal_strlit("DEFAULT ");
    reveal_strlit("COLLATE");
    reveal_strlit("COMMENT");
    reveal_strlit("COMPRESSION");
    reveal_strlit("CONNECTION");
    reveal_strlit("DATA");
    reveal_strlit("INDEX");
    reveal_strlit("DELAY_KEY_WRITE");
    reveal_strlit("ENCRYPTION");
    reveal_strlit("ENGINE_ATTRIBUTE");
    reveal_strlit("ENGINE");
    reveal_strlit("INSERT_METHOD");
    reveal_strlit("KEY_BLOCK_SIZE");
    reveal_strlit("MAX_ROWS");
    reveal_strlit("MIN_ROWS");
    reveal_strlit("PACK_KEYS");
    reveal_strlit("PASSWORD");
    reveal_strlit("ROW_FORMAT");
    reveal_strlit("SECONDARY_ENGINE_ATTRIBUTE");
    reveal_strlit("STATS_AUTO_RECALC");
    reveal_strlit("STATS_PERSISTENT");
    reveal_strlit("STATS_SAMPLE_PAGES");
    reveal_strlit("TABLESPACE");
    assert(s =~= "COLLATE"@ + seq![' '] + v) by { reveal_strlit("COLLATE "); }
    lemma_identifier_to_end("COLLATE"@ + seq![' '], v);
    assert(s.subrange(0, 7) =~= "COLLATE"@);
    lemma_tag_nc_of_eq(s, 0, "COLLATE"@);
    assert(s[7] == ' ' && s[8] == v[0]);
    reveal_with_fuel(run_end, 2);
    lemma_tag_nc_mismatch(s, 0, "AUTOEXTEND_SIZE"@, 0);
    assert(spec_key_number(s, 0, "AUTOEXTEND_SIZE"@) is NoMatch);
    lemma_tag_nc_mismatch(s, 0, "AUTO_INCREMENT"@, 0);
    assert(spec_key_number(s, 0, "AUTO_INCREMENT"@) is NoMatch);
    lemma_tag_nc_mismatch(s, 0, "AVG_ROW_LENGTH"@, 0);
    assert(spec_key_number(s, 0, "AVG_ROW_LENGTH"@) is NoMatch);
    lemma_tag_nc_mismatch(s, 0, "DEFAULT "@, 0);
    lemma_tag_nc_mismatch(s, 0, "CHARACTER"@, 1);
    assert(spec_default_character_set(s, 0) is NoMatch);
    lemma_tag_nc_mismatch(s, 0, "DEFAULT"@, 0);
    lemma_tag_nc_mismatch(s, 0, "CHARSET"@, 1);
    assert(spec_default_charset(s, 0) is NoMatch);
    lemma_tag_nc_mismatch(s, 0, "CHECKSUM"@, 1);
    assert(spec_key_zero_one(s, 0, "CHECKSUM"@) is NoMatch);
    lemma_tag_nc_mismatch(s, 0, "DEFAULT "@, 0);
    assert(!(spec_default_collate(s, 0) is NoMatch));
    assert(spec_table_option_part_1(s, 0) == Parsed::Done(s.len() as int, o));
}

#[verifier::spinoff_prover]
#[verifier::rlimit(100)]
proof fn lemma_option_text_comment(v: Seq<char>)
    requires
        quote_free(v),
    ensures
        spec_table_option(table_option_text(TableOptionView::Comment(v)), 0) == Parsed::Done(
            table_option_text(TableOptionView::Comment(v)).len() as int,
            TableOptionView::Comment(v),
        ),
{
    let o = TableOptionView::Comment(v);
    let s = table_option_text(o);
    reveal_strlit("AUTOEXTEND_SIZE");
    reveal_strlit("AUTO_INCREMENT");
    reveal_strlit("AVG_ROW_LENGTH");
    reveal_strlit("DEFAULT ");
    reveal_strlit("CHARACTER");
    reveal_strlit("DEFAULT");
    reveal_strlit("CHARSET");
    reveal_strlit("CHECKSUM");
    reveal_strlit("DEFAULT ");
    reveal_strlit("COLLATE");
    reveal_strlit("COMMENT");
    reveal_strlit("COMPRESSION");
    reveal_strlit("CONNECTION");
    reveal_strlit("DATA");
    reveal_strlit("INDEX");
    reveal_strlit("DELAY_KEY_WRITE");
    reveal_strlit("ENCRYPTION");
    reveal_strlit("ENGINE_ATTRIBUTE");
    reveal_strlit("ENGINE");
    reveal_strlit("INSERT_METHOD");
    reveal_strlit("KEY_BLOCK_SIZE");
    reveal_strlit("MAX_ROWS");
    reveal_strlit("MIN_ROWS");
    reveal_strlit("PACK_KEYS");
    reveal_strlit("PASSWORD");
    reveal_strlit("ROW_FORMAT");
    reveal_strlit("SECONDARY_ENGINE_ATTRIBUTE");
    reveal_strlit("STATS_AUTO_RECALC");
    reveal_strlit("STATS_PERSISTENT");
    reveal_strlit("STATS_SAMPLE_PAGES");
    reveal_strlit("TABLESPACE");
    assert(s =~= "COMMENT"@ + seq![' '] + seq!['\''] + v + seq!['\'']) by { reveal_strlit("COMMENT '"); reveal_strlit("'"); }
    lemma_quoted_to_end("COMMENT"@ + seq![' '], v);
    assert(Seq::<char>::empty() + "COMMENT"@ + seq![' '] + (seq!['\''] + v + seq!['\'']) =~= s);
    lemma_value_start(s, Seq::empty(), "COMMENT"@, seq!['\''] + v + seq!['\'']);
    reveal_with_fuel(run_end, 2);
    lemma_tag_nc_mismatch(s, 0, "AUTOEXTEND_SIZE"@, 0);
    assert(spec_key_number(s, 0, "AUTOEXTEND_SIZE"@) is NoMatch);
    lemma_tag_nc_mismatch(s, 0, "AUTO_INCREMENT"@, 0);
    assert(spec_key_number(s, 0, "AUTO_INCREMENT"@) is NoMatch);
    lemma_tag_nc_mismatch(s, 0, "AVG_ROW_LENGTH"@, 0);
    assert(spec_key_number(s, 0, "AVG_ROW_LENGTH"@) is NoMatch);
    lemma_tag_nc_mismatch(s, 0, "DEFAULT "@, 0);
    lemma_tag_nc_mismatch(s, 0, "CHARACTER"@, 1);
    assert(spec_default_character_set(s, 0) is NoMatch);
    lemma_tag_nc_mismatch(s, 0, "DEFAULT"@, 0);
    lemma_tag_nc_mismatch(s, 0, "CHARSET"@, 1);
    assert(spec_default_charset(s, 0) is NoMatch);
    lemma_tag_nc_mismatch(s, 0, "CHECKSUM"@, 1);
    assert(spec_key_zero_one(s, 0, "CHECKSUM"@) is NoMatch);
    lemma_tag_nc_mismatch(s, 0, "DEFAULT "@, 0);
    lemma_tag_nc_mismatch(s, 0, "COLLATE"@, 2);
    assert(spec_default_collate(s, 0) is NoMatch);
    assert(!(spec_key_quoted(s, 0, "COMMENT"@) is NoMatch));
    assert(spec_table_option_part_1b(s, 0) == Parsed::Done(s.len() as int, o));
    assert(spec_table_option_part_1(s, 0) == Parsed::Done(s.len() as int, o));
}

#[verifier::spinoff_prover]
#[verifier::rlimit(100)]
proof fn lemma_option_text_compression(v: CompressionType)
    ensures
        spec_table_option(table_option_text(TableOptionView::Compression(v)), 0) == Parsed::Done(
            table_option_text(TableOptionView::Compression(v)).len() as int,
            TableOptionView::Compression(v),
        ),
{
    let o = TableOptionView::Compression(v);
    let s = table_option_text(o);
    reveal_strlit("AUTOEXTEND_SIZE");
    reveal_strlit("AUTO_INCREMENT");
    reveal_strlit("AVG_ROW_LENGTH");
    reveal_strlit("DEFAULT ");
    reveal_strlit("CHARACTER");
    reveal_strlit("DEFAULT");
    reveal_strlit("CHARSET");
    reveal_strlit("CHECKSUM");
    reveal_strlit("DEFAULT ");
    reveal_strlit("COLLATE");
    reveal_strlit("COMMENT");
    reveal_strlit("COMPRESSION");
    reveal_strlit("CONNECTION");
    reveal_strlit("DATA");
    reveal_strlit("INDEX");
    reveal_strlit("DELAY_KEY_WRITE");
    reveal_strlit("ENCRYPTION");
    reveal_strlit("ENGINE_ATTRIBUTE");
    reveal_strlit("ENGINE");
    reveal_strlit("INSERT_METHOD");
    reveal_strlit("KEY_BLOCK_SIZE");
    reveal_strlit("MAX_ROWS");
    reveal_strlit("MIN_ROWS");
    reveal_strlit("PACK_KEYS");
    reveal_strlit("PASSWORD");
    reveal_strlit("ROW_FORMAT");
    reveal_strlit("SECONDARY_ENGINE_ATTRIBUTE");
    reveal_strlit("STATS_AUTO_RECALC");
    reveal_strlit("STATS_PERSISTENT");
    reveal_strlit("STATS_SAMPLE_PAGES");
    reveal_strlit("TABLESPACE");
    lemma_compression_type_round_trip(v);
    assert(s.subrange(0, 13) =~= seq!['C', 'O', 'M', 'P', 'R', 'E', 'S', 'S', 'I', 'O', 'N', ' ', '\'']) by { reveal_strlit("COMPRESSION 'ZLIB'"); reveal_strlit("COMPRESSION 'LZ4'"); reveal_strlit("COMPRESSION 'NONE'"); }
    assert(s.len() >= 13) by { reveal_strlit("COMPRESSION 'ZLIB'"); reveal_strlit("COMPRESSION 'LZ4'"); reveal_strlit("COMPRESSION 'NONE'"); }
    assert(s.subrange(0, 13)[0] == s[0]);
    assert(s.subrange(0, 13)[1] == s[1]);
    assert(s.subrange(0, 13)[2] == s[2]);
    assert(s.subrange(0, 13)[3] == s[3]);
    assert(s.subrange(0, 13)[4] == s[4]);
    assert(s.subrange(0, 13)[5] == s[5]);
    assert(s.subrange(0, 13)[6] == s[6]);
    assert(s.subrange(0, 13)[7] == s[7]);
    assert(s.subrange(0, 13)[8] == s[8]);
    assert(s.subrange(0, 13)[9] == s[9]);
    assert(s.subrange(0, 13)[10] == s[10]);
    assert(s.subrange(0, 13)[11] == s[11]);
    assert(s.subrange(0, 13)[12] == s[12]);
    reveal_with_fuel(run_end, 2);
    lemma_tag_nc_mismatch(s, 0, "AUTOEXTEND_SIZE"@, 0);
    assert(spec_key_number(s, 0, "AUTOEXTEND_SIZE"@) is NoMatch);
    lemma_tag_nc_mismatch(s, 0, "AUTO_INCREMENT"@, 0);
    assert(spec_key_number(s, 0, "AUTO_INCREMENT"@) is NoMatch);
    lemma_tag_nc_mismatch(s, 0, "AVG_ROW_LENGTH"@, 0);
    assert(spec_key_number(s, 0, "AVG_ROW_LENGTH"@) is NoMatch);
    lemma_tag_nc_mismatch(s, 0, "DEFAULT "@, 0);
    lemma_tag_nc_mismatch(s, 0, "CHARACTER"@, 1);
    assert(spec_default_character_set(s, 0) is NoMatch);
    lemma_tag_nc_mismatch(s, 0, "DEFAULT"@, 0);
    lemma_tag_nc_mismatch(s, 0, "CHARSET"@, 1);
    assert(spec_default_charset(s, 0) is NoMatch);
    lemma_tag_nc_mismatch(s, 0, "CHECKSUM"@, 1);
    assert(spec_key_zero_one(s, 0, "CHECKSUM"@) is NoMatch);
    lemma_tag_nc_mismatch(s, 0, "DEFAULT "@, 0);
    lemma_tag_nc_mismatch(s, 0, "COLLATE"@, 2);
    assert(spec_default_collate(s, 0) is NoMatch);
    lemma_tag_nc_mismatch(s, 0, "COMMENT"@, 3);
    assert(spec_key_quoted(s, 0, "COMMENT"@) is NoMatch);
    assert(!(spec_compression_type(s, 0) is NoMatch));
    assert(spec_table_option_part_1b(s, 0) == Parsed::Done(s.len() as int, o));
    assert(spec_table_option_part_1(s, 0) == Parsed::Done(s.len() as int, o));
}

#[verifier::spinoff_prover]
#[verifier::rlimit(100)]
proof fn lemma_option_text_connection(v: Seq<char>)
    requires
        quote_free(v),
    ensures
        spec_table_option(table_option_text(TableOptionView::Connection(v)), 0) == Parsed::Done(
            table_option_text(TableOptionView::Connection(v)).len() as int,
            TableOptionView::Connection(v),
        ),
{
    let o = TableOptionView::Connection(v);
    let s = table_option_text(o);
    reveal_strlit("AUTOEXTEND_SIZE");
    reveal_strlit("AUTO_INCREMENT");
    reveal_strlit("AVG_ROW_LENGTH");
    reveal_strlit("DEFAULT ");
    reveal_strlit("CHARACTER");
    reveal_strlit("DEFAULT");
    reveal_strlit("CHARSET");
    reveal_strlit("CHECKSUM");
    reveal_strlit("DEFAULT ");
    reveal_strlit("COLLATE");
    reveal_strlit("COMMENT");
    reveal_strlit("COMPRESSION");
    reveal_strlit("CONNECTION");
    reveal_strlit("DATA");
    reveal_strlit("INDEX");
    reveal_strlit("DELAY_KEY_WRITE");
    reveal_strlit("ENCRYPTION");
    reveal_strlit("ENGINE_ATTRIBUTE");
    reveal_strlit("ENGINE");
    reveal_strlit("INSERT_METHOD");
    reveal_strlit("KEY_BLOCK_SIZE");
    reveal_strlit("MAX_ROWS");
    reveal_strlit("MIN_ROWS");
    reveal_strlit("PACK_KEYS");
    reveal_strlit("PASSWORD");
    reveal_strlit("ROW_FORMAT");
    reveal_strlit("SECONDARY_ENGINE_ATTRIBUTE");
    reveal_strlit("STATS_AUTO_RECALC");
    reveal_strlit("STATS_PERSISTENT");
    reveal_strlit("STATS_SAMPLE_PAGES");
    reveal_strlit("TABLESPACE");
    assert(s =~= "CONNECTION"@ + seq![' '] + seq!['\''] + v + seq!['\'']) by { reveal_strlit("CONNECTION '"); reveal_strlit("'"); }
    lemma_quoted_to_end("CONNECTION"@ + seq![' '], v);
    assert(Seq::<char>::empty() + "CONNECTION"@ + seq![' '] + (seq!['\''] + v + seq!['\'']) =~= s);
    lemma_value_start(s, Seq::empty(), "CONNECTION"@, seq!['\''] + v + seq!['\'']);
    reveal_with_fuel(run_end, 2);
    lemma_tag_nc_mismatch(s, 0, "AUTOEXTEND_SIZE"@, 0);
    assert(spec_key_number(s, 0, "AUTOEXTEND_SIZE"@) is NoMatch);
    lemma_tag_nc_mismatch(s, 0, "AUTO_INCREMENT"@, 0);
    assert(spec_key_number(s, 0, "AUTO_INCREMENT"@) is NoMatch);
    lemma_tag_nc_mismatch(s, 0, "AVG_ROW_LENGTH"@, 0);
    assert(spec_key_number(s, 0, "AVG_ROW_LENGTH"@) is NoMatch);
    lemma_tag_nc_mismatch(s, 0, "DEFAULT "@, 0);
    lemma_tag_nc_mismatch(s, 0, "CHARACTER"@, 1);
    assert(spec_default_character_set(s, 0) is NoMatch);
    lemma_tag_nc_mismatch(s, 0, "DEFAULT"@, 0);
    lemma_tag_nc_mismatch(s, 0, "CHARSET"@, 1);
    assert(spec_default_charset(s, 0) is NoMatch);
    lemma_tag_nc_mismatch(s, 0, "CHECKSUM"@, 1);
    assert(spec_key_zero_one(s, 0, "CHECKSUM"@) is NoMatch);
    lemma_tag_nc_mismatch(s, 0, "DEFAULT "@, 0);
    lemma_tag_nc_mismatch(s, 0, "COLLATE"@, 2);
    assert(spec_default_collate(s, 0) is NoMatch);
    lemma_tag_nc_mismatch(s, 0, "COMMENT"@, 2);
    assert(spec_key_quoted(s, 0, "COMMENT"@) is NoMatch);
    lemma_tag_nc_mismatch(s, 0, "COMPRESSION"@, 2);
    assert(spec_compression_type(s, 0) is NoMatch);
    assert(!(spec_key_quoted(s, 0, "CONNECTION"@) is NoMatch));
    assert(spec_table_option_part_1b(s, 0) == Parsed::Done(s.len() as int, o));
    assert(spec_table_option_part_1(s, 0) == Parsed::Done(s.len() as int, o));
}

/// `word DIRECTORY 'path'`, with a path free of quotes, reads back as that path.
proof fn lemma_directory_value(word: Seq<char>, v: Seq<char>, double: bool)
    requires
        quote_free(v),
        word.len() > 0,
    ensures
        spec_directory(
            word + seq![' '] + "DIRECTORY"@ + seq![' '] + seq!['\''] + v + seq!['\''],
            0,
            word,
            double,
        ) == Parsed::Done(
            word.len() + v.len() + 13 as int,
            (word.len() + 12 as int, word.len() + 12 + v.len() as int),
        ),
        (word + seq![' '] + "DIRECTORY"@ + seq![' '] + seq!['\''] + v + seq!['\'']).subrange(
            word.len() + 12 as int,
            word.len() + 12 + v.len() as int,
        ) == v,
{
    reveal_strlit("DIRECTORY");
    let s = word + seq![' '] + "DIRECTORY"@ + seq![' '] + seq!['\''] + v + seq!['\''];
    let w = word.len() as int;
    let pre = word + seq![' '] + "DIRECTORY"@ + seq![' '];
    assert(pre + seq!['\''] + v + seq!['\''] =~= s);
    lemma_quoted_to_end(pre, v);
    assert((word + seq![' ']) + "DIRECTORY"@ + seq![' '] + (seq!['\''] + v + seq!['\'']) =~= s);
    lemma_value_start(s, word + seq![' '], "DIRECTORY"@, seq!['\''] + v + seq!['\'']);
    assert(s.subrange(0, w) =~= word);
    lemma_tag_nc_of_eq(s, 0, word);
    assert(s[w] == ' ' && s[w + 1] == 'D');
    reveal_with_fuel(run_end, 2);
}

#[verifier::spinoff_prover]
#[verifier::rlimit(100)]
proof fn lemma_option_text_data_directory(v: Seq<char>)
    requires
        quote_free(v),
    ensures
        spec_table_option(table_option_text(TableOptionView::DataDirectory(v)), 0) == Parsed::Done(
            table_option_text(TableOptionView::DataDirectory(v)).len() as int,
            TableOptionView::DataDirectory(v),
        ),
{
    let o = TableOptionView::DataDirectory(v);
    let s = table_option_text(o);
    reveal_strlit("AUTOEXTEND_SIZE");
    reveal_strlit("AUTO_INCREMENT");
    reveal_strlit("AVG_ROW_LENGTH");
    reveal_strlit("DEFAULT ");
    reveal_strlit("CHARACTER");
    reveal_strlit("DEFAULT");
    reveal_strlit("CHARSET");
    reveal_strlit("CHECKSUM");
    reveal_strlit("COLLATE");
    reveal_strlit("COMMENT");
    reveal_strlit("COMPRESSION");
    reveal_strlit("CONNECTION");
    reveal_strlit("DATA");
    reveal_strlit("INDEX");
    reveal_strlit("DIRECTORY");
    assert(s =~= "DATA"@ + seq![' '] + "DIRECTORY"@ + seq![' '] + seq!['\''] + v + seq!['\'']) by { reveal_strlit("DATA DIRECTORY '"); reveal_strlit("'"); }
    lemma_directory_value("DATA"@, v, true);
    reveal_with_fuel(run_end, 2);
    lemma_tag_nc_mismatch(s, 0, "AUTOEXTEND_SIZE"@, 0);
    assert(spec_key_number(s, 0, "AUTOEXTEND_SIZE"@) is NoMatch);
    lemma_tag_nc_mismatch(s, 0, "AUTO_INCREMENT"@, 0);
    assert(spec_key_number(s, 0, "AUTO_INCREMENT"@) is NoMatch);
    lemma_tag_nc_mismatch(s, 0, "AVG_ROW_LENGTH"@, 0);
    assert(spec_key_number(s, 0, "AVG_ROW_LENGTH"@) is NoMatch);
    lemma_tag_nc_mismatch(s, 0, "DEFAULT "@, 1);
    lemma_tag_nc_mismatch(s, 0, "CHARACTER"@, 0);
    assert(spec_default_character_set(s, 0) is NoMatch);
    lemma_tag_nc_mismatch(s, 0, "DEFAULT"@, 1);
    lemma_tag_nc_mismatch(s, 0, "CHARSET"@, 0);
    assert(spec_default_charset(s, 0) is NoMatch);
    lemma_tag_nc_mismatch(s, 0, "CHECKSUM"@, 0);
    assert(spec_key_zero_one(s, 0, "CHECKSUM"@) is NoMatch);
    lemma_tag_nc_mismatch(s, 0, "COLLATE"@, 0);
    assert(spec_default_collate(s, 0) is NoMatch);
    lemma_tag_nc_mismatch(s, 0, "COMMENT"@, 0);
    assert(spec_key_quoted(s, 0, "COMMENT"@) is NoMatch);
    lemma_tag_nc_mismatch(s, 0, "COMPRESSION"@, 0);
    assert(spec_compression_type(s, 0) is NoMatch);
    lemma_tag_nc_mismatch(s, 0, "CONNECTION"@, 0);
    assert(spec_key_quoted(s, 0, "CONNECTION"@) is NoMatch);
    assert(spec_table_option_part_1b(s, 0) == Parsed::Done(s.len() as int, o));
    assert(spec_table_option_part_1(s, 0) == Parsed::Done(s.len() as int, o));
}

#[verifier::spinoff_prover]
#[verifier::rlimit(100)]
proof fn lemma_option_text_index_directory(v: Seq<char>)
    requires
        quote_free(v),
    ensures
        spec_table_option(table_option_text(TableOptionView::IndexDirectory(v)), 0) == Parsed::Done(
            table_option_text(TableOptionView::IndexDirectory(v)).len() as int,
            TableOptionView::IndexDirectory(v),
        ),
{
    let o = TableOptionView::IndexDirectory(v);
    let s = table_option_text(o);
    reveal_strlit("AUTOEXTEND_SIZE");
    reveal_strlit("AUTO_INCREMENT");
    reveal_strlit("AVG_ROW_LENGTH");
    reveal_strlit("DEFAULT ");
    reveal_strlit("CHARACTER");
    reveal_strlit("DEFAULT");
    reveal_strlit("CHARSET");
    reveal_strlit("CHECKSUM");
    reveal_strlit("COLLATE");
    reveal_strlit("COMMENT");
    reveal_strlit("COMPRESSION");
    reveal_strlit("CONNECTION");
    reveal_strlit("DATA");
    reveal_strlit("INDEX");
    reveal_strlit("DIRECTORY");
    assert(s =~= "INDEX"@ + seq![' '] + "DIRECTORY"@ + seq![' '] + seq!['\''] + v + seq!['\'']) by { reveal_strlit("INDEX DIRECTORY '"); reveal_strlit("'"); }
    lemma_directory_value("INDEX"@, v, false);
    reveal_with_fuel(run_end, 2);
    lemma_tag_nc_mismatch(s, 0, "AUTOEXTEND_SIZE"@, 0);
    assert(spec_key_number(s, 0, "AUTOEXTEND_SIZE"@) is NoMatch);
    lemma_tag_nc_mismatch(s, 0, "AUTO_INCREMENT"@, 0);
    assert(spec_key_number(s, 0, "AUTO_INCREMENT"@) is NoMatch);
    lemma_tag_nc_mismatch(s, 0, "AVG_ROW_LENGTH"@, 0);
    assert(spec_key_number(s, 0, "AVG_ROW_LENGTH"@) is NoMatch);
    lemma_tag_nc_mismatch(s, 0, "DEFAULT "@, 0);
    lemma_tag_nc_mismatch(s, 0, "CHARACTER"@, 0);
    assert(spec_default_character_set(s, 0) is NoMatch);
    lemma_tag_nc_mismatch(s, 0, "DEFAULT"@, 0);
    lemma_tag_nc_mismatch(s, 0, "CHARSET"@, 0);
    assert(spec_default_charset(s, 0) is NoMatch);
    lemma_tag_nc_mismatch(s, 0, "CHECKSUM"@, 0);
    assert(spec_key_zero_one(s, 0, "CHECKSUM"@) is NoMatch);
    lemma_tag_nc_mismatch(s, 0, "COLLATE"@, 0);
    assert(spec_default_collate(s, 0) is NoMatch);
    lemma_tag_nc_mismatch(s, 0, "COMMENT"@, 0);
    assert(spec_key_quoted(s, 0, "COMMENT"@) is NoMatch);
    lemma_tag_nc_mismatch(s, 0, "COMPRESSION"@, 0);
    assert(spec_compression_type(s, 0) is NoMatch);
    lemma_tag_nc_mismatch(s, 0, "CONNECTION"@, 0);
    assert(spec_key_quoted(s, 0, "CONNECTION"@) is NoMatch);
    lemma_tag_nc_mismatch(s, 0, "DATA"@, 0);
    assert(spec_directory(s, 0, "DATA"@, true) is NoMatch);
    assert(spec_table_option_part_1b(s, 0) == Parsed::Done(s.len() as int, o));
    assert(spec_table_option_part_1(s, 0) == Parsed::Done(s.len() as int, o));
}

#[verifier::spinoff_prover]
#[verifier::rlimit(100)]
proof fn lemma_option_text_delay_key_write(v: u8)
    requires
        v <= 1,
    ensures
        spec_table_option(table_option_text(TableOptionView::DelayKeyWrite(v)), 0) == Parsed::Done(
            table_option_text(TableOptionView::DelayKeyWrite(v)).len() as int,
            TableOptionView::DelayKeyWrite(v),
        ),
{
    let o = TableOptionView::DelayKeyWrite(v);
    let s = table_option_text(o);
    reveal_strlit("AUTOEXTEND_SIZE");
    reveal_strlit("AUTO_INCREMENT");
    reveal_strlit("AVG_ROW_LENGTH");
    reveal_strlit("DEFAULT ");
    reveal_strlit("CHARACTER");
    reveal_strlit("DEFAULT");
    reveal_strlit("CHARSET");
    reveal_strlit("CHECKSUM");
    reveal_strlit("DEFAULT ");
    reveal_strlit("COLLATE");
    reveal_strlit("COMMENT");
    reveal_strlit("COMPRESSION");
    reveal_strlit("CONNECTION");
    reveal_strlit("DATA");
    reveal_strlit("INDEX");
    reveal_strlit("DELAY_KEY_WRITE");
    reveal_strlit("ENCRYPTION");
    reveal_strlit("ENGINE_ATTRIBUTE");
    reveal_strlit("ENGINE");
    reveal_strlit("INSERT_METHOD");
    reveal_strlit("KEY_BLOCK_SIZE");
    reveal_strlit("MAX_ROWS");
    reveal_strlit("MIN_ROWS");
    reveal_strlit("PACK_KEYS");
    reveal_strlit("PASSWORD");
    reveal_strlit("ROW_FORMAT");
    reveal_strlit("SECONDARY_ENGINE_ATTRIBUTE");
    reveal_strlit("STATS_AUTO_RECALC");
    reveal_strlit("STATS_PERSISTENT");
    reveal_strlit("STATS_SAMPLE_PAGES");
    reveal_strlit("TABLESPACE");
    assert(s =~= "DELAY_KEY_WRITE"@ + seq![' '] + nat_text(v as nat)) by { reveal_strlit("DELAY_KEY_WRITE "); }
    lemma_number_to_end("DELAY_KEY_WRITE"@ + seq![' '], v as u64);
    assert(Seq::<char>::empty() + "DELAY_KEY_WRITE"@ + seq![' '] + nat_text(v as nat) =~= s);
    lemma_value_start(s, Seq::empty(), "DELAY_KEY_WRITE"@, nat_text(v as nat));
    assert(nat_text(v as nat) == seq![if v == 0 { '0' } else { '1' }]);
    reveal_with_fuel(run_end, 2);
    lemma_tag_nc_mismatch(s, 0, "AUTOEXTEND_SIZE"@, 0);
    assert(spec_key_number(s, 0, "AUTOEXTEND_SIZE"@) is NoMatch);
    lemma_tag_nc_mismatch(s, 0, "AUTO_INCREMENT"@, 0);
    assert(spec_key_number(s, 0, "AUTO_INCREMENT"@) is NoMatch);
    lemma_tag_nc_mismatch(s, 0, "AVG_ROW_LENGTH"@, 0);
    assert(spec_key_number(s, 0, "AVG_ROW_LENGTH"@) is NoMatch);
    lemma_tag_nc_mismatch(s, 0, "DEFAULT "@, 2);
    lemma_tag_nc_mismatch(s, 0, "CHARACTER"@, 0);
    assert(spec_default_character_set(s, 0) is NoMatch);
    lemma_tag_nc_mismatch(s, 0, "DEFAULT"@, 2);
    lemma_tag_nc_mismatch(s, 0, "CHARSET"@, 0);
    assert(spec_default_charset(s, 0) is NoMatch);
    lemma_tag_nc_mismatch(s, 0, "CHECKSUM"@, 0);
    assert(spec_key_zero_one(s, 0, "CHECKSUM"@) is NoMatch);
    lemma_tag_nc_mismatch(s, 0, "DEFAULT "@, 2);
    lemma_tag_nc_mismatch(s, 0, "COLLATE"@, 0);
    assert(spec_default_collate(s, 0) is NoMatch);
    lemma_tag_nc_mismatch(s, 0, "COMMENT"@, 0);
    assert(spec_key_quoted(s, 0, "COMMENT"@) is NoMatch);
    lemma_tag_nc_mismatch(s, 0, "COMPRESSION"@, 0);
    assert(spec_compression_type(s, 0) is NoMatch);
    lemma_tag_nc_mismatch(s, 0, "CONNECTION"@, 0);
    assert(spec_key_quoted(s, 0, "CONNECTION"@) is NoMatch);
    lemma_tag_nc_mismatch(s, 0, "DATA"@, 1);
    assert(spec_directory(s, 0, "DATA"@, true) is NoMatch);
    lemma_tag_nc_mismatch(s, 0, "INDEX"@, 0);
    assert(spec_directory(s, 0, "INDEX"@, false) is NoMatch);
    assert(!(spec_key_zero_one(s, 0, "DELAY_KEY_WRITE"@) is NoMatch));
    assert(spec_table_option_part_1b(s, 0) == Parsed::Done(s.len() as int, o));
    assert(spec_table_option_part_1(s, 0) == Parsed::Done(s.len() as int, o));
}

#[verifier::spinoff_prover]
#[verifier::rlimit(100)]
proof fn lemma_option_text_encryption(v: bool)
    ensures
        spec_table_option(table_option_text(TableOptionView::Encryption(v)), 0) == Parsed::Done(
            table_option_text(TableOptionView::Encryption(v)).len() as int,
            TableOptionView::Encryption(v),
        ),
{
    let o = TableOptionView::Encryption(v);
    let s = table_option_text(o);
    reveal_strlit("AUTOEXTEND_SIZE");
    reveal_strlit("AUTO_INCREMENT");
    reveal_strlit("AVG_ROW_LENGTH");
    reveal_strlit("DEFAULT ");
    reveal_strlit("CHARACTER");
    reveal_strlit("DEFAULT");
    reveal_strlit("CHARSET");
    reveal_strlit("CHECKSUM");
    reveal_strlit("DEFAULT ");
    reveal_strlit("COLLATE");
    reveal_strlit("COMMENT");
    reveal_strlit("COMPRESSION");
    reveal_strlit("CONNECTION");
    reveal_strlit("DATA");
    reveal_strlit("INDEX");
    reveal_strlit("DELAY_KEY_WRITE");
    reveal_strlit("ENCRYPTION");
    reveal_strlit("ENGINE_ATTRIBUTE");
    reveal_strlit("ENGINE");
    reveal_strlit("INSERT_METHOD");
    reveal_strlit("KEY_BLOCK_SIZE");
    reveal_strlit("MAX_ROWS");
    reveal_strlit("MIN_ROWS");
    reveal_strlit("PACK_KEYS");
    reveal_strlit("PASSWORD");
    reveal_strlit("ROW_FORMAT");
    reveal_strlit("SECONDARY_ENGINE_ATTRIBUTE");
    reveal_strlit("STATS_AUTO_RECALC");
    reveal_strlit("STATS_PERSISTENT");
    reveal_strlit("STATS_SAMPLE_PAGES");
    reveal_strlit("TABLESPACE");
    assert(s =~= "ENCRYPTION"@ + seq![' '] + seq!['\'', if v { 'Y' } else { 'N' }, '\'']) by { reveal_strlit("ENCRYPTION '"); reveal_strlit("Y"); reveal_strlit("N"); reveal_strlit("'"); }
    lemma_value_start(s, Seq::empty(), "ENCRYPTION"@, seq!['\'', if v { 'Y' } else { 'N' }, '\'']);
    assert(Seq::<char>::empty() + "ENCRYPTION"@ + seq![' '] + seq!['\'', if v { 'Y' } else { 'N' }, '\''] =~= s);
    reveal_strlit("'Y'");
    reveal_strlit("'N'");
    if v { assert(s.subrange(11, 14) =~= "'Y'"@); } else { assert(s.subrange(11, 14)[1] == 'N'); assert(s.subrange(11, 14) != "'Y'"@); assert(s.subrange(11, 14) =~= "'N'"@); }
    assert(spec_encryption(s, 0) == Parsed::Done(s.len() as int, v));
    reveal_with_fuel(run_end, 2);
    lemma_tag_nc_mismatch(s, 0, "AUTOEXTEND_SIZE"@, 0);
    assert(spec_key_number(s, 0, "AUTOEXTEND_SIZE"@) is NoMatch);
    lemma_tag_nc_mismatch(s, 0, "AUTO_INCREMENT"@, 0);
    assert(spec_key_number(s, 0, "AUTO_INCREMENT"@) is NoMatch);
    lemma_tag_nc_mismatch(s, 0, "AVG_ROW_LENGTH"@, 0);
    assert(spec_key_number(s, 0, "AVG_ROW_LENGTH"@) is NoMatch);
    lemma_tag_nc_mismatch(s, 0, "DEFAULT "@, 0);
    lemma_tag_nc_mismatch(s, 0, "CHARACTER"@, 0);
    assert(spec_default_character_set(s, 0) is NoMatch);
    lemma_tag_nc_mismatch(s, 0, "DEFAULT"@, 0);
    lemma_tag_nc_mismatch(s, 0, "CHARSET"@, 0);
    assert(spec_default_charset(s, 0) is NoMatch);
    lemma_tag_nc_mismatch(s, 0, "CHECKSUM"@, 0);
    assert(spec_key_zero_one(s, 0, "CHECKSUM"@) is NoMatch);
    lemma_tag_nc_mismatch(s, 0, "DEFAULT "@, 0);
    lemma_tag_nc_mismatch(s, 0, "COLLATE"@, 0);
    assert(spec_default_collate(s, 0) is NoMatch);
    lemma_tag_nc_mismatch(s, 0, "COMMENT"@, 0);
    assert(spec_key_quoted(s, 0, "COMMENT"@) is NoMatch);
    lemma_tag_nc_mismatch(s, 0, "COMPRESSION"@, 0);
    assert(spec_compression_type(s, 0) is NoMatch);
    lemma_tag_nc_mismatch(s, 0, "CONNECTION"@, 0);
    assert(spec_key_quoted(s, 0, "CONNECTION"@) is NoMatch);
    lemma_tag_nc_mismatch(s, 0, "DATA"@, 0);
    assert(spec_directory(s, 0, "DATA"@, true) is NoMatch);
    lemma_tag_nc_mismatch(s, 0, "INDEX"@, 0);
    assert(spec_directory(s, 0, "INDEX"@, false) is NoMatch);
    lemma_tag_nc_mismatch(s, 0, "DELAY_KEY_WRITE"@, 0);
    assert(spec_key_zero_one(s, 0, "DELAY_KEY_WRITE"@) is NoMatch);
    assert(!(spec_encryption(s, 0) is NoMatch));
    assert(spec_table_option_part_1b(s, 0) == Parsed::Done(s.len() as int, o));
    assert(spec_table_option_part_1(s, 0) == Parsed::Done(s.len() as int, o));
}

#[verifier::spinoff_prover]
#[verifier::rlimit(100)]
proof fn lemma_option_text_engine_attribute(v: Seq<char>)
    requires
        quote_free(v),
    ensures
        spec_table_option(table_option_text(TableOptionView::EngineAttribute(v)), 0) == Parsed::Done(
            table_option_text(TableOptionView::EngineAttribute(v)).len() as int,
            TableOptionView::EngineAttribute(v),
        ),
{
    let o = TableOptionView::EngineAttribute(v);
    let s = table_option_text(o);
    reveal_strlit("AUTOEXTEND_SIZE");
    reveal_strlit("AUTO_INCREMENT");
    reveal_strlit("AVG_ROW_LENGTH");
    reveal_strlit("DEFAULT ");
    reveal_strlit("CHARACTER");
    reveal_strlit("DEFAULT");
    reveal_strlit("CHARSET");
    reveal_strlit("CHECKSUM");
    reveal_strlit("DEFAULT ");
    reveal_strlit("COLLATE");
    reveal_strlit("COMMENT");
    reveal_strlit("COMPRESSION");
    reveal_strlit("CONNECTION");
    reveal_strlit("DATA");
    reveal_strlit("INDEX");
    reveal_strlit("DELAY_KEY_WRITE");
    reveal_strlit("ENCRYPTION");
    reveal_strlit("ENGINE_ATTRIBUTE");
    reveal_strlit("ENGINE");
    reveal_strlit("INSERT_METHOD");
    reveal_strlit("KEY_BLOCK_SIZE");
    reveal_strlit("MAX_ROWS");
    reveal_strlit("MIN_ROWS");
    reveal_strlit("PACK_KEYS");
    reveal_strlit("PASSWORD");
    reveal_strlit("ROW_FORMAT");
    reveal_strlit("SECONDARY_ENGINE_ATTRIBUTE");
    reveal_strlit("STATS_AUTO_RECALC");
    reveal_strlit("STATS_PERSISTENT");
    reveal_strlit("STATS_SAMPLE_PAGES");
    reveal_strlit("TABLESPACE");
    assert(s =~= "ENGINE_ATTRIBUTE"@ + seq![' '] + seq!['\''] + v + seq!['\'']) by { reveal_strlit("ENGINE_ATTRIBUTE '"); reveal_strlit("'"); }
    lemma_quoted_to_end("ENGINE_ATTRIBUTE"@ + seq![' '], v);
    assert(Seq::<char>::empty() + "ENGINE_ATTRIBUTE"@ + seq![' '] + (seq!['\''] + v + seq!['\'']) =~= s);
    lemma_value_start(s, Seq::empty(), "ENGINE_ATTRIBUTE"@, seq!['\''] + v + seq!['\'']);
    reveal_with_fuel(run_end, 2);
    lemma_tag_nc_mismatch(s, 0, "AUTOEXTEND_SIZE"@, 0);
    assert(spec_key_number(s, 0, "AUTOEXTEND_SIZE"@) is NoMatch);
    lemma_tag_nc_mismatch(s, 0, "AUTO_INCREMENT"@, 0);
    assert(spec_key_number(s, 0, "AUTO_INCREMENT"@) is NoMatch);
    lemma_tag_nc_mismatch(s, 0, "AVG_ROW_LENGTH"@, 0);
    assert(spec_key_number(s, 0, "AVG_ROW_LENGTH"@) is NoMatch);
    lemma_tag_nc_mismatch(s, 0, "DEFAULT "@, 0);
    lemma_tag_nc_mismatch(s, 0, "CHARACTER"@, 0);
    assert(spec_default_character_set(s, 0) is NoMatch);
    lemma_tag_nc_mismatch(s, 0, "DEFAULT"@, 0);
    lemma_tag_nc_mismatch(s, 0, "CHARSET"@, 0);
    assert(spec_default_charset(s, 0) is NoMatch);
    lemma_tag_nc_mismatch(s, 0, "CHECKSUM"@, 0);
    assert(spec_key_zero_one(s, 0, "CHECKSUM"@) is NoMatch);
    lemma_tag_nc_mismatch(s, 0, "DEFAULT "@, 0);
    lemma_tag_nc_mismatch(s, 0, "COLLATE"@, 0);
    assert(spec_default_collate(s, 0) is NoMatch);
    lemma_tag_nc_mismatch(s, 0, "COMMENT"@, 0);
    assert(spec_key_quoted(s, 0, "COMMENT"@) is NoMatch);
    lemma_tag_nc_mismatch(s, 0, "COMPRESSION"@, 0);
    assert(spec_compression_type(s, 0) is NoMatch);
    lemma_tag_nc_mismatch(s, 0, "CONNECTION"@, 0);
    assert(spec_key_quoted(s, 0, "CONNECTION"@) is NoMatch);
    lemma_tag_nc_mismatch(s, 0, "DATA"@, 0);
    assert(spec_directory(s, 0, "DATA"@, true) is NoMatch);
    lemma_tag_nc_mismatch(s, 0, "INDEX"@, 0);
    assert(spec_directory(s, 0, "INDEX"@, false) is NoMatch);
    lemma_tag_nc_mismatch(s, 0, "DELAY_KEY_WRITE"@, 0);
    assert(spec_key_zero_one(s, 0, "DELAY_KEY_WRITE"@) is NoMatch);
    lemma_tag_nc_mismatch(s, 0, "ENCRYPTION"@, 2);
    assert(spec_encryption(s, 0) is NoMatch);
    assert(!(spec_key_quoted(s, 0, "ENGINE_ATTRIBUTE"@) is NoMatch));
    assert(spec_table_option_part_1b(s, 0) == Parsed::Done(s.len() as int, o));
    assert(spec_table_option_part_1(s, 0) == Parsed::Done(s.len() as int, o));
}

#[verifier::spinoff_prover]
#[verifier::rlimit(100)]
proof fn lemma_option_text_engine(v: Seq<char>)
    requires
        plain_name(v),
    ensures
        spec_table_option(table_option_text(TableOptionView::Engine(v)), 0) == Parsed::Done(
            table_option_text(TableOptionView::Engine(v)).len() as int,
            TableOptionView::Engine(v),
        ),
{
    let o = TableOptionView::Engine(v);
    let s = table_option_text(o);
    reveal_strlit("AUTOEXTEND_SIZE");
    reveal_strlit("AUTO_INCREMENT");
    reveal_strlit("AVG_ROW_LENGTH");
    reveal_strlit("DEFAULT ");
    reveal_strlit("CHARACTER");
    reveal_strlit("DEFAULT");
    reveal_strlit("CHARSET");
    reveal_strlit("CHECKSUM");
    reveal_strlit("DEFAULT ");
    reveal_strlit("COLLATE");
    reveal_strlit("COMMENT");
    reveal_strlit("COMPRESSION");
    reveal_strlit("CONNECTION");
    reveal_strlit("DATA");
    reveal_strlit("INDEX");
    reveal_strlit("DELAY_KEY_WRITE");
    reveal_strlit("ENCRYPTION");
    reveal_strlit("ENGINE_ATTRIBUTE");
    reveal_strlit("ENGINE");
    reveal_strlit("INSERT_METHOD");
    reveal_strlit("KEY_BLOCK_SIZE");
    reveal_strlit("MAX_ROWS");
    reveal_strlit("MIN_ROWS");
    reveal_strlit("PACK_KEYS");
    reveal_strlit("PASSWORD");
    reveal_strlit("ROW_FORMAT");
    reveal_strlit("SECONDARY_ENGINE_ATTRIBUTE");
    reveal_strlit("STATS_AUTO_RECALC");
    reveal_strlit("STATS_PERSISTENT");
    reveal_strlit("STATS_SAMPLE_PAGES");
    reveal_strlit("TABLESPACE");
    assert(s =~= "ENGINE"@ + seq![' '] + v) by { reveal_strlit("ENGINE "); }
    lemma_identifier_to_end("ENGINE"@ + seq![' '], v);
    assert(Seq::<char>::empty() + "ENGINE"@ + seq![' '] + v =~= s);
    lemma_value_start(s, Seq::empty(), "ENGINE"@, v);
    reveal_with_fuel(run_end, 2);
    lemma_tag_nc_mismatch(s, 0, "AUTOEXTEND_SIZE"@, 0);
    assert(spec_key_number(s, 0, "AUTOEXTEND_SIZE"@) is NoMatch);
    lemma_tag_nc_mismatch(s, 0, "AUTO_INCREMENT"@, 0);
    assert(spec_key_number(s, 0, "AUTO_INCREMENT"@) is NoMatch);
    lemma_tag_nc_mismatch(s, 0, "AVG_ROW_LENGTH"@, 0);
    assert(spec_key_number(s, 0, "AVG_ROW_LENGTH"@) is NoMatch);
    lemma_tag_nc_mismatch(s, 0, "DEFAULT "@, 0);
    lemma_tag_nc_mismatch(s, 0, "CHARACTER"@, 0);
    assert(spec_default_character_set(s, 0) is NoMatch);
    lemma_tag_nc_mismatch(s, 0, "DEFAULT"@, 0);
    lemma_tag_nc_mismatch(s, 0, "CHARSET"@, 0);
    assert(spec_default_charset(s, 0) is NoMatch);
    lemma_tag_nc_mismatch(s, 0, "CHECKSUM"@, 0);
    assert(spec_key_zero_one(s, 0, "CHECKSUM"@) is NoMatch);
    lemma_tag_nc_mismatch(s, 0, "DEFAULT "@, 0);
    lemma_tag_nc_mismatch(s, 0, "COLLATE"@, 0);
    assert(spec_default_collate(s, 0) is NoMatch);
    lemma_tag_nc_mismatch(s, 0, "COMMENT"@, 0);
    assert(spec_key_quoted(s, 0, "COMMENT"@) is NoMatch);
    lemma_tag_nc_mismatch(s, 0, "COMPRESSION"@, 0);
    assert(spec_compression_type(s, 0) is NoMatch);
    lemma_tag_nc_mismatch(s, 0, "CONNECTION"@, 0);
    assert(spec_key_quoted(s, 0, "CONNECTION"@) is NoMatch);
    lemma_tag_nc_mismatch(s, 0, "DATA"@, 0);
    assert(spec_directory(s, 0, "DATA"@, true) is NoMatch);
    lemma_tag_nc_mismatch(s, 0, "INDEX"@, 0);
    assert(spec_directory(s, 0, "INDEX"@, false) is NoMatch);
    lemma_tag_nc_mismatch(s, 0, "DELAY_KEY_WRITE"@, 0);
    assert(spec_key_zero_one(s, 0, "DELAY_KEY_WRITE"@) is NoMatch);
    lemma_tag_nc_mismatch(s, 0, "ENCRYPTION"@, 2);
    assert(spec_encryption(s, 0) is NoMatch);
    lemma_tag_nc_mismatch(s, 0, "ENGINE_ATTRIBUTE"@, 6);
    assert(spec_key_quoted(s, 0, "ENGINE_ATTRIBUTE"@) is NoMatch);
    assert(!(spec_key_identifier(s, 0, "ENGINE"@) is NoMatch));
    assert(spec_table_option_part_1b(s, 0) == Parsed::Done(s.len() as int, o));
    assert(spec_table_option_part_1(s, 0) == Parsed::Done(s.len() as int, o));
}

#[verifier::spinoff_prover]
#[verifier::rlimit(100)]
proof fn lemma_option_text_insert_method(v: InsertMethodType)
    ensures
        spec_table_option(table_option_text(TableOptionView::InsertMethod(v)), 0) == Parsed::Done(
            table_option_text(TableOptionView::InsertMethod(v)).len() as int,
            TableOptionView::InsertMethod(v),
        ),
{
    let o = TableOptionView::InsertMethod(v);
    let s = table_option_text(o);
    reveal_strlit("AUTOEXTEND_SIZE");
    reveal_strlit("AUTO_INCREMENT");
    reveal_strlit("AVG_ROW_LENGTH");
    reveal_strlit("DEFAULT ");
    reveal_strlit("CHARACTER");
    reveal_strlit("DEFAULT");
    reveal_strlit("CHARSET");
    reveal_strlit("CHECKSUM");
    reveal_strlit("DEFAULT ");
    reveal_strlit("COLLATE");
    reveal_strlit("COMMENT");
    reveal_strlit("COMPRESSION");
    reveal_strlit("CONNECTION");
    reveal_strlit("DATA");
    reveal_strlit("INDEX");
    reveal_strlit("DELAY_KEY_WRITE");
    reveal_strlit("ENCRYPTION");
    reveal_strlit("ENGINE_ATTRIBUTE");
    reveal_strlit("ENGINE");
    reveal_strlit("INSERT_METHOD");
    reveal_strlit("KEY_BLOCK_SIZE");
    reveal_strlit("MAX_ROWS");
    reveal_strlit("MIN_ROWS");
    reveal_strlit("PACK_KEYS");
    reveal_strlit("PASSWORD");
    reveal_strlit("ROW_FORMAT");
    reveal_strlit("SECONDARY_ENGINE_ATTRIBUTE");
    reveal_strlit("STATS_AUTO_RECALC");
    reveal_strlit("STATS_PERSISTENT");
    reveal_strlit("STATS_SAMPLE_PAGES");
    reveal_strlit("TABLESPACE");
    lemma_insert_method_type_round_trip(v);
    assert(s.subrange(0, 14) =~= seq!['I', 'N', 'S', 'E', 'R', 'T', '_', 'M', 'E', 'T', 'H', 'O', 'D', ' ']) by { reveal_strlit("INSERT_METHOD NO"); reveal_strlit("INSERT_METHOD FIRST"); reveal_strlit("INSERT_METHOD LAST"); }
    assert(s.len() >= 14) by { reveal_strlit("INSERT_METHOD NO"); reveal_strlit("INSERT_METHOD FIRST"); reveal_strlit("INSERT_METHOD LAST"); }
    assert(s.subrange(0, 14)[0] == s[0]);
    assert(s.subrange(0, 14)[1] == s[1]);
    assert(s.subrange(0, 14)[2] == s[2]);
    assert(s.subrange(0, 14)[3] == s[3]);
    assert(s.subrange(0, 14)[4] == s[4]);
    assert(s.subrange(0, 14)[5] == s[5]);
    assert(s.subrange(0, 14)[6] == s[6]);
    assert(s.subrange(0, 14)[7] == s[7]);
    assert(s.subrange(0, 14)[8] == s[8]);
    assert(s.subrange(0, 14)[9] == s[9]);
    assert(s.subrange(0, 14)[10] == s[10]);
    assert(s.subrange(0, 14)[11] == s[11]);
    assert(s.subrange(0, 14)[12] == s[12]);
    assert(s.subrange(0, 14)[13] == s[13]);
    reveal_with_fuel(run_end, 2);
    lemma_tag_nc_mismatch(s, 0, "AUTOEXTEND_SIZE"@, 0);
    assert(spec_key_number(s, 0, "AUTOEXTEND_SIZE"@) is NoMatch);
    lemma_tag_nc_mismatch(s, 0, "AUTO_INCREMENT"@, 0);
    assert(spec_key_number(s, 0, "AUTO_INCREMENT"@) is NoMatch);
    lemma_tag_nc_mismatch(s, 0, "AVG_ROW_LENGTH"@, 0);
    assert(spec_key_number(s, 0, "AVG_ROW_LENGTH"@) is NoMatch);
    lemma_tag_nc_mismatch(s, 0, "DEFAULT "@, 0);
    lemma_tag_nc_mismatch(s, 0, "CHARACTER"@, 0);
    assert(spec_default_character_set(s, 0) is NoMatch);
    lemma_tag_nc_mismatch(s, 0, "DEFAULT"@, 0);
    lemma_tag_nc_mismatch(s, 0, "CHARSET"@, 0);
    assert(spec_default_charset(s, 0) is NoMatch);
    lemma_tag_nc_mismatch(s, 0, "CHECKSUM"@, 0);
    assert(spec_key_zero_one(s, 0, "CHECKSUM"@) is NoMatch);
    lemma_tag_nc_mismatch(s, 0, "DEFAULT "@, 0);
    lemma_tag_nc_mismatch(s, 0, "COLLATE"@, 0);
    assert(spec_default_collate(s, 0) is NoMatch);
    lemma_tag_nc_mismatch(s, 0, "COMMENT"@, 0);
    assert(spec_key_quoted(s, 0, "COMMENT"@) is NoMatch);
    lemma_tag_nc_mismatch(s, 0, "COMPRESSION"@, 0);
    assert(spec_compression_type(s, 0) is NoMatch);
    lemma_tag_nc_mismatch(s, 0, "CONNECTION"@, 0);
    assert(spec_key_quoted(s, 0, "CONNECTION"@) is NoMatch);
    lemma_tag_nc_mismatch(s, 0, "DATA"@, 0);
    assert(spec_directory(s, 0, "DATA"@, true) is NoMatch);
    lemma_tag_nc_mismatch(s, 0, "INDEX"@, 2);
    assert(spec_directory(s, 0, "INDEX"@, false) is NoMatch);
    lemma_tag_nc_mismatch(s, 0, "DELAY_KEY_WRITE"@, 0);
    assert(spec_key_zero_one(s, 0, "DELAY_KEY_WRITE"@) is NoMatch);
    lemma_tag_nc_mismatch(s, 0, "ENCRYPTION"@, 0);
    assert(spec_encryption(s, 0) is NoMatch);
    lemma_tag_nc_mismatch(s, 0, "ENGINE_ATTRIBUTE"@, 0);
    assert(spec_key_quoted(s, 0, "ENGINE_ATTRIBUTE"@) is NoMatch);
    lemma_tag_nc_mismatch(s, 0, "ENGINE"@, 0);
    assert(spec_key_identifier(s, 0, "ENGINE"@) is NoMatch);
    assert(!(spec_insert_method_type(s, 0) is NoMatch));
    assert(spec_table_option_part_1b(s, 0) is NoMatch);
    assert(spec_table_option_part_1(s, 0) is NoMatch);
    assert(spec_table_option_part_2(s, 0) == Parsed::Done(s.len() as int, o));
}

#[verifier::spinoff_prover]
#[verifier::rlimit(100)]
proof fn lemma_option_text_key_block_size(v: u64)
    ensures
        spec_table_option(table_option_text(TableOptionView::KeyBlockSize(v)), 0) == Parsed::Done(
            table_option_text(TableOptionView::KeyBlockSize(v)).len() as int,
            TableOptionView::KeyBlockSize(v),
        ),
{
    let o = TableOptionView::KeyBlockSize(v);
    let s = table_option_text(o);
    reveal_strlit("AUTOEXTEND_SIZE");
    reveal_strlit("AUTO_INCREMENT");
    reveal_strlit("AVG_ROW_LENGTH");
    reveal_strlit("DEFAULT ");
    reveal_strlit("CHARACTER");
    reveal_strlit("DEFAULT");
    reveal_strlit("CHARSET");
    reveal_strlit("CHECKSUM");
    reveal_strlit("DEFAULT ");
    reveal_strlit("COLLATE");
    reveal_strlit("COMMENT");
    reveal_strlit("COMPRESSION");
    reveal_strlit("CONNECTION");
    reveal_strlit("DATA");
    reveal_strlit("INDEX");
    reveal_strlit("DELAY_KEY_WRITE");
    reveal_strlit("ENCRYPTION");
    reveal_strlit("ENGINE_ATTRIBUTE");
    reveal_strlit("ENGINE");
    reveal_strlit("INSERT_METHOD");
    reveal_strlit("KEY_BLOCK_SIZE");
    reveal_strlit("MAX_ROWS");
    reveal_strlit("MIN_ROWS");
    reveal_strlit("PACK_KEYS");
    reveal_strlit("PASSWORD");
    reveal_strlit("ROW_FORMAT");
    reveal_strlit("SECONDARY_ENGINE_ATTRIBUTE");
    reveal_strlit("STATS_AUTO_RECALC");
    reveal_strlit("STATS_PERSISTENT");
    reveal_strlit("STATS_SAMPLE_PAGES");
    reveal_strlit("TABLESPACE");
    assert(s =~= "KEY_BLOCK_SIZE"@ + seq![' '] + nat_text(v as nat)) by { reveal_strlit("KEY_BLOCK_SIZE "); }
    lemma_number_to_end("KEY_BLOCK_SIZE"@ + seq![' '], v);
    lemma_value_start(s, Seq::empty(), "KEY_BLOCK_SIZE"@, nat_text(v as nat));
    assert(Seq::<char>::empty() + "KEY_BLOCK_SIZE"@ + seq![' '] + nat_text(v as nat) =~= s);
    reveal_with_fuel(run_end, 2);
    lemma_tag_nc_mismatch(s, 0, "AUTOEXTEND_SIZE"@, 0);
    assert(spec_key_number(s, 0, "AUTOEXTEND_SIZE"@) is NoMatch);
    lemma_tag_nc_mismatch(s, 0, "AUTO_INCREMENT"@, 0);
    assert(spec_key_number(s, 0, "AUTO_INCREMENT"@) is NoMatch);
    lemma_tag_nc_mismatch(s, 0, "AVG_ROW_LENGTH"@, 0);
    assert(spec_key_number(s, 0, "AVG_ROW_LENGTH"@) is NoMatch);
    lemma_tag_nc_mismatch(s, 0, "DEFAULT "@, 0);
    lemma_tag_nc_mismatch(s, 0, "CHARACTER"@, 0);
    assert(spec_default_character_set(s, 0) is NoMatch);
    lemma_tag_nc_mismatch(s, 0, "DEFAULT"@, 0);
    lemma_tag_nc_mismatch(s, 0, "CHARSET"@, 0);
    assert(spec_default_charset(s, 0) is NoMatch);
    lemma_tag_nc_mismatch(s, 0, "CHECKSUM"@, 0);
    assert(spec_key_zero_one(s, 0, "CHECKSUM"@) is NoMatch);
    lemma_tag_nc_mismatch(s, 0, "DEFAULT "@, 0);
    lemma_tag_nc_mismatch(s, 0, "COLLATE"@, 0);
    assert(spec_default_collate(s, 0) is NoMatch);
    lemma_tag_nc_mismatch(s, 0, "COMMENT"@, 0);
    assert(spec_key_quoted(s, 0, "COMMENT"@) is NoMatch);
    lemma_tag_nc_mismatch(s, 0, "COMPRESSION"@, 0);
    assert(spec_compression_type(s, 0) is NoMatch);
    lemma_tag_nc_mismatch(s, 0, "CONNECTION"@, 0);
    assert(spec_key_quoted(s, 0, "CONNECTION"@) is NoMatch);
    lemma_tag_nc_mismatch(s, 0, "DATA"@, 0);
    assert(spec_directory(s, 0, "DATA"@, true) is NoMatch);
    lemma_tag_nc_mismatch(s, 0, "INDEX"@, 0);
    assert(spec_directory(s, 0, "INDEX"@, false) is NoMatch);
    lemma_tag_nc_mismatch(s, 0, "DELAY_KEY_WRITE"@, 0);
    assert(spec_key_zero_one(s, 0, "DELAY_KEY_WRITE"@) is NoMatch);
    lemma_tag_nc_mismatch(s, 0, "ENCRYPTION"@, 0);
    assert(spec_encryption(s, 0) is NoMatch);
    lemma_tag_nc_mismatch(s, 0, "ENGINE_ATTRIBUTE"@, 0);
    assert(spec_key_quoted(s, 0, "ENGINE_ATTRIBUTE"@) is NoMatch);
    lemma_tag_nc_mismatch(s, 0, "ENGINE"@, 0);
    assert(spec_key_identifier(s, 0, "ENGINE"@) is NoMatch);
    lemma_tag_nc_mismatch(s, 0, "INSERT_METHOD"@, 0);
    assert(spec_insert_method_type(s, 0) is NoMatch);
    assert(!(spec_key_number(s, 0, "KEY_BLOCK_SIZE"@) is NoMatch));
    assert(spec_table_option_part_1b(s, 0) is NoMatch);
    assert(spec_table_option_part_1(s, 0) is NoMatch);
    assert(spec_table_option_part_2(s, 0) == Parsed::Done(s.len() as int, o));
}

#[verifier::spinoff_prover]
#[verifier::rlimit(100)]
proof fn lemma_option_text_max_rows(v: u64)
    ensures
        spec_table_option(table_option_text(TableOptionView::MaxRows(v)), 0) == Parsed::Done(
            table_option_text(TableOptionView::MaxRows(v)).len() as int,
            TableOptionView::MaxRows(v),
        ),
{
    let o = TableOptionView::MaxRows(v);
    let s = table_option_text(o);
    reveal_strlit("AUTOEXTEND_SIZE");
    reveal_strlit("AUTO_INCREMENT");
    reveal_strlit("AVG_ROW_LENGTH");
    reveal_strlit("DEFAULT ");
    reveal_strlit("CHARACTER");
    reveal_strlit("DEFAULT");
    reveal_strlit("CHARSET");
    reveal_strlit("CHECKSUM");
    reveal_strlit("DEFAULT ");
    reveal_strlit("COLLATE");
    reveal_strlit("COMMENT");
    reveal_strlit("COMPRESSION");
    reveal_strlit("CONNECTION");
    reveal_strlit("DATA");
    reveal_strlit("INDEX");
    reveal_strlit("DELAY_KEY_WRITE");
    reveal_strlit("ENCRYPTION");
    reveal_strlit("ENGINE_ATTRIBUTE");
    reveal_strlit("ENGINE");
    reveal_strlit("INSERT_METHOD");
    reveal_strlit("KEY_BLOCK_SIZE");
    reveal_strlit("MAX_ROWS");
    reveal_strlit("MIN_ROWS");
    reveal_strlit("PACK_KEYS");
    reveal_strlit("PASSWORD");
    reveal_strlit("ROW_FORMAT");
    reveal_strlit("SECONDARY_ENGINE_ATTRIBUTE");
    reveal_strlit("STATS_AUTO_RECALC");
    reveal_strlit("STATS_PERSISTENT");
    reveal_strlit("STATS_SAMPLE_PAGES");
    reveal_strlit("TABLESPACE");
    assert(s =~= "MAX_ROWS"@ + seq![' '] + nat_text(v as nat)) by { reveal_strlit("MAX_ROWS "); }
    lemma_number_to_end("MAX_ROWS"@ + seq![' '], v);
    lemma_value_start(s, Seq::empty(), "MAX_ROWS"@, nat_text(v as nat));
    assert(Seq::<char>::empty() + "MAX_ROWS"@ + seq![' '] + nat_text(v as nat) =~= s);
    reveal_with_fuel(run_end, 2);
    lemma_tag_nc_mismatch(s, 0, "AUTOEXTEND_SIZE"@, 0);
    assert(spec_key_number(s, 0, "AUTOEXTEND_SIZE"@) is NoMatch);
    lemma_tag_nc_mismatch(s, 0, "AUTO_INCREMENT"@, 0);
    assert(spec_key_number(s, 0, "AUTO_INCREMENT"@) is NoMatch);
    lemma_tag_nc_mismatch(s, 0, "AVG_ROW_LENGTH"@, 0);
    assert(spec_key_number(s, 0, "AVG_ROW_LENGTH"@) is NoMatch);
    lemma_tag_nc_mismatch(s, 0, "DEFAULT "@, 0);
    lemma_tag_nc_mismatch(s, 0, "CHARACTER"@, 0);
    assert(spec_default_character_set(s, 0) is NoMatch);
    lemma_tag_nc_mismatch(s, 0, "DEFAULT"@, 0);
    lemma_tag_nc_mismatch(s, 0, "CHARSET"@, 0);
    assert(spec_default_charset(s, 0) is NoMatch);
    lemma_tag_nc_mismatch(s, 0, "CHECKSUM"@, 0);
    assert(spec_key_zero_one(s, 0, "CHECKSUM"@) is NoMatch);
    lemma_tag_nc_mismatch(s, 0, "DEFAULT "@, 0);
    lemma_tag_nc_mismatch(s, 0, "COLLATE"@, 0);
    assert(spec_default_collate(s, 0) is NoMatch);
    lemma_tag_nc_mismatch(s, 0, "COMMENT"@, 0);
    assert(spec_key_quoted(s, 0, "COMMENT"@) is NoMatch);
    lemma_tag_nc_mismatch(s, 0, "COMPRESSION"@, 0);
    assert(spec_compression_type(s, 0) is NoMatch);
    lemma_tag_nc_mismatch(s, 0, "CONNECTION"@, 0);
    assert(spec_key_quoted(s, 0, "CONNECTION"@) is NoMatch);
    lemma_tag_nc_mismatch(s, 0, "DATA"@, 0);
    assert(spec_directory(s, 0, "DATA"@, true) is NoMatch);
    lemma_tag_nc_mismatch(s, 0, "INDEX"@, 0);
    assert(spec_directory(s, 0, "INDEX"@, false) is NoMatch);
    lemma_tag_nc_mismatch(s, 0, "DELAY_KEY_WRITE"@, 0);
    assert(spec_key_zero_one(s, 0, "DELAY_KEY_WRITE"@) is NoMatch);
    lemma_tag_nc_mismatch(s, 0, "ENCRYPTION"@, 0);
    assert(spec_encryption(s, 0) is NoMatch);
    lemma_tag_nc_mismatch(s, 0, "ENGINE_ATTRIBUTE"@, 0);
    assert(spec_key_quoted(s, 0, "ENGINE_ATTRIBUTE"@) is NoMatch);
    lemma_tag_nc_mismatch(s, 0, "ENGINE"@, 0);
    assert(spec_key_identifier(s, 0, "ENGINE"@) is NoMatch);
    lemma_tag_nc_mismatch(s, 0, "INSERT_METHOD"@, 0);
    assert(spec_insert_method_type(s, 0) is NoMatch);
    lemma_tag_nc_mismatch(s, 0, "KEY_BLOCK_SIZE"@, 0);
    assert(spec_key_number(s, 0, "KEY_BLOCK_SIZE"@) is NoMatch);
    assert(!(spec_key_number(s, 0, "MAX_ROWS"@) is NoMatch));
    assert(spec_table_option_part_1b(s, 0) is NoMatch);
    assert(spec_table_option_part_1(s, 0) is NoMatch);
    assert(spec_table_option_part_2(s, 0) == Parsed::Done(s.len() as int, o));
}

#[verifier::spinoff_prover]
#[verifier::rlimit(100)]
proof fn lemma_option_text_min_rows(v: u64)
    ensures
        spec_table_option(table_option_text(TableOptionView::MinRows(v)), 0) == Parsed::Done(
            table_option_text(TableOptionView::MinRows(v)).len() as int,
            TableOptionView::MinRows(v),
        ),
{
    let o = TableOptionView::MinRows(v);
    let s = table_option_text(o);
    reveal_strlit("AUTOEXTEND_SIZE");
    reveal_strlit("AUTO_INCREMENT");
    reveal_strlit("AVG_ROW_LENGTH");
    reveal_strlit("DEFAULT ");
    reveal_strlit("CHARACTER");
    reveal_strlit("DEFAULT");
    reveal_strlit("CHARSET");
    reveal_strlit("CHECKSUM");
    reveal_strlit("DEFAULT ");
    reveal_strlit("COLLATE");
    reveal_strlit("COMMENT");
    reveal_strlit("COMPRESSION");
    reveal_strlit("CONNECTION");
    reveal_strlit("DATA");
    reveal_strlit("INDEX");
    reveal_strlit("DELAY_KEY_WRITE");
    reveal_strlit("ENCRYPTION");
    reveal_strlit("ENGINE_ATTRIBUTE");
    reveal_strlit("ENGINE");
    reveal_strlit("INSERT_METHOD");
    reveal_strlit("KEY_BLOCK_SIZE");
    reveal_strlit("MAX_ROWS");
    reveal_strlit("MIN_ROWS");
    reveal_strlit("PACK_KEYS");
    reveal_strlit("PASSWORD");
    reveal_strlit("ROW_FORMAT");
    reveal_strlit("SECONDARY_ENGINE_ATTRIBUTE");
    reveal_strlit("STATS_AUTO_RECALC");
    reveal_strlit("STATS_PERSISTENT");
    reveal_strlit("STATS_SAMPLE_PAGES");
    reveal_strlit("TABLESPACE");
    assert(s =~= "MIN_ROWS"@ + seq![' '] + nat_text(v as nat)) by { reveal_strlit("MIN_ROWS "); }
    lemma_number_to_end("MIN_ROWS"@ + seq![' '], v);
    lemma_value_start(s, Seq::empty(), "MIN_ROWS"@, nat_text(v as nat));
    assert(Seq::<char>::empty() + "MIN_ROWS"@ + seq![' '] + nat_text(v as nat) =~= s);
    reveal_with_fuel(run_end, 2);
    lemma_tag_nc_mismatch(s, 0, "AUTOEXTEND_SIZE"@, 0);
    assert(spec_key_number(s, 0, "AUTOEXTEND_SIZE"@) is NoMatch);
    lemma_tag_nc_mismatch(s, 0, "AUTO_INCREMENT"@, 0);
    assert(spec_key_number(s, 0, "AUTO_INCREMENT"@) is NoMatch);
    lemma_tag_nc_mismatch(s, 0, "AVG_ROW_LENGTH"@, 0);
    assert(spec_key_number(s, 0, "AVG_ROW_LENGTH"@) is NoMatch);
    lemma_tag_nc_mismatch(s, 0, "DEFAULT "@, 0);
    lemma_tag_nc_mismatch(s, 0, "CHARACTER"@, 0);
    assert(spec_default_character_set(s, 0) is NoMatch);
    lemma_tag_nc_mismatch(s, 0, "DEFAULT"@, 0);
    lemma_tag_nc_mismatch(s, 0, "CHARSET"@, 0);
    assert(spec_default_charset(s, 0) is NoMatch);
    lemma_tag_nc_mismatch(s, 0, "CHECKSUM"@, 0);
    assert(spec_key_zero_one(s, 0, "CHECKSUM"@) is NoMatch);
    lemma_tag_nc_mismatch(s, 0, "DEFAULT "@, 0);
    lemma_tag_nc_mismatch(s, 0, "COLLATE"@, 0);
    assert(spec_default_collate(s, 0) is NoMatch);
    lemma_tag_nc_mismatch(s, 0, "COMMENT"@, 0);
    assert(spec_key_quoted(s, 0, "COMMENT"@) is NoMatch);
    lemma_tag_nc_mismatch(s, 0, "COMPRESSION"@, 0);
    assert(spec_compression_type(s, 0) is NoMatch);
    lemma_tag_nc_mismatch(s, 0, "CONNECTION"@, 0);
    assert(spec_key_quoted(s, 0, "CONNECTION"@) is NoMatch);
    lemma_tag_nc_mismatch(s, 0, "DATA"@, 0);
    assert(spec_directory(s, 0, "DATA"@, true) is NoMatch);
    lemma_tag_nc_mismatch(s, 0, "INDEX"@, 0);
    assert(spec_directory(s, 0, "INDEX"@, false) is NoMatch);
    lemma_tag_nc_mismatch(s, 0, "DELAY_KEY_WRITE"@, 0);
    assert(spec_key_zero_one(s, 0, "DELAY_KEY_WRITE"@) is NoMatch);
    lemma_tag_nc_mismatch(s, 0, "ENCRYPTION"@, 0);
    assert(spec_encryption(s, 0) is NoMatch);
    lemma_tag_nc_mismatch(s, 0, "ENGINE_ATTRIBUTE"@, 0);
    assert(spec_key_quoted(s, 0, "ENGINE_ATTRIBUTE"@) is NoMatch);
    lemma_tag_nc_mismatch(s, 0, "ENGINE"@, 0);
    assert(spec_key_identifier(s, 0, "ENGINE"@) is NoMatch);
    lemma_tag_nc_mismatch(s, 0, "INSERT_METHOD"@, 0);
    assert(spec_insert_method_type(s, 0) is NoMatch);
    lemma_tag_nc_mismatch(s, 0, "KEY_BLOCK_SIZE"@, 0);
    assert(spec_key_number(s, 0, "KEY_BLOCK_SIZE"@) is NoMatch);
    lemma_tag_nc_mismatch(s, 0, "MAX_ROWS"@, 1);
    assert(spec_key_number(s, 0, "MAX_ROWS"@) is NoMatch);
    assert(!(spec_key_number(s, 0, "MIN_ROWS"@) is NoMatch));
    assert(spec_table_option_part_1b(s, 0) is NoMatch);
    assert(spec_table_option_part_1(s, 0) is NoMatch);
    assert(spec_table_option_part_2(s, 0) == Parsed::Done(s.len() as int, o));
}

#[verifier::spinoff_prover]
#[verifier::rlimit(100)]
proof fn lemma_option_text_pack_keys(v: DefaultOrZeroOrOne)
    ensures
        spec_table_option(table_option_text(TableOptionView::PackKeys(v)), 0) == Parsed::Done(
            table_option_text(TableOptionView::PackKeys(v)).len() as int,
            TableOptionView::PackKeys(v),
        ),
{
    let o = TableOptionView::PackKeys(v);
    let s = table_option_text(o);
    reveal_strlit("AUTOEXTEND_SIZE");
    reveal_strlit("AUTO_INCREMENT");
    reveal_strlit("AVG_ROW_LENGTH");
    reveal_strlit("DEFAULT ");
    reveal_strlit("CHARACTER");
    reveal_strlit("DEFAULT");
    reveal_strlit("CHARSET");
    reveal_strlit("CHECKSUM");
    reveal_strlit("DEFAULT ");
    reveal_strlit("COLLATE");
    reveal_strlit("COMMENT");
    reveal_strlit("COMPRESSION");
    reveal_strlit("CONNECTION");
    reveal_strlit("DATA");
    reveal_strlit("INDEX");
    reveal_strlit("DELAY_KEY_WRITE");
    reveal_strlit("ENCRYPTION");
    reveal_strlit("ENGINE_ATTRIBUTE");
    reveal_strlit("ENGINE");
    reveal_strlit("INSERT_METHOD");
    reveal_strlit("KEY_BLOCK_SIZE");
    reveal_strlit("MAX_ROWS");
    reveal_strlit("MIN_ROWS");
    reveal_strlit("PACK_KEYS");
    reveal_strlit("PASSWORD");
    reveal_strlit("ROW_FORMAT");
    reveal_strlit("SECONDARY_ENGINE_ATTRIBUTE");
    reveal_strlit("STATS_AUTO_RECALC");
    reveal_strlit("STATS_PERSISTENT");
    reveal_strlit("STATS_SAMPLE_PAGES");
    reveal_strlit("TABLESPACE");
    assert(s =~= "PACK_KEYS"@ + seq![' '] + default_or_zero_or_one_text(v)) by { reveal_strlit("PACK_KEYS "); }
    reveal_strlit("0"); reveal_strlit("1"); reveal_strlit("DEFAULT");
    lemma_value_start(s, Seq::empty(), "PACK_KEYS"@, default_or_zero_or_one_text(v));
    assert(Seq::<char>::empty() + "PACK_KEYS"@ + seq![' '] + default_or_zero_or_one_text(v) =~= s);
    match v {
        DefaultOrZeroOrOne::Zero => { assert(s.subrange(10, 11) =~= "0"@); lemma_tag_nc_of_eq(s, 10, "0"@); },
        DefaultOrZeroOrOne::One => { lemma_tag_nc_mismatch(s, 10, "0"@, 0); assert(s.subrange(10, 11) =~= "1"@); lemma_tag_nc_of_eq(s, 10, "1"@); },
        DefaultOrZeroOrOne::Default => { lemma_tag_nc_mismatch(s, 10, "0"@, 0); lemma_tag_nc_mismatch(s, 10, "1"@, 0); assert(s.subrange(10, 17) =~= "DEFAULT"@); lemma_tag_nc_of_eq(s, 10, "DEFAULT"@); },
    }
    reveal_with_fuel(run_end, 2);
    lemma_tag_nc_mismatch(s, 0, "AUTOEXTEND_SIZE"@, 0);
    assert(spec_key_number(s, 0, "AUTOEXTEND_SIZE"@) is NoMatch);
    lemma_tag_nc_mismatch(s, 0, "AUTO_INCREMENT"@, 0);
    assert(spec_key_number(s, 0, "AUTO_INCREMENT"@) is NoMatch);
    lemma_tag_nc_mismatch(s, 0, "AVG_ROW_LENGTH"@, 0);
    assert(spec_key_number(s, 0, "AVG_ROW_LENGTH"@) is NoMatch);
    lemma_tag_nc_mismatch(s, 0, "DEFAULT "@, 0);
    lemma_tag_nc_mismatch(s, 0, "CHARACTER"@, 0);
    assert(spec_default_character_set(s, 0) is NoMatch);
    lemma_tag_nc_mismatch(s, 0, "DEFAULT"@, 0);
    lemma_tag_nc_mismatch(s, 0, "CHARSET"@, 0);
    assert(spec_default_charset(s, 0) is NoMatch);
    lemma_tag_nc_mismatch(s, 0, "CHECKSUM"@, 0);
    assert(spec_key_zero_one(s, 0, "CHECKSUM"@) is NoMatch);
    lemma_tag_nc_mismatch(s, 0, "DEFAULT "@, 0);
    lemma_tag_nc_mismatch(s, 0, "COLLATE"@, 0);
    assert(spec_default_collate(s, 0) is NoMatch);
    lemma_tag_nc_mismatch(s, 0, "COMMENT"@, 0);
    assert(spec_key_quoted(s, 0, "COMMENT"@) is NoMatch);
    lemma_tag_nc_mismatch(s, 0, "COMPRESSION"@, 0);
    assert(spec_compression_type(s, 0) is NoMatch);
    lemma_tag_nc_mismatch(s, 0, "CONNECTION"@, 0);
    assert(spec_key_quoted(s, 0, "CONNECTION"@) is NoMatch);
    lemma_tag_nc_mismatch(s, 0, "DATA"@, 0);
    assert(spec_directory(s, 0, "DATA"@, true) is NoMatch);
    lemma_tag_nc_mismatch(s, 0, "INDEX"@, 0);
    assert(spec_directory(s, 0, "INDEX"@, false) is NoMatch);
    lemma_tag_nc_mismatch(s, 0, "DELAY_KEY_WRITE"@, 0);
    assert(spec_key_zero_one(s, 0, "DELAY_KEY_WRITE"@) is NoMatch);
    lemma_tag_nc_mismatch(s, 0, "ENCRYPTION"@, 0);
    assert(spec_encryption(s, 0) is NoMatch);
    lemma_tag_nc_mismatch(s, 0, "ENGINE_ATTRIBUTE"@, 0);
    assert(spec_key_quoted(s, 0, "ENGINE_ATTRIBUTE"@) is NoMatch);
    lemma_tag_nc_mismatch(s, 0, "ENGINE"@, 0);
    assert(spec_key_identifier(s, 0, "ENGINE"@) is NoMatch);
    lemma_tag_nc_mismatch(s, 0, "INSERT_METHOD"@, 0);
    assert(spec_insert_method_type(s, 0) is NoMatch);
    lemma_tag_nc_mismatch(s, 0, "KEY_BLOCK_SIZE"@, 0);
    assert(spec_key_number(s, 0, "KEY_BLOCK_SIZE"@) is NoMatch);
    lemma_tag_nc_mismatch(s, 0, "MAX_ROWS"@, 0);
    assert(spec_key_number(s, 0, "MAX_ROWS"@) is NoMatch);
    lemma_tag_nc_mismatch(s, 0, "MIN_ROWS"@, 0);
    assert(spec_key_number(s, 0, "MIN_ROWS"@) is NoMatch);
    assert(!(spec_key_default_zero_one(s, 0, "PACK_KEYS"@) is NoMatch));
    assert(spec_table_option_part_1b(s, 0) is NoMatch);
    assert(spec_table_option_part_1(s, 0) is NoMatch);
    assert(spec_table_option_part_2(s, 0) == Parsed::Done(s.len() as int, o));
}

#[verifier::spinoff_prover]
#[verifier::rlimit(100)]
proof fn lemma_option_text_password(v: Seq<char>)
    requires
        quote_free(v),
    ensures
        spec_table_option(table_option_text(TableOptionView::Password(v)), 0) == Parsed::Done(
            table_option_text(TableOptionView::Password(v)).len() as int,
            TableOptionView::Password(v),
        ),
{
    let o = TableOptionView::Password(v);
    let s = table_option_text(o);
    reveal_strlit("AUTOEXTEND_SIZE");
    reveal_strlit("AUTO_INCREMENT");
    reveal_strlit("AVG_ROW_LENGTH");
    reveal_strlit("DEFAULT ");
    reveal_strlit("CHARACTER");
    reveal_strlit("DEFAULT");
    reveal_strlit("CHARSET");
    reveal_strlit("CHECKSUM");
    reveal_strlit("DEFAULT ");
    reveal_strlit("COLLATE");
    reveal_strlit("COMMENT");
    reveal_strlit("COMPRESSION");
    reveal_strlit("CONNECTION");
    reveal_strlit("DATA");
    reveal_strlit("INDEX");
    reveal_strlit("DELAY_KEY_WRITE");
    reveal_strlit("ENCRYPTION");
    reveal_strlit("ENGINE_ATTRIBUTE");
    reveal_strlit("ENGINE");
    reveal_strlit("INSERT_METHOD");
    reveal_strlit("KEY_BLOCK_SIZE");
    reveal_strlit("MAX_ROWS");
    reveal_strlit("MIN_ROWS");
    reveal_strlit("PACK_KEYS");
    reveal_strlit("PASSWORD");
    reveal_strlit("ROW_FORMAT");
    reveal_strlit("SECONDARY_ENGINE_ATTRIBUTE");
    reveal_strlit("STATS_AUTO_RECALC");
    reveal_strlit("STATS_PERSISTENT");
    reveal_strlit("STATS_SAMPLE_PAGES");
    reveal_strlit("TABLESPACE");
    assert(s =~= "PASSWORD"@ + seq![' '] + seq!['\''] + v + seq!['\'']) by { reveal_strlit("PASSWORD '"); reveal_strlit("'"); }
    lemma_quoted_to_end("PASSWORD"@ + seq![' '], v);
    assert(Seq::<char>::empty() + "PASSWORD"@ + seq![' '] + (seq!['\''] + v + seq!['\'']) =~= s);
    lemma_value_start(s, Seq::empty(), "PASSWORD"@, seq!['\''] + v + seq!['\'']);
    reveal_with_fuel(run_end, 2);
    lemma_tag_nc_mismatch(s, 0, "AUTOEXTEND_SIZE"@, 0);
    assert(spec_key_number(s, 0, "AUTOEXTEND_SIZE"@) is NoMatch);
    lemma_tag_nc_mismatch(s, 0, "AUTO_INCREMENT"@, 0);
    assert(spec_key_number(s, 0, "AUTO_INCREMENT"@) is NoMatch);
    lemma_tag_nc_mismatch(s, 0, "AVG_ROW_LENGTH"@, 0);
    assert(spec_key_number(s, 0, "AVG_ROW_LENGTH"@) is NoMatch);
    lemma_tag_nc_mismatch(s, 0, "DEFAULT "@, 0);
    lemma_tag_nc_mismatch(s, 0, "CHARACTER"@, 0);
    assert(spec_default_character_set(s, 0) is NoMatch);
    lemma_tag_nc_mismatch(s, 0, "DEFAULT"@, 0);
    lemma_tag_nc_mismatch(s, 0, "CHARSET"@, 0);
    assert(spec_default_charset(s, 0) is NoMatch);
    lemma_tag_nc_mismatch(s, 0, "CHECKSUM"@, 0);
    assert(spec_key_zero_one(s, 0, "CHECKSUM"@) is NoMatch);
    lemma_tag_nc_mismatch(s, 0, "DEFAULT "@, 0);
    lemma_tag_nc_mismatch(s, 0, "COLLATE"@, 0);
    assert(spec_default_collate(s, 0) is NoMatch);
    lemma_tag_nc_mismatch(s, 0, "COMMENT"@, 0);
    assert(spec_key_quoted(s, 0, "COMMENT"@) is NoMatch);
    lemma_tag_nc_mismatch(s, 0, "COMPRESSION"@, 0);
    assert(spec_compression_type(s, 0) is NoMatch);
    lemma_tag_nc_mismatch(s, 0, "CONNECTION"@, 0);
    assert(spec_key_quoted(s, 0, "CONNECTION"@) is NoMatch);
    lemma_tag_nc_mismatch(s, 0, "DATA"@, 0);
    assert(spec_directory(s, 0, "DATA"@, true) is NoMatch);
    lemma_tag_nc_mismatch(s, 0, "INDEX"@, 0);
    assert(spec_directory(s, 0, "INDEX"@, false) is NoMatch);
    lemma_tag_nc_mismatch(s, 0, "DELAY_KEY_WRITE"@, 0);
    assert(spec_key_zero_one(s, 0, "DELAY_KEY_WRITE"@) is NoMatch);
    lemma_tag_nc_mismatch(s, 0, "ENCRYPTION"@, 0);
    assert(spec_encryption(s, 0) is NoMatch);
    lemma_tag_nc_mismatch(s, 0, "ENGINE_ATTRIBUTE"@, 0);
    assert(spec_key_quoted(s, 0, "ENGINE_ATTRIBUTE"@) is NoMatch);
    lemma_tag_nc_mismatch(s, 0, "ENGINE"@, 0);
    assert(spec_key_identifier(s, 0, "ENGINE"@) is NoMatch);
    lemma_tag_nc_mismatch(s, 0, "INSERT_METHOD"@, 0);
    assert(spec_insert_method_type(s, 0) is NoMatch);
    lemma_tag_nc_mismatch(s, 0, "KEY_BLOCK_SIZE"@, 0);
    assert(spec_key_number(s, 0, "KEY_BLOCK_SIZE"@) is NoMatch);
    lemma_tag_nc_mismatch(s, 0, "MAX_ROWS"@, 0);
    assert(spec_key_number(s, 0, "MAX_ROWS"@) is NoMatch);
    lemma_tag_nc_mismatch(s, 0, "MIN_ROWS"@, 0);
    assert(spec_key_number(s, 0, "MIN_ROWS"@) is NoMatch);
    lemma_tag_nc_mismatch(s, 0, "PACK_KEYS"@, 2);
    assert(spec_key_default_zero_one(s, 0, "PACK_KEYS"@) is NoMatch);
    assert(!(spec_key_quoted(s, 0, "PASSWORD"@) is NoMatch));
    assert(spec_table_option_part_1b(s, 0) is NoMatch);
    assert(spec_table_option_part_1(s, 0) is NoMatch);
    assert(spec_table_option_part_2(s, 0) == Parsed::Done(s.len() as int, o));
}

#[verifier::spinoff_prover]
#[verifier::rlimit(100)]
proof fn lemma_option_text_row_format(v: RowFormatType)
    ensures
        spec_table_option(table_option_text(TableOptionView::RowFormat(v)), 0) == Parsed::Done(
            table_option_text(TableOptionView::RowFormat(v)).len() as int,
            TableOptionView::RowFormat(v),
        ),
{
    let o = TableOptionView::RowFormat(v);
    let s = table_option_text(o);
    reveal_strlit("AUTOEXTEND_SIZE");
    reveal_strlit("AUTO_INCREMENT");
    reveal_strlit("AVG_ROW_LENGTH");
    reveal_strlit("DEFAULT ");
    reveal_strlit("CHARACTER");
    reveal_strlit("DEFAULT");
    reveal_strlit("CHARSET");
    reveal_strlit("CHECKSUM");
    reveal_strlit("DEFAULT ");
    reveal_strlit("COLLATE");
    reveal_strlit("COMMENT");
    reveal_strlit("COMPRESSION");
    reveal_strlit("CONNECTION");
    reveal_strlit("DATA");
    reveal_strlit("INDEX");
    reveal_strlit("DELAY_KEY_WRITE");
    reveal_strlit("ENCRYPTION");
    reveal_strlit("ENGINE_ATTRIBUTE");
    reveal_strlit("ENGINE");
    reveal_strlit("INSERT_METHOD");
    reveal_strlit("KEY_BLOCK_SIZE");
    reveal_strlit("MAX_ROWS");
    reveal_strlit("MIN_ROWS");
    reveal_strlit("PACK_KEYS");
    reveal_strlit("PASSWORD");
    reveal_strlit("ROW_FORMAT");
    reveal_strlit("SECONDARY_ENGINE_ATTRIBUTE");
    reveal_strlit("STATS_AUTO_RECALC");
    reveal_strlit("STATS_PERSISTENT");
    reveal_strlit("STATS_SAMPLE_PAGES");
    reveal_strlit("TABLESPACE");
    lemma_row_format_type_round_trip(v);
    assert(s.subrange(0, 11) =~= seq!['R', 'O', 'W', '_', 'F', 'O', 'R', 'M', 'A', 'T', ' ']) by { reveal_strlit("ROW_FORMAT DEFAULT"); reveal_strlit("ROW_FORMAT DYNAMIC"); reveal_strlit("ROW_FORMAT FIXED"); reveal_strlit("ROW_FORMAT COMPRESSED"); reveal_strlit("ROW_FORMAT REDUNDANT"); reveal_strlit("ROW_FORMAT COMPACT"); }
    assert(s.len() >= 11) by { reveal_strlit("ROW_FORMAT DEFAULT"); reveal_strlit("ROW_FORMAT DYNAMIC"); reveal_strlit("ROW_FORMAT FIXED"); reveal_strlit("ROW_FORMAT COMPRESSED"); reveal_strlit("ROW_FORMAT REDUNDANT"); reveal_strlit("ROW_FORMAT COMPACT"); }
    assert(s.subrange(0, 11)[0] == s[0]);
    assert(s.subrange(0, 11)[1] == s[1]);
    assert(s.subrange(0, 11)[2] == s[2]);
    assert(s.subrange(0, 11)[3] == s[3]);
    assert(s.subrange(0, 11)[4] == s[4]);
    assert(s.subrange(0, 11)[5] == s[5]);
    assert(s.subrange(0, 11)[6] == s[6]);
    assert(s.subrange(0, 11)[7] == s[7]);
    assert(s.subrange(0, 11)[8] == s[8]);
    assert(s.subrange(0, 11)[9] == s[9]);
    assert(s.subrange(0, 11)[10] == s[10]);
    reveal_with_fuel(run_end, 2);
    lemma_tag_nc_mismatch(s, 0, "AUTOEXTEND_SIZE"@, 0);
    assert(spec_key_number(s, 0, "AUTOEXTEND_SIZE"@) is NoMatch);
    lemma_tag_nc_mismatch(s, 0, "AUTO_INCREMENT"@, 0);
    assert(spec_key_number(s, 0, "AUTO_INCREMENT"@) is NoMatch);
    lemma_tag_nc_mismatch(s, 0, "AVG_ROW_LENGTH"@, 0);
    assert(spec_key_number(s, 0, "AVG_ROW_LENGTH"@) is NoMatch);
    lemma_tag_nc_mismatch(s, 0, "DEFAULT "@, 0);
    lemma_tag_nc_mismatch(s, 0, "CHARACTER"@, 0);
    assert(spec_default_character_set(s, 0) is NoMatch);
    lemma_tag_nc_mismatch(s, 0, "DEFAULT"@, 0);
    lemma_tag_nc_mismatch(s, 0, "CHARSET"@, 0);
    assert(spec_default_charset(s, 0) is NoMatch);
    lemma_tag_nc_mismatch(s, 0, "CHECKSUM"@, 0);
    assert(spec_key_zero_one(s, 0, "CHECKSUM"@) is NoMatch);
    lemma_tag_nc_mismatch(s, 0, "DEFAULT "@, 0);
    lemma_tag_nc_mismatch(s, 0, "COLLATE"@, 0);
    assert(spec_default_collate(s, 0) is NoMatch);
    lemma_tag_nc_mismatch(s, 0, "COMMENT"@, 0);
    assert(spec_key_quoted(s, 0, "COMMENT"@) is NoMatch);
    lemma_tag_nc_mismatch(s, 0, "COMPRESSION"@, 0);
    assert(spec_compression_type(s, 0) is NoMatch);
    lemma_tag_nc_mismatch(s, 0, "CONNECTION"@, 0);
    assert(spec_key_quoted(s, 0, "CONNECTION"@) is NoMatch);
    lemma_tag_nc_mismatch(s, 0, "DATA"@, 0);
    assert(spec_directory(s, 0, "DATA"@, true) is NoMatch);
    lemma_tag_nc_mismatch(s, 0, "INDEX"@, 0);
    assert(spec_directory(s, 0, "INDEX"@, false) is NoMatch);
    lemma_tag_nc_mismatch(s, 0, "DELAY_KEY_WRITE"@, 0);
    assert(spec_key_zero_one(s, 0, "DELAY_KEY_WRITE"@) is NoMatch);
    lemma_tag_nc_mismatch(s, 0, "ENCRYPTION"@, 0);
    assert(spec_encryption(s, 0) is NoMatch);
    lemma_tag_nc_mismatch(s, 0, "ENGINE_ATTRIBUTE"@, 0);
    assert(spec_key_quoted(s, 0, "ENGINE_ATTRIBUTE"@) is NoMatch);
    lemma_tag_nc_mismatch(s, 0, "ENGINE"@, 0);
    assert(spec_key_identifier(s, 0, "ENGINE"@) is NoMatch);
    lemma_tag_nc_mismatch(s, 0, "INSERT_METHOD"@, 0);
    assert(spec_insert_method_type(s, 0) is NoMatch);
    lemma_tag_nc_mismatch(s, 0, "KEY_BLOCK_SIZE"@, 0);
    assert(spec_key_number(s, 0, "KEY_BLOCK_SIZE"@) is NoMatch);
    lemma_tag_nc_mismatch(s, 0, "MAX_ROWS"@, 0);
    assert(spec_key_number(s, 0, "MAX_ROWS"@) is NoMatch);
    lemma_tag_nc_mismatch(s, 0, "MIN_ROWS"@, 0);
    assert(spec_key_number(s, 0, "MIN_ROWS"@) is NoMatch);
    lemma_tag_nc_mismatch(s, 0, "PACK_KEYS"@, 0);
    assert(spec_key_default_zero_one(s, 0, "PACK_KEYS"@) is NoMatch);
    lemma_tag_nc_mismatch(s, 0, "PASSWORD"@, 0);
    assert(spec_key_quoted(s, 0, "PASSWORD"@) is NoMatch);
    assert(!(spec_row_format_type(s, 0) is NoMatch));
    assert(spec_table_option_part_1b(s, 0) is NoMatch);
    assert(spec_table_option_part_1(s, 0) is NoMatch);
    assert(spec_table_option_part_2b(s, 0) == Parsed::Done(s.len() as int, o));
    assert(spec_table_option_part_2(s, 0) == Parsed::Done(s.len() as int, o));
}

#[verifier::spinoff_prover]
#[verifier::rlimit(100)]
proof fn lemma_option_text_secondary_engine_attribute(v: Seq<char>)
    requires
        quote_free(v),
    ensures
        spec_table_option(table_option_text(TableOptionView::SecondaryEngineAttribute(v)), 0) == Parsed::Done(
            table_option_text(TableOptionView::SecondaryEngineAttribute(v)).len() as int,
            TableOptionView::SecondaryEngineAttribute(v),
        ),
{
    let o = TableOptionView::SecondaryEngineAttribute(v);
    let s = table_option_text(o);
    reveal_strlit("AUTOEXTEND_SIZE");
    reveal_strlit("AUTO_INCREMENT");
    reveal_strlit("AVG_ROW_LENGTH");
    reveal_strlit("DEFAULT ");
    reveal_strlit("CHARACTER");
    reveal_strlit("DEFAULT");
    reveal_strlit("CHARSET");
    reveal_strlit("CHECKSUM");
    reveal_strlit("DEFAULT ");
    reveal_strlit("COLLATE");
    reveal_strlit("COMMENT");
    reveal_strlit("COMPRESSION");
    reveal_strlit("CONNECTION");
    reveal_strlit("DATA");
    reveal_strlit("INDEX");
    reveal_strlit("DELAY_KEY_WRITE");
    reveal_strlit("ENCRYPTION");
    reveal_strlit("ENGINE_ATTRIBUTE");
    reveal_strlit("ENGINE");
    reveal_strlit("INSERT_METHOD");
    reveal_strlit("KEY_BLOCK_SIZE");
    reveal_strlit("MAX_ROWS");
    reveal_strlit("MIN_ROWS");
    reveal_strlit("PACK_KEYS");
    reveal_strlit("PASSWORD");
    reveal_strlit("ROW_FORMAT");
    reveal_strlit("SECONDARY_ENGINE_ATTRIBUTE");
    reveal_strlit("STATS_AUTO_RECALC");
    reveal_strlit("STATS_PERSISTENT");
    reveal_strlit("STATS_SAMPLE_PAGES");
    reveal_strlit("TABLESPACE");
    assert(s =~= "SECONDARY_ENGINE_ATTRIBUTE"@ + seq![' '] + seq!['\''] + v + seq!['\'']) by { reveal_strlit("SECONDARY_ENGINE_ATTRIBUTE '"); reveal_strlit("'"); }
    lemma_quoted_to_end("SECONDARY_ENGINE_ATTRIBUTE"@ + seq![' '], v);
    assert(Seq::<char>::empty() + "SECONDARY_ENGINE_ATTRIBUTE"@ + seq![' '] + (seq!['\''] + v + seq!['\'']) =~= s);
    lemma_value_start(s, Seq::empty(), "SECONDARY_ENGINE_ATTRIBUTE"@, seq!['\''] + v + seq!['\'']);
    reveal_with_fuel(run_end, 2);
    lemma_tag_nc_mismatch(s, 0, "AUTOEXTEND_SIZE"@, 0);
    assert(spec_key_number(s, 0, "AUTOEXTEND_SIZE"@) is NoMatch);
    lemma_tag_nc_mismatch(s, 0, "AUTO_INCREMENT"@, 0);
    assert(spec_key_number(s, 0, "AUTO_INCREMENT"@) is NoMatch);
    lemma_tag_nc_mismatch(s, 0, "AVG_ROW_LENGTH"@, 0);
    assert(spec_key_number(s, 0, "AVG_ROW_LENGTH"@) is NoMatch);
    lemma_tag_nc_mismatch(s, 0, "DEFAULT "@, 0);
    lemma_tag_nc_mismatch(s, 0, "CHARACTER"@, 0);
    assert(spec_default_character_set(s, 0) is NoMatch);
    lemma_tag_nc_mismatch(s, 0, "DEFAULT"@, 0);
    lemma_tag_nc_mismatch(s, 0, "CHARSET"@, 0);
    assert(spec_default_charset(s, 0) is NoMatch);
    lemma_tag_nc_mismatch(s, 0, "CHECKSUM"@, 0);
    assert(spec_key_zero_one(s, 0, "CHECKSUM"@) is NoMatch);
    lemma_tag_nc_mismatch(s, 0, "DEFAULT "@, 0);
    lemma_tag_nc_mismatch(s, 0, "COLLATE"@, 0);
    assert(spec_default_collate(s, 0) is NoMatch);
    lemma_tag_nc_mismatch(s, 0, "COMMENT"@, 0);
    assert(spec_key_quoted(s, 0, "COMMENT"@) is NoMatch);
    lemma_tag_nc_mismatch(s, 0, "COMPRESSION"@, 0);
    assert(spec_compression_type(s, 0) is NoMatch);
    lemma_tag_nc_mismatch(s, 0, "CONNECTION"@, 0);
    assert(spec_key_quoted(s, 0, "CONNECTION"@) is NoMatch);
    lemma_tag_nc_mismatch(s, 0, "DATA"@, 0);
    assert(spec_directory(s, 0, "DATA"@, true) is NoMatch);
    lemma_tag_nc_mismatch(s, 0, "INDEX"@, 0);
    assert(spec_directory(s, 0, "INDEX"@, false) is NoMatch);
    lemma_tag_nc_mismatch(s, 0, "DELAY_KEY_WRITE"@, 0);
    assert(spec_key_zero_one(s, 0, "DELAY_KEY_WRITE"@) is NoMatch);
    lemma_tag_nc_mismatch(s, 0, "ENCRYPTION"@, 0);
    assert(spec_encryption(s, 0) is NoMatch);
    lemma_tag_nc_mismatch(s, 0, "ENGINE_ATTRIBUTE"@, 0);
    assert(spec_key_quoted(s, 0, "ENGINE_ATTRIBUTE"@) is NoMatch);
    lemma_tag_nc_mismatch(s, 0, "ENGINE"@, 0);
    assert(spec_key_identifier(s, 0, "ENGINE"@) is NoMatch);
    lemma_tag_nc_mismatch(s, 0, "INSERT_METHOD"@, 0);
    assert(spec_insert_method_type(s, 0) is NoMatch);
    lemma_tag_nc_mismatch(s, 0, "KEY_BLOCK_SIZE"@, 0);
    assert(spec_key_number(s, 0, "KEY_BLOCK_SIZE"@) is NoMatch);
    lemma_tag_nc_mismatch(s, 0, "MAX_ROWS"@, 0);
    assert(spec_key_number(s, 0, "MAX_ROWS"@) is NoMatch);
    lemma_tag_nc_mismatch(s, 0, "MIN_ROWS"@, 0);
    assert(spec_key_number(s, 0, "MIN_ROWS"@) is NoMatch);
    lemma_tag_nc_mismatch(s, 0, "PACK_KEYS"@, 0);
    assert(spec_key_default_zero_one(s, 0, "PACK_KEYS"@) is NoMatch);
    lemma_tag_nc_mismatch(s, 0, "PASSWORD"@, 0);
    assert(spec_key_quoted(s, 0, "PASSWORD"@) is NoMatch);
    lemma_tag_nc_mismatch(s, 0, "ROW_FORMAT"@, 0);
    assert(spec_row_format_type(s, 0) is NoMatch);
    assert(!(spec_key_quoted(s, 0, "SECONDARY_ENGINE_ATTRIBUTE"@) is NoMatch));
    assert(spec_table_option_part_1b(s, 0) is NoMatch);
    assert(spec_table_option_part_1(s, 0) is NoMatch);
    assert(spec_table_option_part_2b(s, 0) == Parsed::Done(s.len() as int, o));
    assert(spec_table_option_part_2(s, 0) == Parsed::Done(s.len() as int, o));
}

#[verifier::spinoff_prover]
#[verifier::rlimit(100)]
proof fn lemma_option_text_stats_auto_recalc(v: DefaultOrZeroOrOne)
    ensures
        spec_table_option(table_option_text(TableOptionView::StatsAutoRecalc(v)), 0) == Parsed::Done(
            table_option_text(TableOptionView::StatsAutoRecalc(v)).len() as int,
            TableOptionView::StatsAutoRecalc(v),
        ),
{
    let o = TableOptionView::StatsAutoRecalc(v);
    let s = table_option_text(o);
    reveal_strlit("AUTOEXTEND_SIZE");
    reveal_strlit("AUTO_INCREMENT");
    reveal_strlit("AVG_ROW_LENGTH");
    reveal_strlit("DEFAULT ");
    reveal_strlit("CHARACTER");
    reveal_strlit("DEFAULT");
    reveal_strlit("CHARSET");
    reveal_strlit("CHECKSUM");
    reveal_strlit("DEFAULT ");
    reveal_strlit("COLLATE");
    reveal_strlit("COMMENT");
    reveal_strlit("COMPRESSION");
    reveal_strlit("CONNECTION");
    reveal_strlit("DATA");
    reveal_strlit("INDEX");
    reveal_strlit("DELAY_KEY_WRITE");
    reveal_strlit("ENCRYPTION");
    reveal_strlit("ENGINE_ATTRIBUTE");
    reveal_strlit("ENGINE");
    reveal_strlit("INSERT_METHOD");
    reveal_strlit("KEY_BLOCK_SIZE");
    reveal_strlit("MAX_ROWS");
    reveal_strlit("MIN_ROWS");
    reveal_strlit("PACK_KEYS");
    reveal_strlit("PASSWORD");
    reveal_strlit("ROW_FORMAT");
    reveal_strlit("SECONDARY_ENGINE_ATTRIBUTE");
    reveal_strlit("STATS_AUTO_RECALC");
    reveal_strlit("STATS_PERSISTENT");
    reveal_strlit("STATS_SAMPLE_PAGES");
    reveal_strlit("TABLESPACE");
    assert(s =~= "STATS_AUTO_RECALC"@ + seq![' '] + default_or_zero_or_one_text(v)) by { reveal_strlit("STATS_AUTO_RECALC "); }
    reveal_strlit("0"); reveal_strlit("1"); reveal_strlit("DEFAULT");
    lemma_value_start(s, Seq::empty(), "STATS_AUTO_RECALC"@, default_or_zero_or_one_text(v));
    assert(Seq::<char>::empty() + "STATS_AUTO_RECALC"@ + seq![' '] + default_or_zero_or_one_text(v) =~= s);
    match v {
        DefaultOrZeroOrOne::Zero => { assert(s.subrange(18, 19) =~= "0"@); lemma_tag_nc_of_eq(s, 18, "0"@); },
        DefaultOrZeroOrOne::One => { lemma_tag_nc_mismatch(s, 18, "0"@, 0); assert(s.subrange(18, 19) =~= "1"@); lemma_tag_nc_of_eq(s, 18, "1"@); },
        DefaultOrZeroOrOne::Default => { lemma_tag_nc_mismatch(s, 18, "0"@, 0); lemma_tag_nc_mismatch(s, 18, "1"@, 0); assert(s.subrange(18, 25) =~= "DEFAULT"@); lemma_tag_nc_of_eq(s, 18, "DEFAULT"@); },
    }
    reveal_with_fuel(run_end, 2);
    lemma_tag_nc_mismatch(s, 0, "AUTOEXTEND_SIZE"@, 0);
    assert(spec_key_number(s, 0, "AUTOEXTEND_SIZE"@) is NoMatch);
    lemma_tag_nc_mismatch(s, 0, "AUTO_INCREMENT"@, 0);
    assert(spec_key_number(s, 0, "AUTO_INCREMENT"@) is NoMatch);
    lemma_tag_nc_mismatch(s, 0, "AVG_ROW_LENGTH"@, 0);
    assert(spec_key_number(s, 0, "AVG_ROW_LENGTH"@) is NoMatch);
    lemma_tag_nc_mismatch(s, 0, "DEFAULT "@, 0);
    lemma_tag_nc_mismatch(s, 0, "CHARACTER"@, 0);
    assert(spec_default_character_set(s, 0) is NoMatch);
    lemma_tag_nc_mismatch(s, 0, "DEFAULT"@, 0);
    lemma_tag_nc_mismatch(s, 0, "CHARSET"@, 0);
    assert(spec_default_charset(s, 0) is NoMatch);
    lemma_tag_nc_mismatch(s, 0, "CHECKSUM"@, 0);
    assert(spec_key_zero_one(s, 0, "CHECKSUM"@) is NoMatch);
    lemma_tag_nc_mismatch(s, 0, "DEFAULT "@, 0);
    lemma_tag_nc_mismatch(s, 0, "COLLATE"@, 0);
    assert(spec_default_collate(s, 0) is NoMatch);
    lemma_tag_nc_mismatch(s, 0, "COMMENT"@, 0);
    assert(spec_key_quoted(s, 0, "COMMENT"@) is NoMatch);
    lemma_tag_nc_mismatch(s, 0, "COMPRESSION"@, 0);
    assert(spec_compression_type(s, 0) is NoMatch);
    lemma_tag_nc_mismatch(s, 0, "CONNECTION"@, 0);
    assert(spec_key_quoted(s, 0, "CONNECTION"@) is NoMatch);
    lemma_tag_nc_mismatch(s, 0, "DATA"@, 0);
    assert(spec_directory(s, 0, "DATA"@, true) is NoMatch);
    lemma_tag_nc_mismatch(s, 0, "INDEX"@, 0);
    assert(spec_directory(s, 0, "INDEX"@, false) is NoMatch);
    lemma_tag_nc_mismatch(s, 0, "DELAY_KEY_WRITE"@, 0);
    assert(spec_key_zero_one(s, 0, "DELAY_KEY_WRITE"@) is NoMatch);
    lemma_tag_nc_mismatch(s, 0, "ENCRYPTION"@, 0);
    assert(spec_encryption(s, 0) is NoMatch);
    lemma_tag_nc_mismatch(s, 0, "ENGINE_ATTRIBUTE"@, 0);
    assert(spec_key_quoted(s, 0, "ENGINE_ATTRIBUTE"@) is NoMatch);
    lemma_tag_nc_mismatch(s, 0, "ENGINE"@, 0);
    assert(spec_key_identifier(s, 0, "ENGINE"@) is NoMatch);
    lemma_tag_nc_mismatch(s, 0, "INSERT_METHOD"@, 0);
    assert(spec_insert_method_type(s, 0) is NoMatch);
    lemma_tag_nc_mismatch(s, 0, "KEY_BLOCK_SIZE"@, 0);
    assert(spec_key_number(s, 0, "KEY_BLOCK_SIZE"@) is NoMatch);
    lemma_tag_nc_mismatch(s, 0, "MAX_ROWS"@, 0);
    assert(spec_key_number(s, 0, "MAX_ROWS"@) is NoMatch);
    lemma_tag_nc_mismatch(s, 0, "MIN_ROWS"@, 0);
    assert(spec_key_number(s, 0, "MIN_ROWS"@) is NoMatch);
    lemma_tag_nc_mismatch(s, 0, "PACK_KEYS"@, 0);
    assert(spec_key_default_zero_one(s, 0, "PACK_KEYS"@) is NoMatch);
    lemma_tag_nc_mismatch(s, 0, "PASSWORD"@, 0);
    assert(spec_key_quoted(s, 0, "PASSWORD"@) is NoMatch);
    lemma_tag_nc_mismatch(s, 0, "ROW_FORMAT"@, 0);
    assert(spec_row_format_type(s, 0) is NoMatch);
    lemma_tag_nc_mismatch(s, 0, "SECONDARY_ENGINE_ATTRIBUTE"@, 1);
    assert(spec_key_quoted(s, 0, "SECONDARY_ENGINE_ATTRIBUTE"@) is NoMatch);
    assert(!(spec_key_default_zero_one(s, 0, "STATS_AUTO_RECALC"@) is NoMatch));
    assert(spec_table_option_part_1b(s, 0) is NoMatch);
    assert(spec_table_option_part_1(s, 0) is NoMatch);
    assert(spec_table_option_part_2b(s, 0) == Parsed::Done(s.len() as int, o));
    assert(spec_table_option_part_2(s, 0) == Parsed::Done(s.len() as int, o));
}

#[verifier::spinoff_prover]
#[verifier::rlimit(100)]
proof fn lemma_option_text_stats_persistent(v: DefaultOrZeroOrOne)
    ensures
        spec_table_option(table_option_text(TableOptionView::StatsPersistent(v)), 0) == Parsed::Done(
            table_option_text(TableOptionView::StatsPersistent(v)).len() as int,
            TableOptionView::StatsPersistent(v),
        ),
{
    let o = TableOptionView::StatsPersistent(v);
    let s = table_option_text(o);
    reveal_strlit("AUTOEXTEND_SIZE");
    reveal_strlit("AUTO_INCREMENT");
    reveal_strlit("AVG_ROW_LENGTH");
    reveal_strlit("DEFAULT ");
    reveal_strlit("CHARACTER");
    reveal_strlit("DEFAULT");
    reveal_strlit("CHARSET");
    reveal_strlit("CHECKSUM");
    reveal_strlit("DEFAULT ");
    reveal_strlit("COLLATE");
    reveal_strlit("COMMENT");
    reveal_strlit("COMPRESSION");
    reveal_strlit("CONNECTION");
    reveal_strlit("DATA");
    reveal_strlit("INDEX");
    reveal_strlit("DELAY_KEY_WRITE");
    reveal_strlit("ENCRYPTION");
    reveal_strlit("ENGINE_ATTRIBUTE");
    reveal_strlit("ENGINE");
    reveal_strlit("INSERT_METHOD");
    reveal_strlit("KEY_BLOCK_SIZE");
    reveal_strlit("MAX_ROWS");
    reveal_strlit("MIN_ROWS");
    reveal_strlit("PACK_KEYS");
    reveal_strlit("PASSWORD");
    reveal_strlit("ROW_FORMAT");
    reveal_strlit("SECONDARY_ENGINE_ATTRIBUTE");
    reveal_strlit("STATS_AUTO_RECALC");
    reveal_strlit("STATS_PERSISTENT");
    reveal_strlit("STATS_SAMPLE_PAGES");
    reveal_strlit("TABLESPACE");
    assert(s =~= "STATS_PERSISTENT"@ + seq![' '] + default_or_zero_or_one_text(v)) by { reveal_strlit("STATS_PERSISTENT "); }
    reveal_strlit("0"); reveal_strlit("1"); reveal_strlit("DEFAULT");
    lemma_value_start(s, Seq::empty(), "STATS_PERSISTENT"@, default_or_zero_or_one_text(v));
    assert(Seq::<char>::empty() + "STATS_PERSISTENT"@ + seq![' '] + default_or_zero_or_one_text(v) =~= s);
    match v {
        DefaultOrZeroOrOne::Zero => { assert(s.subrange(17, 18) =~= "0"@); lemma_tag_nc_of_eq(s, 17, "0"@); },
        DefaultOrZeroOrOne::One => { lemma_tag_nc_mismatch(s, 17, "0"@, 0); assert(s.subrange(17, 18) =~= "1"@); lemma_tag_nc_of_eq(s, 17, "1"@); },
        DefaultOrZeroOrOne::Default => { lemma_tag_nc_mismatch(s, 17, "0"@, 0); lemma_tag_nc_mismatch(s, 17, "1"@, 0); assert(s.subrange(17, 24) =~= "DEFAULT"@); lemma_tag_nc_of_eq(s, 17, "DEFAULT"@); },
    }
    reveal_with_fuel(run_end, 2);
    lemma_tag_nc_mismatch(s, 0, "AUTOEXTEND_SIZE"@, 0);
    assert(spec_key_number(s, 0, "AUTOEXTEND_SIZE"@) is NoMatch);
    lemma_tag_nc_mismatch(s, 0, "AUTO_INCREMENT"@, 0);
    assert(spec_key_number(s, 0, "AUTO_INCREMENT"@) is NoMatch);
    lemma_tag_nc_mismatch(s, 0, "AVG_ROW_LENGTH"@, 0);
    assert(spec_key_number(s, 0, "AVG_ROW_LENGTH"@) is NoMatch);
    lemma_tag_nc_mismatch(s, 0, "DEFAULT "@, 0);
    lemma_tag_nc_mismatch(s, 0, "CHARACTER"@, 0);
    assert(spec_default_character_set(s, 0) is NoMatch);
    lemma_tag_nc_mismatch(s, 0, "DEFAULT"@, 0);
    lemma_tag_nc_mismatch(s, 0, "CHARSET"@, 0);
    assert(spec_default_charset(s, 0) is NoMatch);
    lemma_tag_nc_mismatch(s, 0, "CHECKSUM"@, 0);
    assert(spec_key_zero_one(s, 0, "CHECKSUM"@) is NoMatch);
    lemma_tag_nc_mismatch(s, 0, "DEFAULT "@, 0);
    lemma_tag_nc_mismatch(s, 0, "COLLATE"@, 0);
    assert(spec_default_collate(s, 0) is NoMatch);
    lemma_tag_nc_mismatch(s, 0, "COMMENT"@, 0);
    assert(spec_key_quoted(s, 0, "COMMENT"@) is NoMatch);
    lemma_tag_nc_mismatch(s, 0, "COMPRESSION"@, 0);
    assert(spec_compression_type(s, 0) is NoMatch);
    lemma_tag_nc_mismatch(s, 0, "CONNECTION"@, 0);
    assert(spec_key_quoted(s, 0, "CONNECTION"@) is NoMatch);
    lemma_tag_nc_mismatch(s, 0, "DATA"@, 0);
    assert(spec_directory(s, 0, "DATA"@, true) is NoMatch);
    lemma_tag_nc_mismatch(s, 0, "INDEX"@, 0);
    assert(spec_directory(s, 0, "INDEX"@, false) is NoMatch);
    lemma_tag_nc_mismatch(s, 0, "DELAY_KEY_WRITE"@, 0);
    assert(spec_key_zero_one(s, 0, "DELAY_KEY_WRITE"@) is NoMatch);
    lemma_tag_nc_mismatch(s, 0, "ENCRYPTION"@, 0);
    assert(spec_encryption(s, 0) is NoMatch);
    lemma_tag_nc_mismatch(s, 0, "ENGINE_ATTRIBUTE"@, 0);
    assert(spec_key_quoted(s, 0, "ENGINE_ATTRIBUTE"@) is NoMatch);
    lemma_tag_nc_mismatch(s, 0, "ENGINE"@, 0);
    assert(spec_key_identifier(s, 0, "ENGINE"@) is NoMatch);
    lemma_tag_nc_mismatch(s, 0, "INSERT_METHOD"@, 0);
    assert(spec_insert_method_type(s, 0) is NoMatch);
    lemma_tag_nc_mismatch(s, 0, "KEY_BLOCK_SIZE"@, 0);
    assert(spec_key_number(s, 0, "KEY_BLOCK_SIZE"@) is NoMatch);
    lemma_tag_nc_mismatch(s, 0, "MAX_ROWS"@, 0);
    assert(spec_key_number(s, 0, "MAX_ROWS"@) is NoMatch);
    lemma_tag_nc_mismatch(s, 0, "MIN_ROWS"@, 0);
    assert(spec_key_number(s, 0, "MIN_ROWS"@) is NoMatch);
    lemma_tag_nc_mismatch(s, 0, "PACK_KEYS"@, 0);
    assert(spec_key_default_zero_one(s, 0, "PACK_KEYS"@) is NoMatch);
    lemma_tag_nc_mismatch(s, 0, "PASSWORD"@, 0);
    assert(spec_key_quoted(s, 0, "PASSWORD"@) is NoMatch);
    lemma_tag_nc_mismatch(s, 0, "ROW_FORMAT"@, 0);
    assert(spec_row_format_type(s, 0) is NoMatch);
    lemma_tag_nc_mismatch(s, 0, "SECONDARY_ENGINE_ATTRIBUTE"@, 1);
    assert(spec_key_quoted(s, 0, "SECONDARY_ENGINE_ATTRIBUTE"@) is NoMatch);
    lemma_tag_nc_mismatch(s, 0, "STATS_AUTO_RECALC"@, 6);
    assert(spec_key_default_zero_one(s, 0, "STATS_AUTO_RECALC"@) is NoMatch);
    assert(!(spec_key_default_zero_one(s, 0, "STATS_PERSISTENT"@) is NoMatch));
    assert(spec_table_option_part_1b(s, 0) is NoMatch);
    assert(spec_table_option_part_1(s, 0) is NoMatch);
    assert(spec_table_option_part_2b(s, 0) == Parsed::Done(s.len() as int, o));
    assert(spec_table_option_part_2(s, 0) == Parsed::Done(s.len() as int, o));
}

#[verifier::spinoff_prover]
#[verifier::rlimit(100)]
proof fn lemma_option_text_stats_sample_pages(v: u64)
    ensures
        spec_table_option(table_option_text(TableOptionView::StatsSamplePages(v)), 0) == Parsed::Done(
            table_option_text(TableOptionView::StatsSamplePages(v)).len() as int,
            TableOptionView::StatsSamplePages(v),
        ),
{
    let o = TableOptionView::StatsSamplePages(v);
    let s = table_option_text(o);
    reveal_strlit("AUTOEXTEND_SIZE");
    reveal_strlit("AUTO_INCREMENT");
    reveal_strlit("AVG_ROW_LENGTH");
    reveal_strlit("DEFAULT ");
    reveal_strlit("CHARACTER");
    reveal_strlit("DEFAULT");
    reveal_strlit("CHARSET");
    reveal_strlit("CHECKSUM");
    reveal_strlit("DEFAULT ");
    reveal_strlit("COLLATE");
    reveal_strlit("COMMENT");
    reveal_strlit("COMPRESSION");
    reveal_strlit("CONNECTION");
    reveal_strlit("DATA");
    reveal_strlit("INDEX");
    reveal_strlit("DELAY_KEY_WRITE");
    reveal_strlit("ENCRYPTION");
    reveal_strlit("ENGINE_ATTRIBUTE");
    reveal_strlit("ENGINE");
    reveal_strlit("INSERT_METHOD");
    reveal_strlit("KEY_BLOCK_SIZE");
    reveal_strlit("MAX_ROWS");
    reveal_strlit("MIN_ROWS");
    reveal_strlit("PACK_KEYS");
    reveal_strlit("PASSWORD");
    reveal_strlit("ROW_FORMAT");
    reveal_strlit("SECONDARY_ENGINE_ATTRIBUTE");
    reveal_strlit("STATS_AUTO_RECALC");
    reveal_strlit("STATS_PERSISTENT");
    reveal_strlit("STATS_SAMPLE_PAGES");
    reveal_strlit("TABLESPACE");
    assert(s =~= "STATS_SAMPLE_PAGES"@ + seq![' '] + nat_text(v as nat)) by { reveal_strlit("STATS_SAMPLE_PAGES "); }
    lemma_number_to_end("STATS_SAMPLE_PAGES"@ + seq![' '], v);
    lemma_value_start(s, Seq::empty(), "STATS_SAMPLE_PAGES"@, nat_text(v as nat));
    assert(Seq::<char>::empty() + "STATS_SAMPLE_PAGES"@ + seq![' '] + nat_text(v as nat) =~= s);
    reveal_with_fuel(run_end, 2);
    lemma_tag_nc_mismatch(s, 0, "AUTOEXTEND_SIZE"@, 0);
    assert(spec_key_number(s, 0, "AUTOEXTEND_SIZE"@) is NoMatch);
    lemma_tag_nc_mismatch(s, 0, "AUTO_INCREMENT"@, 0);
    assert(spec_key_number(s, 0, "AUTO_INCREMENT"@) is NoMatch);
    lemma_tag_nc_mismatch(s, 0, "AVG_ROW_LENGTH"@, 0);
    assert(spec_key_number(s, 0, "AVG_ROW_LENGTH"@) is NoMatch);
    lemma_tag_nc_mismatch(s, 0, "DEFAULT "@, 0);
    lemma_tag_nc_mismatch(s, 0, "CHARACTER"@, 0);
    assert(spec_default_character_set(s, 0) is NoMatch);
    lemma_tag_nc_mismatch(s, 0, "DEFAULT"@, 0);
    lemma_tag_nc_mismatch(s, 0, "CHARSET"@, 0);
    assert(spec_default_charset(s, 0) is NoMatch);
    lemma_tag_nc_mismatch(s, 0, "CHECKSUM"@, 0);
    assert(spec_key_zero_one(s, 0, "CHECKSUM"@) is NoMatch);
    lemma_tag_nc_mismatch(s, 0, "DEFAULT "@, 0);
    lemma_tag_nc_mismatch(s, 0, "COLLATE"@, 0);
    assert(spec_default_collate(s, 0) is NoMatch);
    lemma_tag_nc_mismatch(s, 0, "COMMENT"@, 0);
    assert(spec_key_quoted(s, 0, "COMMENT"@) is NoMatch);
    lemma_tag_nc_mismatch(s, 0, "COMPRESSION"@, 0);
    assert(spec_compression_type(s, 0) is NoMatch);
    lemma_tag_nc_mismatch(s, 0, "CONNECTION"@, 0);
    assert(spec_key_quoted(s, 0, "CONNECTION"@) is NoMatch);
    lemma_tag_nc_mismatch(s, 0, "DATA"@, 0);
    assert(spec_directory(s, 0, "DATA"@, true) is NoMatch);
    lemma_tag_nc_mismatch(s, 0, "INDEX"@, 0);
    assert(spec_directory(s, 0, "INDEX"@, false) is NoMatch);
    lemma_tag_nc_mismatch(s, 0, "DELAY_KEY_WRITE"@, 0);
    assert(spec_key_zero_one(s, 0, "DELAY_KEY_WRITE"@) is NoMatch);
    lemma_tag_nc_mismatch(s, 0, "ENCRYPTION"@, 0);
    assert(spec_encryption(s, 0) is NoMatch);
    lemma_tag_nc_mismatch(s, 0, "ENGINE_ATTRIBUTE"@, 0);
    assert(spec_key_quoted(s, 0, "ENGINE_ATTRIBUTE"@) is NoMatch);
    lemma_tag_nc_mismatch(s, 0, "ENGINE"@, 0);
    assert(spec_key_identifier(s, 0, "ENGINE"@) is NoMatch);
    lemma_tag_nc_mismatch(s, 0, "INSERT_METHOD"@, 0);
    assert(spec_insert_method_type(s, 0) is NoMatch);
    lemma_tag_nc_mismatch(s, 0, "KEY_BLOCK_SIZE"@, 0);
    assert(spec_key_number(s, 0, "KEY_BLOCK_SIZE"@) is NoMatch);
    lemma_tag_nc_mismatch(s, 0, "MAX_ROWS"@, 0);
    assert(spec_key_number(s, 0, "MAX_ROWS"@) is NoMatch);
    lemma_tag_nc_mismatch(s, 0, "MIN_ROWS"@, 0);
    assert(spec_key_number(s, 0, "MIN_ROWS"@) is NoMatch);
    lemma_tag_nc_mismatch(s, 0, "PACK_KEYS"@, 0);
    assert(spec_key_default_zero_one(s, 0, "PACK_KEYS"@) is NoMatch);
    lemma_tag_nc_mismatch(s, 0, "PASSWORD"@, 0);
    assert(spec_key_quoted(s, 0, "PASSWORD"@) is NoMatch);
    lemma_tag_nc_mismatch(s, 0, "ROW_FORMAT"@, 0);
    assert(spec_row_format_type(s, 0) is NoMatch);
    lemma_tag_nc_mismatch(s, 0, "SECONDARY_ENGINE_ATTRIBUTE"@, 1);
    assert(spec_key_quoted(s, 0, "SECONDARY_ENGINE_ATTRIBUTE"@) is NoMatch);
    lemma_tag_nc_mismatch(s, 0, "STATS_AUTO_RECALC"@, 6);
    assert(spec_key_default_zero_one(s, 0, "STATS_AUTO_RECALC"@) is NoMatch);
    lemma_tag_nc_mismatch(s, 0, "STATS_PERSISTENT"@, 6);
    assert(spec_key_default_zero_one(s, 0, "STATS_PERSISTENT"@) is NoMatch);
    assert(!(spec_key_number(s, 0, "STATS_SAMPLE_PAGES"@) is NoMatch));
    assert(spec_table_option_part_1b(s, 0) is NoMatch);
    assert(spec_table_option_part_1(s, 0) is NoMatch);
    assert(spec_table_option_part_2b(s, 0) == Parsed::Done(s.len() as int, o));
    assert(spec_table_option_part_2(s, 0) == Parsed::Done(s.len() as int, o));
}

/// No reserved word holds a character that ends a name.
proof fn lemma_keyword_no_stop(i: int)
    requires
        0 <= i < KEYWORD_COUNT,
    ensures
        forall|j: int|
            0 <= j < keyword(i).len() ==> !eq_no_case(#[trigger] keyword(i)[j], ' ')
                && !eq_no_case(keyword(i)[j], ',') && !eq_no_case(keyword(i)[j], ')'),
{
    if i == 0 {
        reveal_strlit("ABORT");
    } else if i == 1 {
        reveal_strlit("ACTION");
    } else if i == 2 {
        reveal_strlit("ADD");
    } else if i == 3 {
        reveal_strlit("AFTER");
    } else if i == 4 {
        reveal_strlit("ALL");
    } else if i == 5 {
        reveal_strlit("ALTER");
    } else if i == 6 {
        reveal_strlit("ANALYZE");
    } else if i == 7 {
        reveal_strlit("AND");
    } else if i == 8 {
        reveal_strlit("AS");
    } else if i == 9 {
        reveal_strlit("ASC");
    } else if i == 10 {
        reveal_strlit("ATTACH");
    } else if i == 11 {
        reveal_strlit("AUTOINCREMENT");
    } else if i == 12 {
        reveal_strlit("BEFORE");
    } else if i == 13 {
        reveal_strlit("BEGIN");
    } else if i == 14 {
        reveal_strlit("BETWEEN");
    } else if i == 15 {
        reveal_strlit("BY");
    } else if i == 16 {
        reveal_strlit("CASCADE");
    } else if i == 17 {
        reveal_strlit("CASE");
    } else if i == 18 {
        reveal_strlit("CAST");
    } else if i == 19 {
        reveal_strlit("CHECK");
    } else if i == 20 {
        reveal_strlit("COLLATE");
    } else if i == 21 {
        reveal_strlit("COLUMN");
    } else if i == 22 {
        reveal_strlit("COMMIT");
    } else if i == 23 {
        reveal_strlit("CONFLICT");
    } else if i == 24 {
        reveal_strlit("CONSTRAINT");
    } else if i == 25 {
        reveal_strlit("CREATE");
    } else if i == 26 {
        reveal_strlit("CROSS");
    } else if i == 27 {
        reveal_strlit("CURRENT_DATE");
    } else if i == 28 {
        reveal_strlit("CURRENT_TIME");
    } else if i == 29 {
        reveal_strlit("CURRENT_TIMESTAMP");
    } else if i == 30 {
        reveal_strlit("DATABASE");
    } else if i == 31 {
        reveal_strlit("DEFAULT");
    } else if i == 32 {
        reveal_strlit("DEFERRABLE");
    } else if i == 33 {
        reveal_strlit("DEFERRED");
    } else if i == 34 {
        reveal_strlit("DELETE");
    } else if i == 35 {
        reveal_strlit("DESC");
    } else if i == 36 {
        reveal_strlit("DETACH");
    } else if i == 37 {
        reveal_strlit("DISTINCT");
    } else if i == 38 {
        reveal_strlit("DROP");
    } else if i == 39 {
        reveal_strlit("EACH");
    } else if i == 40 {
        reveal_strlit("ELSE");
    } else if i == 41 {
        reveal_strlit("END");
    } else if i == 42 {
        reveal_strlit("ESCAPE");
    } else if i == 43 {
        reveal_strlit("EXCEPT");
    } else if i == 44 {
        reveal_strlit("EXCLUSIVE");
    } else if i == 45 {
        reveal_strlit("EXISTS");
    } else if i == 46 {
        reveal_strlit("EXPLAIN");
    } else if i == 47 {
        reveal_strlit("FAIL");
    } else if i == 48 {
        reveal_strlit("FOR");
    } else if i == 49 {
        reveal_strlit("FOREIGN");
    } else if i == 50 {
        reveal_strlit("FROM");
    } else if i == 51 {
        reveal_strlit("FULL");
    } else if i == 52 {
        reveal_strlit("FULLTEXT");
    } else if i == 53 {
        reveal_strlit("GLOB");
    } else if i == 54 {
        reveal_strlit("GROUP");
    } else if i == 55 {
        reveal_strlit("HAVING");
    } else if i == 56 {
        reveal_strlit("IF");
    } else if i == 57 {
        reveal_strlit("IGNORE");
    } else if i == 58 {
        reveal_strlit("IMMEDIATE");
    } else if i == 59 {
        reveal_strlit("IN");
    } else if i == 60 {
        reveal_strlit("INDEX");
    } else if i == 61 {
        reveal_strlit("INDEXED");
    } else if i == 62 {
        reveal_strlit("INITIALLY");
    } else if i == 63 {
        reveal_strlit("INNER");
    } else if i == 64 {
        reveal_strlit("INSERT");
    } else if i == 65 {
        reveal_strlit("INSTEAD");
    } else if i == 66 {
        reveal_strlit("INTERSECT");
    } else if i == 67 {
        reveal_strlit("INTO");
    } else if i == 68 {
        reveal_strlit("IS");
    } else if i == 69 {
        reveal_strlit("ISNULL");
    } else if i == 70 {
        reveal_strlit("ORDER");
    } else if i == 71 {
        reveal_strlit("JOIN");
    } else if i == 72 {
        reveal_strlit("KEY");
    } else if i == 73 {
        reveal_strlit("LEFT");
    } else if i == 74 {
        reveal_strlit("LIKE");
    } else if i == 75 {
        reveal_strlit("LIMIT");
    } else if i == 76 {
        reveal_strlit("MATCH");
    } else if i == 77 {
        reveal_strlit("NATURAL");
    } else if i == 78 {
        reveal_strlit("NO");
    } else if i == 79 {
        reveal_strlit("NOT");
    } else if i == 80 {
        reveal_strlit("NOTNULL");
    } else if i == 81 {
        reveal_strlit("NULL");
    } else if i == 82 {
        reveal_strlit("OF");
    } else if i == 83 {
        reveal_strlit("OFFSET");
    } else if i == 84 {
        reveal_strlit("ON");
    } else if i == 85 {
        reveal_strlit("OR");
    } else if i == 86 {
        reveal_strlit("OUTER");
    } else if i == 87 {
        reveal_strlit("PLAN");
    } else if i == 88 {
        reveal_strlit("PRAGMA");
    } else if i == 89 {
        reveal_strlit("PRIMARY");
    } else if i == 90 {
        reveal_strlit("QUERY");
    } else if i == 91 {
        reveal_strlit("RAISE");
    } else if i == 92 {
        reveal_strlit("RECURSIVE");
    } else if i == 93 {
        reveal_strlit("REFERENCES");
    } else if i == 94 {
        reveal_strlit("REGEXP");
    } else if i == 95 {
        reveal_strlit("REINDEX");
    } else if i == 96 {
        reveal_strlit("RELEASE");
    } else if i == 97 {
        reveal_strlit("RENAME");
    } else if i == 98 {
        reveal_strlit("REPLACE");
    } else if i == 99 {
        reveal_strlit("RESTRICT");
    } else if i == 100 {
        reveal_strlit("RIGHT");
    } else if i == 101 {
        reveal_strlit("ROLLBACK");
    } else if i == 102 {
        reveal_strlit("ROW");
    } else if i == 103 {
        reveal_strlit("SAVEPOINT");
    } else if i == 104 {
        reveal_strlit("SELECT");
    } else if i == 105 {
        reveal_strlit("SET");
    } else if i == 106 {
        reveal_strlit("SPATIAL");
    } else if i == 107 {
        reveal_strlit("TABLE");
    } else if i == 108 {
        reveal_strlit("TEMP");
    } else if i == 109 {
        reveal_strlit("TEMPORARY");
    } else if i == 110 {
        reveal_strlit("THEN");
    } else if i == 111 {
        reveal_strlit("TO");
    } else if i == 112 {
        reveal_strlit("TRANSACTION");
    } else if i == 113 {
        reveal_strlit("TRIGGER");
    } else if i == 114 {
        reveal_strlit("UNION");
    } else if i == 115 {
        reveal_strlit("UNIQUE");
    } else if i == 116 {
        reveal_strlit("UPDATE");
    } else if i == 117 {
        reveal_strlit("USING");
    } else if i == 118 {
        reveal_strlit("VACUUM");
    } else if i == 119 {
        reveal_strlit("VALUES");
    } else if i == 120 {
        reveal_strlit("VIEW");
    } else if i == 121 {
        reveal_strlit("VIRTUAL");
    } else if i == 122 {
        reveal_strlit("WHEN");
    } else if i == 123 {
        reveal_strlit("WHERE");
    } else if i == 124 {
        reveal_strlit("WITH");
    } else if i == 125 {
        reveal_strlit("WITHOUT");
    }
}

/// A blank, a comma or a closing bracket: a character that ends a name.
pub open spec fn name_stop(c: char) -> bool {
    c == ' ' || c == ',' || c == ')'
}

/// A text with no keyword at its start keeps none when a character that ends
/// a name, and more text, follow it.
proof fn lemma_keyword_before_stop(n: Seq<char>, rest: Seq<char>, i: int)
    requires
        0 <= i,
        keyword_search(n, 0, i) is None,
        rest.len() > 0,
        name_stop(rest[0]),
    ensures
        keyword_search(n + rest, 0, i) is None,
    decreases KEYWORD_COUNT - i,
{
    if i < KEYWORD_COUNT {
        lemma_keyword_before_stop(n, rest, i + 1);
        let u = n + rest;
        let k = keyword(i);
        if keyword_at(u, 0, i) {
            if k.len() <= n.len() {
                assert forall|j: int| 0 <= j < k.len() implies #[trigger] eq_no_case(n[0 + j], k[j]) by {
                    assert(eq_no_case(u[0 + j], k[j]));
                    assert(u[j] == n[j]);
                }
                if k.len() < n.len() {
                    assert(u[k.len() as int] == n[k.len() as int]);
                }
                assert(keyword_at(n, 0, i));
            } else {
                let m = n.len() as int;
                assert(eq_no_case(u[0 + m], k[m]));
                assert(u[m] == rest[0]);
                lemma_keyword_no_stop(i);
                assert(!eq_no_case(k[m], rest[0]));
            }
        }
    }
}

/// A plain name followed by a character that ends a name reads back as an
/// identifier.
pub proof fn lemma_identifier_before_stop(pre: Seq<char>, n: Seq<char>, rest: Seq<char>)
    requires
        plain_name(n),
        rest.len() > 0,
        name_stop(rest[0]),
    ensures
        spec_sql_identifier(pre + n + rest, pre.len() as int) == Parsed::Done(
            pre.len() + n.len() as int,
            (pre.len() as int, pre.len() + n.len() as int),
        ),
        (pre + n + rest).subrange(pre.len() as int, pre.len() + n.len() as int) == n,
{
    let s = pre + n + rest;
    let a = pre.len() as int;
    let e = a + n.len();
    let u = n + rest;
    assert(s.subrange(a, s.len() as int) =~= u);
    lemma_keyword_shift(s, a, u, 0);
    lemma_keyword_before_stop(n, rest, 0);
    assert forall|j: int| a <= j < e implies ident_char(#[trigger] s[j]) by {
        assert(s[j] == n[j - a]);
    }
    assert(s[e] == rest[0]);
    assert(s[a] == n[0]);
    lemma_run_end_bounds(s, a, |c: char| is_alpha(c));
    let k = alpha_end(s, a);
    lemma_run_end_stops(s, k, e, |c: char| ident_char(c));
    assert(s.subrange(a, e) =~= n);
}

/// `TABLESPACE name STORAGE type` reads back as the tablespace option.
#[verifier::rlimit(100)]
proof fn lemma_tablespace_storage_value(n: Seq<char>, x: TablespaceType)
    requires
        plain_name(n),
    ensures
        spec_tablespace(table_option_text(TableOptionView::Tablespace(n, Some(x))), 0)
            == Parsed::Done(
            table_option_text(TableOptionView::Tablespace(n, Some(x))).len() as int,
            TableOptionView::Tablespace(n, Some(x)),
        ),
{
    reveal_strlit("TABLESPACE");
    reveal_strlit("TABLESPACE ");
    reveal_strlit("STORAGE");
    reveal_strlit(" ");
    let s = table_option_text(TableOptionView::Tablespace(n, Some(x)));
    let w = tablespace_type_text(x);
    let rest = seq![' '] + w;
    assert(s =~= "TABLESPACE"@ + seq![' '] + n + rest);
    assert(s.subrange(0, 10) =~= "TABLESPACE"@);
    lemma_tag_nc_of_eq(s, 0, "TABLESPACE"@);
    lemma_identifier_before_stop("TABLESPACE"@ + seq![' '], n, rest);
    let f = 12 + n.len() as int;
    assert(s[10] == ' ' && s[11] == n[0]);
    match x {
        TablespaceType::StorageDisk => {
            reveal_strlit("STORAGE DISK");
            reveal_strlit("DISK");
            assert(s[f - 1] == ' ' && s[f] == 'S');
            assert(s.subrange(f, f + 7) =~= "STORAGE"@);
            lemma_tag_nc_of_eq(s, f, "STORAGE"@);
            assert(s[f + 7] == ' ' && s[f + 8] == 'D');
            assert(s.subrange(f + 8, f + 12) =~= "DISK"@);
            lemma_tag_nc_of_eq(s, f + 8, "DISK"@);
            assert(s.len() == f + 12);
        },
        TablespaceType::StorageMemory => {
            reveal_strlit("STORAGE MEMORY");
            reveal_strlit("DISK");
            reveal_strlit("MEMORY");
            assert(s[f - 1] == ' ' && s[f] == 'S');
            assert(s.subrange(f, f + 7) =~= "STORAGE"@);
            lemma_tag_nc_of_eq(s, f, "STORAGE"@);
            assert(s[f + 7] == ' ' && s[f + 8] == 'M');
            lemma_tag_nc_mismatch(s, f + 8, "DISK"@, 0);
            assert(s.subrange(f + 8, f + 14) =~= "MEMORY"@);
            lemma_tag_nc_of_eq(s, f + 8, "MEMORY"@);
            assert(s.len() == f + 14);
        },
    }
    reveal_with_fuel(run_end, 2);
}

/// `TABLESPACE name [STORAGE type]` reads back as the tablespace option.
proof fn lemma_tablespace_value(n: Seq<char>, t: Option<TablespaceType>)
    requires
        plain_name(n),
    ensures
        spec_tablespace(table_option_text(TableOptionView::Tablespace(n, t)), 0) == Parsed::Done(
            table_option_text(TableOptionView::Tablespace(n, t)).len() as int,
            TableOptionView::Tablespace(n, t),
        ),
        table_option_text(TableOptionView::Tablespace(n, t)).len() > 11,
        table_option_text(TableOptionView::Tablespace(n, t))[0] == 'T',
{
    reveal_strlit("TABLESPACE");
    reveal_strlit("TABLESPACE ");
    reveal_strlit("STORAGE");
    let s = table_option_text(TableOptionView::Tablespace(n, t));
    match t {
        None => {
            assert(s =~= "TABLESPACE"@ + seq![' '] + n);
            assert(s.subrange(0, 10) =~= "TABLESPACE"@);
            lemma_tag_nc_of_eq(s, 0, "TABLESPACE"@);
            lemma_identifier_to_end("TABLESPACE"@ + seq![' '], n);
            assert(s[10] == ' ' && s[11] == n[0]);
            reveal_with_fuel(run_end, 2);
        },
        Some(x) => {
            reveal_strlit(" ");
            assert(s =~= "TABLESPACE"@ + seq![' '] + n + (seq![' '] + tablespace_type_text(x)));
            lemma_tablespace_storage_value(n, x);
        },
    }
}

/// No character from `p` up to and including `e` opens a bracket, when the
/// characters before `e` are identifier characters and `e` holds one that
/// ends a name.
pub proof fn lemma_no_open_bracket(s: Seq<char>, p: int, e: int)
    requires
        0 <= p <= e < s.len(),
        forall|j: int| p <= j < e ==> ident_char(#[trigger] s[j]),
        name_stop(s[e]),
    ensures
        forall|x: int| p <= x <= e ==> !eq_no_case(#[trigger] s[x], '('),
{
    assert forall|x: int| p <= x <= e implies !eq_no_case(#[trigger] s[x], '(') by {
        if x < e {
            assert(ident_char(s[x]));
        }
    }
}

/// A word of letters and `_` that occurs at `p` ends by `e`, when the
/// characters before `e` are identifier characters and `e` holds one that
/// ends a name.
pub proof fn lemma_word_fits(s: Seq<char>, p: int, e: int, w: Seq<char>)
    requires
        0 <= p <= e < s.len(),
        name_stop(s[e]),
        forall|k: int| 0 <= k < w.len() ==> is_alpha(#[trigger] w[k]) || w[k] == '_',
    ensures
        has_tag_nc(s, p, w) ==> p + w.len() <= e,
{
    if has_tag_nc(s, p, w) && p + w.len() > e {
        assert(eq_no_case(s[p + (e - p)], w[e - p]));
        assert(is_alpha(w[e - p]) || w[e - p] == '_');
    }
}

/// A plain name at `p`, followed by a comma or a closing bracket, reads back
/// as an index column of that name.
#[verifier::rlimit(100)]
pub proof fn lemma_index_col_at(s: Seq<char>, p: int, n: Seq<char>)
    requires
        plain_name(n),
        0 <= p,
        p + n.len() < s.len(),
        s.subrange(p, p + n.len()) == n,
        s[p + n.len()] == ',' || s[p + n.len()] == ')',
    ensures
        spec_index_col_name(s, p) == Parsed::Done(
            p + n.len(),
            (ColumnView { name: n, alias: None, table: None, function: None }, None::<u16>, None::<OrderType>),
        ),
        spec_column_without_alias(s, p) == Parsed::Done(
            p + n.len(),
            ColumnView { name: n, alias: None, table: None, function: None },
        ),
{
    let e = p + n.len();
    let pre = s.subrange(0, p);
    let rest = s.subrange(e, s.len() as int);
    assert(s =~= pre + n + rest);
    assert(rest[0] == s[e]);
    lemma_identifier_before_stop(pre, n, rest);
    assert forall|j: int| p <= j < e implies ident_char(#[trigger] s[j]) by {
        assert(s[j] == n[j - p]);
    }
    lemma_no_open_bracket(s, p, e);
    reveal_strlit("COUNT(*)");
    reveal_strlit("COUNT");
    reveal_strlit("SUM");
    reveal_strlit("AVG");
    reveal_strlit("MAX");
    reveal_strlit("MIN");
    reveal_strlit("GROUP_CONCAT");
    reveal_strlit("DESC");
    reveal_strlit("ASC");
    lemma_word_fits(s, p, e, "COUNT"@);
    lemma_word_fits(s, p, e, "SUM"@);
    lemma_word_fits(s, p, e, "AVG"@);
    lemma_word_fits(s, p, e, "MAX"@);
    lemma_word_fits(s, p, e, "MIN"@);
    lemma_word_fits(s, p, e, "GROUP_CONCAT"@);
    if has_tag_nc(s, p, "COUNT(*)"@) {
        assert forall|j: int| 0 <= j < 5 implies #[trigger] eq_no_case(s[p + j], "COUNT"@[j]) by {
            assert(eq_no_case(s[p + j], "COUNT(*)"@[j]));
        }
        assert(has_tag_nc(s, p, "COUNT"@));
        assert(eq_no_case(s[p + 5], "COUNT(*)"@[5]));
        assert(false);
    }
    reveal(spec_function_expression);
    reveal(spec_named_fx_args);
    reveal(spec_delim_fx_args);
    reveal(spec_group_concat_or_generic);
    reveal(spec_column_without_alias);
    assert(!is_space(s[e]));
    assert(ws_end(s, e) == e);
    assert(spec_named_fx_args(s, p, "COUNT"@) is NoMatch);
    assert(spec_named_fx_args(s, p, "SUM"@) is NoMatch);
    assert(spec_named_fx_args(s, p, "AVG"@) is NoMatch);
    assert(spec_named_fx_args(s, p, "MAX"@) is NoMatch);
    assert(spec_named_fx_args(s, p, "MIN"@) is NoMatch);
    assert(spec_group_concat_or_generic(s, p) is NoMatch);
    assert(spec_function_expression(s, p) is NoMatch);
    assert(spec_schema_prefix(s, p) == Parsed::Done(p, None::<(int, int)>));
    assert(spec_column_without_alias(s, p) == Parsed::Done(
        e,
        ColumnView { name: n, alias: None, table: None, function: None },
    ));
    lemma_tag_nc_mismatch(s, e, "DESC"@, 0);
    lemma_tag_nc_mismatch(s, e, "ASC"@, 0);
    assert(spec_len(s, e) is NoMatch);
}

/// A closing bracket at `p` starts no index column.
#[verifier::rlimit(100)]
proof fn lemma_index_col_at_close(s: Seq<char>, p: int)
    requires
        0 <= p < s.len(),
        s[p] == ')',
    ensures
        spec_index_col_name(s, p) is NoMatch,
        spec_index_col_list(s, p) == Parsed::Done(p, Seq::<ColumnView>::empty()),
{
    reveal_strlit("COUNT(*)");
    reveal_strlit("COUNT");
    reveal_strlit("SUM");
    reveal_strlit("AVG");
    reveal_strlit("MAX");
    reveal_strlit("MIN");
    reveal_strlit("GROUP_CONCAT");
    lemma_tag_nc_mismatch(s, p, "COUNT(*)"@, 0);
    lemma_tag_nc_mismatch(s, p, "COUNT"@, 0);
    lemma_tag_nc_mismatch(s, p, "SUM"@, 0);
    lemma_tag_nc_mismatch(s, p, "AVG"@, 0);
    lemma_tag_nc_mismatch(s, p, "MAX"@, 0);
    lemma_tag_nc_mismatch(s, p, "MIN"@, 0);
    lemma_tag_nc_mismatch(s, p, "GROUP_CONCAT"@, 0);
    reveal(spec_function_expression);
    reveal(spec_named_fx_args);
    reveal(spec_group_concat_or_generic);
    reveal(spec_column_without_alias);
    assert(spec_sql_identifier(s, p) is NoMatch);
    assert(spec_function_expression(s, p) is NoMatch);
    assert(spec_column_without_alias(s, p) is NoMatch);
}

/// The first name of a list of names starts its text.
proof fn lemma_names_text_head(ns: Seq<Seq<char>>)
    requires
        ns.len() > 0,
        ns[0].len() > 0,
    ensures
        names_text(ns).len() > 0,
        names_text(ns)[0] == ns[0][0],
    decreases ns.len(),
{
    if ns.len() > 1 {
        lemma_names_text_head(ns.drop_last());
    }
}

/// The text of two or more names: the first, a comma and the text of the rest.
proof fn lemma_names_text_front(ns: Seq<Seq<char>>)
    requires
        ns.len() >= 2,
    ensures
        names_text(ns) == ns[0] + ","@ + names_text(ns.drop_first()),
    decreases ns.len(),
{
    if ns.len() == 2 {
        assert(ns.drop_last() =~= seq![ns[0]]);
        assert(ns.drop_first() =~= seq![ns[1]]);
        assert(names_text(ns.drop_last()) == ns[0]);
        assert(names_text(ns.drop_first()) == ns[1]);
        assert(names_text(ns) =~= ns[0] + ","@ + names_text(ns.drop_first()));
    } else {
        lemma_names_text_front(ns.drop_last());
        assert(ns.drop_last()[0] == ns[0]);
        assert(ns.drop_last().drop_first() =~= ns.drop_first().drop_last());
        assert(ns.drop_first().last() == ns.last());
        assert(names_text(ns.drop_first()) == names_text(ns.drop_first().drop_last()) + ","@
            + ns.drop_first().last());
        assert(names_text(ns) =~= ns[0] + ","@ + names_text(ns.drop_first()));
    }
}

/// Plain names, separated by commas and followed by a closing bracket, read
/// back as index columns of those names.
#[verifier::rlimit(100)]
proof fn lemma_index_col_list_names(s: Seq<char>, p: int, ns: Seq<Seq<char>>)
    requires
        forall|i: int| 0 <= i < ns.len() ==> plain_name(#[trigger] ns[i]),
        0 <= p,
        p + names_text(ns).len() < s.len(),
        s.subrange(p, p + names_text(ns).len()) == names_text(ns),
        s[p + names_text(ns).len()] == ')',
    ensures
        spec_index_col_list(s, p) matches Parsed::Done(q, cols) && q == p + names_text(ns).len()
            && cols.map_values(|c: ColumnView| c.name) == ns,
    decreases ns.len(),
{
    let l = names_text(ns).len() as int;
    if ns.len() == 0 {
        lemma_index_col_at_close(s, p);
        assert(Seq::<ColumnView>::empty().map_values(|c: ColumnView| c.name) =~= ns);
    } else {
        let n0 = ns[0];
        assert(plain_name(n0));
        let e = p + n0.len();
        let c0 = ColumnView { name: n0, alias: None, table: None, function: None };
        if ns.len() == 1 {
            assert(names_text(ns) == n0);
            assert(s.subrange(p, e) =~= n0);
            lemma_index_col_at(s, p, n0);
            reveal_with_fuel(run_end, 2);
            assert(opt_comma_end(s, e) == e);
            assert(names_text(Seq::<Seq<char>>::empty()) =~= Seq::<char>::empty());
            assert(s.subrange(e, e) =~= names_text(Seq::<Seq<char>>::empty()));
            lemma_index_col_list_names(s, e, Seq::empty());
            assert(seq![c0].map_values(|c: ColumnView| c.name) =~= ns);
        } else {
            reveal_strlit(",");
            let tail = ns.drop_first();
            lemma_names_text_front(ns);
            let lt = names_text(tail).len() as int;
            assert(l == n0.len() + 1 + lt);
            assert(s.subrange(p, e) =~= n0) by {
                assert forall|j: int| 0 <= j < n0.len() implies s.subrange(p, e)[j] == n0[j] by {
                    assert(s.subrange(p, p + l)[j] == names_text(ns)[j]);
                }
            }
            assert(s[e] == ',') by {
                assert(s.subrange(p, p + l)[n0.len() as int] == names_text(ns)[n0.len() as int]);
            }
            assert(s.subrange(e + 1, e + 1 + lt) =~= names_text(tail)) by {
                assert forall|j: int| 0 <= j < lt implies s.subrange(e + 1, e + 1 + lt)[j]
                    == names_text(tail)[j] by {
                    assert(s.subrange(p, p + l)[n0.len() + 1 + j] == names_text(ns)[n0.len() + 1 + j]);
                }
            }
            assert forall|i: int| 0 <= i < tail.len() implies plain_name(#[trigger] tail[i]) by {
                assert(tail[i] == ns[i + 1]);
            }
            assert(plain_name(tail[0]));
            lemma_names_text_head(tail);
            assert(s[e + 1] == tail[0][0]) by {
                assert(s.subrange(e + 1, e + 1 + lt)[0] == names_text(tail)[0]);
            }
            lemma_index_col_at(s, p, n0);
            reveal_with_fuel(run_end, 2);
            assert(!is_space(s[e + 1]));
            assert(opt_comma_end(s, e) == e + 1);
            lemma_index_col_list_names(s, e + 1, tail);
            let tc = spec_index_col_list(s, e + 1)->1;
            assert((seq![c0] + tc).map_values(|c: ColumnView| c.name) =~= ns) by {
                assert(tc.map_values(|c: ColumnView| c.name) == tail);
                assert forall|i: int| 0 <= i < ns.len() implies (seq![c0] + tc).map_values(
                    |c: ColumnView| c.name,
                )[i] == ns[i] by {
                    if i > 0 {
                        assert(tc.map_values(|c: ColumnView| c.name)[i - 1] == tail[i - 1]);
                    }
                }
            }
        }
    }
}

/// `UNION (names)` reads back as the union option.
#[verifier::rlimit(100)]
proof fn lemma_union_value(ns: Seq<Seq<char>>)
    requires
        forall|i: int| 0 <= i < ns.len() ==> plain_name(#[trigger] ns[i]),
    ensures
        spec_union(table_option_text(TableOptionView::Union(ns)), 0) == Parsed::Done(
            table_option_text(TableOptionView::Union(ns)).len() as int,
            ns,
        ),
        table_option_text(TableOptionView::Union(ns)).len() > 7,
        table_option_text(TableOptionView::Union(ns))[0] == 'U',
{
    reveal_strlit("UNION");
    reveal_strlit("UNION (");
    reveal_strlit(")");
    let s = table_option_text(TableOptionView::Union(ns));
    let l = names_text(ns).len() as int;
    assert(s =~= "UNION"@ + seq![' '] + (seq!['('] + names_text(ns) + seq![')']));
    lemma_value_start(s, Seq::empty(), "UNION"@, seq!['('] + names_text(ns) + seq![')']);
    assert(s.subrange(7, 7 + l) =~= names_text(ns));
    assert(s[7 + l] == ')');
    if ns.len() > 0 {
        lemma_names_text_head(ns);
        assert(s[7] == ns[0][0]);
    }
    reveal_with_fuel(run_end, 2);
    assert(ws_end(s, 7) == 7);
    lemma_index_col_list_names(s, 7, ns);
    assert(ws_end(s, 7 + l) == 7 + l);
}

#[verifier::spinoff_prover]
#[verifier::rlimit(100)]
proof fn lemma_option_text_tablespace(v: Seq<char>, t: Option<TablespaceType>)
    requires
        plain_name(v),
    ensures
        spec_table_option(table_option_text(TableOptionView::Tablespace(v, t)), 0) == Parsed::Done(
            table_option_text(TableOptionView::Tablespace(v, t)).len() as int,
            TableOptionView::Tablespace(v, t),
        ),
{
    let o = TableOptionView::Tablespace(v, t);
    let s = table_option_text(o);
    reveal_strlit("AUTOEXTEND_SIZE");
    reveal_strlit("AUTO_INCREMENT");
    reveal_strlit("AVG_ROW_LENGTH");
    reveal_strlit("DEFAULT ");
    reveal_strlit("CHARACTER");
    reveal_strlit("DEFAULT");
    reveal_strlit("CHARSET");
    reveal_strlit("CHECKSUM");
    reveal_strlit("DEFAULT ");
    reveal_strlit("COLLATE");
    reveal_strlit("COMMENT");
    reveal_strlit("COMPRESSION");
    reveal_strlit("CONNECTION");
    reveal_strlit("DATA");
    reveal_strlit("INDEX");
    reveal_strlit("DELAY_KEY_WRITE");
    reveal_strlit("ENCRYPTION");
    reveal_strlit("ENGINE_ATTRIBUTE");
    reveal_strlit("ENGINE");
    reveal_strlit("INSERT_METHOD");
    reveal_strlit("KEY_BLOCK_SIZE");
    reveal_strlit("MAX_ROWS");
    reveal_strlit("MIN_ROWS");
    reveal_strlit("PACK_KEYS");
    reveal_strlit("PASSWORD");
    reveal_strlit("ROW_FORMAT");
    reveal_strlit("SECONDARY_ENGINE_ATTRIBUTE");
    reveal_strlit("STATS_AUTO_RECALC");
    reveal_strlit("STATS_PERSISTENT");
    reveal_strlit("STATS_SAMPLE_PAGES");
    reveal_strlit("TABLESPACE");
    lemma_tablespace_value(v, t);
    reveal_with_fuel(run_end, 2);
    lemma_tag_nc_mismatch(s, 0, "AUTOEXTEND_SIZE"@, 0);
    assert(spec_key_number(s, 0, "AUTOEXTEND_SIZE"@) is NoMatch);
    lemma_tag_nc_mismatch(s, 0, "AUTO_INCREMENT"@, 0);
    assert(spec_key_number(s, 0, "AUTO_INCREMENT"@) is NoMatch);
    lemma_tag_nc_mismatch(s, 0, "AVG_ROW_LENGTH"@, 0);
    assert(spec_key_number(s, 0, "AVG_ROW_LENGTH"@) is NoMatch);
    lemma_tag_nc_mismatch(s, 0, "DEFAULT "@, 0);
    lemma_tag_nc_mismatch(s, 0, "CHARACTER"@, 0);
    assert(spec_default_character_set(s, 0) is NoMatch);
    lemma_tag_nc_mismatch(s, 0, "DEFAULT"@, 0);
    lemma_tag_nc_mismatch(s, 0, "CHARSET"@, 0);
    assert(spec_default_charset(s, 0) is NoMatch);
    lemma_tag_nc_mismatch(s, 0, "CHECKSUM"@, 0);
    assert(spec_key_zero_one(s, 0, "CHECKSUM"@) is NoMatch);
    lemma_tag_nc_mismatch(s, 0, "DEFAULT "@, 0);
    lemma_tag_nc_mismatch(s, 0, "COLLATE"@, 0);
    assert(spec_default_collate(s, 0) is NoMatch);
    lemma_tag_nc_mismatch(s, 0, "COMMENT"@, 0);
    assert(spec_key_quoted(s, 0, "COMMENT"@) is NoMatch);
    lemma_tag_nc_mismatch(s, 0, "COMPRESSION"@, 0);
    assert(spec_compression_type(s, 0) is NoMatch);
    lemma_tag_nc_mismatch(s, 0, "CONNECTION"@, 0);
    assert(spec_key_quoted(s, 0, "CONNECTION"@) is NoMatch);
    lemma_tag_nc_mismatch(s, 0, "DATA"@, 0);
    assert(spec_directory(s, 0, "DATA"@, true) is NoMatch);
    lemma_tag_nc_mismatch(s, 0, "INDEX"@, 0);
    assert(spec_directory(s, 0, "INDEX"@, false) is NoMatch);
    lemma_tag_nc_mismatch(s, 0, "DELAY_KEY_WRITE"@, 0);
    assert(spec_key_zero_one(s, 0, "DELAY_KEY_WRITE"@) is NoMatch);
    lemma_tag_nc_mismatch(s, 0, "ENCRYPTION"@, 0);
    assert(spec_encryption(s, 0) is NoMatch);
    lemma_tag_nc_mismatch(s, 0, "ENGINE_ATTRIBUTE"@, 0);
    assert(spec_key_quoted(s, 0, "ENGINE_ATTRIBUTE"@) is NoMatch);
    lemma_tag_nc_mismatch(s, 0, "ENGINE"@, 0);
    assert(spec_key_identifier(s, 0, "ENGINE"@) is NoMatch);
    lemma_tag_nc_mismatch(s, 0, "INSERT_METHOD"@, 0);
    assert(spec_insert_method_type(s, 0) is NoMatch);
    lemma_tag_nc_mismatch(s, 0, "KEY_BLOCK_SIZE"@, 0);
    assert(spec_key_number(s, 0, "KEY_BLOCK_SIZE"@) is NoMatch);
    lemma_tag_nc_mismatch(s, 0, "MAX_ROWS"@, 0);
    assert(spec_key_number(s, 0, "MAX_ROWS"@) is NoMatch);
    lemma_tag_nc_mismatch(s, 0, "MIN_ROWS"@, 0);
    assert(spec_key_number(s, 0, "MIN_ROWS"@) is NoMatch);
    lemma_tag_nc_mismatch(s, 0, "PACK_KEYS"@, 0);
    assert(spec_key_default_zero_one(s, 0, "PACK_KEYS"@) is NoMatch);
    lemma_tag_nc_mismatch(s, 0, "PASSWORD"@, 0);
    assert(spec_key_quoted(s, 0, "PASSWORD"@) is NoMatch);
    lemma_tag_nc_mismatch(s, 0, "ROW_FORMAT"@, 0);
    assert(spec_row_format_type(s, 0) is NoMatch);
    lemma_tag_nc_mismatch(s, 0, "SECONDARY_ENGINE_ATTRIBUTE"@, 0);
    assert(spec_key_quoted(s, 0, "SECONDARY_ENGINE_ATTRIBUTE"@) is NoMatch);
    lemma_tag_nc_mismatch(s, 0, "STATS_AUTO_RECALC"@, 0);
    assert(spec_key_default_zero_one(s, 0, "STATS_AUTO_RECALC"@) is NoMatch);
    lemma_tag_nc_mismatch(s, 0, "STATS_PERSISTENT"@, 0);
    assert(spec_key_default_zero_one(s, 0, "STATS_PERSISTENT"@) is NoMatch);
    lemma_tag_nc_mismatch(s, 0, "STATS_SAMPLE_PAGES"@, 0);
    assert(spec_key_number(s, 0, "STATS_SAMPLE_PAGES"@) is NoMatch);
    assert(!(spec_tablespace(s, 0) is NoMatch));
    assert(spec_table_option_part_1b(s, 0) is NoMatch);
    assert(spec_table_option_part_1(s, 0) is NoMatch);
    assert(spec_table_option_part_2b(s, 0) == Parsed::Done(s.len() as int, o));
    assert(spec_table_option_part_2(s, 0) == Parsed::Done(s.len() as int, o));
}

#[verifier::spinoff_prover]
#[verifier::rlimit(100)]
proof fn lemma_option_text_union(v: Seq<Seq<char>>)
    requires
        forall|i: int| 0 <= i < v.len() ==> plain_name(#[trigger] v[i]),
    ensures
        spec_table_option(table_option_text(TableOptionView::Union(v)), 0) == Parsed::Done(
            table_option_text(TableOptionView::Union(v)).len() as int,
            TableOptionView::Union(v),
        ),
{
    let o = TableOptionView::Union(v);
    let s = table_option_text(o);
    reveal_strlit("AUTOEXTEND_SIZE");
    reveal_strlit("AUTO_INCREMENT");
    reveal_strlit("AVG_ROW_LENGTH");
    reveal_strlit("DEFAULT ");
    reveal_strlit("CHARACTER");
    reveal_strlit("DEFAULT");
    reveal_strlit("CHARSET");
    reveal_strlit("CHECKSUM");
    reveal_strlit("DEFAULT ");
    reveal_strlit("COLLATE");
    reveal_strlit("COMMENT");
    reveal_strlit("COMPRESSION");
    reveal_strlit("CONNECTION");
    reveal_strlit("DATA");
    reveal_strlit("INDEX");
    reveal_strlit("DELAY_KEY_WRITE");
    reveal_strlit("ENCRYPTION");
    reveal_strlit("ENGINE_ATTRIBUTE");
    reveal_strlit("ENGINE");
    reveal_strlit("INSERT_METHOD");
    reveal_strlit("KEY_BLOCK_SIZE");
    reveal_strlit("MAX_ROWS");
    reveal_strlit("MIN_ROWS");
    reveal_strlit("PACK_KEYS");
    reveal_strlit("PASSWORD");
    reveal_strlit("ROW_FORMAT");
    reveal_strlit("SECONDARY_ENGINE_ATTRIBUTE");
    reveal_strlit("STATS_AUTO_RECALC");
    reveal_strlit("STATS_PERSISTENT");
    reveal_strlit("STATS_SAMPLE_PAGES");
    reveal_strlit("TABLESPACE");
    reveal_strlit("UNION");
    lemma_union_value(v);
    reveal_with_fuel(run_end, 2);
    lemma_tag_nc_mismatch(s, 0, "AUTOEXTEND_SIZE"@, 0);
    assert(spec_key_number(s, 0, "AUTOEXTEND_SIZE"@) is NoMatch);
    lemma_tag_nc_mismatch(s, 0, "AUTO_INCREMENT"@, 0);
    assert(spec_key_number(s, 0, "AUTO_INCREMENT"@) is NoMatch);
    lemma_tag_nc_mismatch(s, 0, "AVG_ROW_LENGTH"@, 0);
    assert(spec_key_number(s, 0, "AVG_ROW_LENGTH"@) is NoMatch);
    lemma_tag_nc_mismatch(s, 0, "DEFAULT "@, 0);
    lemma_tag_nc_mismatch(s, 0, "CHARACTER"@, 0);
    assert(spec_default_character_set(s, 0) is NoMatch);
    lemma_tag_nc_mismatch(s, 0, "DEFAULT"@, 0);
    lemma_tag_nc_mismatch(s, 0, "CHARSET"@, 0);
    assert(spec_default_charset(s, 0) is NoMatch);
    lemma_tag_nc_mismatch(s, 0, "CHECKSUM"@, 0);
    assert(spec_key_zero_one(s, 0, "CHECKSUM"@) is NoMatch);
    lemma_tag_nc_mismatch(s, 0, "DEFAULT "@, 0);
    lemma_tag_nc_mismatch(s, 0, "COLLATE"@, 0);
    assert(spec_default_collate(s, 0) is NoMatch);
    lemma_tag_nc_mismatch(s, 0, "COMMENT"@, 0);
    assert(spec_key_quoted(s, 0, "COMMENT"@) is NoMatch);
    lemma_tag_nc_mismatch(s, 0, "COMPRESSION"@, 0);
    assert(spec_compression_type(s, 0) is NoMatch);
    lemma_tag_nc_mismatch(s, 0, "CONNECTION"@, 0);
    assert(spec_key_quoted(s, 0, "CONNECTION"@) is NoMatch);
    lemma_tag_nc_mismatch(s, 0, "DATA"@, 0);
    assert(spec_directory(s, 0, "DATA"@, true) is NoMatch);
    lemma_tag_nc_mismatch(s, 0, "INDEX"@, 0);
    assert(spec_directory(s, 0, "INDEX"@, false) is NoMatch);
    lemma_tag_nc_mismatch(s, 0, "DELAY_KEY_WRITE"@, 0);
    assert(spec_key_zero_one(s, 0, "DELAY_KEY_WRITE"@) is NoMatch);
    lemma_tag_nc_mismatch(s, 0, "ENCRYPTION"@, 0);
    assert(spec_encryption(s, 0) is NoMatch);
    lemma_tag_nc_mismatch(s, 0, "ENGINE_ATTRIBUTE"@, 0);
    assert(spec_key_quoted(s, 0, "ENGINE_ATTRIBUTE"@) is NoMatch);
    lemma_tag_nc_mismatch(s, 0, "ENGINE"@, 0);
    assert(spec_key_identifier(s, 0, "ENGINE"@) is NoMatch);
    lemma_tag_nc_mismatch(s, 0, "INSERT_METHOD"@, 0);
    assert(spec_insert_method_type(s, 0) is NoMatch);
    lemma_tag_nc_mismatch(s, 0, "KEY_BLOCK_SIZE"@, 0);
    assert(spec_key_number(s, 0, "KEY_BLOCK_SIZE"@) is NoMatch);
    lemma_tag_nc_mismatch(s, 0, "MAX_ROWS"@, 0);
    assert(spec_key_number(s, 0, "MAX_ROWS"@) is NoMatch);
    lemma_tag_nc_mismatch(s, 0, "MIN_ROWS"@, 0);
    assert(spec_key_number(s, 0, "MIN_ROWS"@) is NoMatch);
    lemma_tag_nc_mismatch(s, 0, "PACK_KEYS"@, 0);
    assert(spec_key_default_zero_one(s, 0, "PACK_KEYS"@) is NoMatch);
    lemma_tag_nc_mismatch(s, 0, "PASSWORD"@, 0);
    assert(spec_key_quoted(s, 0, "PASSWORD"@) is NoMatch);
    lemma_tag_nc_mismatch(s, 0, "ROW_FORMAT"@, 0);
    assert(spec_row_format_type(s, 0) is NoMatch);
    lemma_tag_nc_mismatch(s, 0, "SECONDARY_ENGINE_ATTRIBUTE"@, 0);
    assert(spec_key_quoted(s, 0, "SECONDARY_ENGINE_ATTRIBUTE"@) is NoMatch);
    lemma_tag_nc_mismatch(s, 0, "STATS_AUTO_RECALC"@, 0);
    assert(spec_key_default_zero_one(s, 0, "STATS_AUTO_RECALC"@) is NoMatch);
    lemma_tag_nc_mismatch(s, 0, "STATS_PERSISTENT"@, 0);
    assert(spec_key_default_zero_one(s, 0, "STATS_PERSISTENT"@) is NoMatch);
    lemma_tag_nc_mismatch(s, 0, "STATS_SAMPLE_PAGES"@, 0);
    assert(spec_key_number(s, 0, "STATS_SAMPLE_PAGES"@) is NoMatch);
    lemma_tag_nc_mismatch(s, 0, "TABLESPACE"@, 0);
    assert(spec_tablespace(s, 0) is NoMatch);
    assert(spec_table_option_part_1b(s, 0) is NoMatch);
    assert(spec_table_option_part_1(s, 0) is NoMatch);
    assert(spec_table_option_part_2b(s, 0) == Parsed::Done(s.len() as int, o));
    assert(spec_table_option_part_2(s, 0) == Parsed::Done(s.len() as int, o));
}

/// The text of a table option reads back as that option, the whole text
/// being read, for the options that [`option_reads_back`] describes.
pub proof fn lemma_table_option_round_trip(o: TableOptionView)
    requires
        option_reads_back(o),
    ensures
        spec_table_option(table_option_text(o), 0) == Parsed::Done(table_option_text(o).len() as int, o),
{
    match o {
        TableOptionView::AutoextendSize(v) => lemma_option_text_autoextend_size(v),
        TableOptionView::AutoIncrement(v) => lemma_option_text_auto_increment(v),
        TableOptionView::AvgRowLength(v) => lemma_option_text_avg_row_length(v),
        TableOptionView::DefaultCharacterSet(v) => lemma_option_text_default_character_set(v),
        TableOptionView::DefaultCharset(v) => lemma_option_text_default_charset(v),
        TableOptionView::Checksum(v) => lemma_option_text_checksum(v),
        TableOptionView::DefaultCollate(v) => lemma_option_text_default_collate(v),
        TableOptionView::Comment(v) => lemma_option_text_comment(v),
        TableOptionView::Compression(v) => lemma_option_text_compression(v),
        TableOptionView::Connection(v) => lemma_option_text_connection(v),
        TableOptionView::DataDirectory(v) => lemma_option_text_data_directory(v),
        TableOptionView::IndexDirectory(v) => lemma_option_text_index_directory(v),
        TableOptionView::DelayKeyWrite(v) => lemma_option_text_delay_key_write(v),
        TableOptionView::Encryption(v) => lemma_option_text_encryption(v),
        TableOptionView::EngineAttribute(v) => lemma_option_text_engine_attribute(v),
        TableOptionView::Engine(v) => lemma_option_text_engine(v),
        TableOptionView::InsertMethod(v) => lemma_option_text_insert_method(v),
        TableOptionView::KeyBlockSize(v) => lemma_option_text_key_block_size(v),
        TableOptionView::MaxRows(v) => lemma_option_text_max_rows(v),
        TableOptionView::MinRows(v) => lemma_option_text_min_rows(v),
        TableOptionView::PackKeys(v) => lemma_option_text_pack_keys(v),
        TableOptionView::Password(v) => lemma_option_text_password(v),
        TableOptionView::RowFormat(v) => lemma_option_text_row_format(v),
        TableOptionView::SecondaryEngineAttribute(v) => lemma_option_text_secondary_engine_attribute(v),
        TableOptionView::StatsAutoRecalc(v) => lemma_option_text_stats_auto_recalc(v),
        TableOptionView::StatsPersistent(v) => lemma_option_text_stats_persistent(v),
        TableOptionView::StatsSamplePages(v) => lemma_option_text_stats_sample_pages(v),
        TableOptionView::Tablespace(v, t) => lemma_option_text_tablespace(v, t),
        TableOptionView::Union(v) => lemma_option_text_union(v),
        _ => {},
    }
}

} // verus!
