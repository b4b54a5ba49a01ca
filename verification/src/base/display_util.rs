//! Text of values: decimal and hexadecimal numbers, and names quoted with
//! back quotes when they read as a reserved keyword.
use vstd::prelude::*;

use crate::base::common_parser::{
    alpha_end, ident_char, ident_end, spec_sql_identifier, spec_sql_keyword, sql_keyword_at,
};
use crate::base::input::{is_alpha, lemma_run_end_bounds, lemma_run_end_stops, Input, Parsed};

verus! {

/// The decimal digit character for `d < 10`.
pub open spec fn digit_char(d: nat) -> char {
    if d == 0 {
        '0'
    } else if d == 1 {
        '1'
    } else if d == 2 {
        '2'
    } else if d == 3 {
        '3'
    } else if d == 4 {
        '4'
    } else if d == 5 {
        '5'
    } else if d == 6 {
        '6'
    } else if d == 7 {
        '7'
    } else if d == 8 {
        '8'
    } else {
        '9'
    }
}

/// The hexadecimal digit character (lower case) for `d < 16`.
pub open spec fn hex_char(d: nat) -> char {
    if d < 10 {
        digit_char(d)
    } else if d == 10 {
        'a'
    } else if d == 11 {
        'b'
    } else if d == 12 {
        'c'
    } else if d == 13 {
        'd'
    } else if d == 14 {
        'e'
    } else {
        'f'
    }
}

/// Decimal text of a natural number, without leading zeros.
pub open spec fn nat_text(n: nat) -> Seq<char>
    decreases n,
{
    if n < 10 {
        seq![digit_char(n)]
    } else {
        nat_text(n / 10).push(digit_char(n % 10))
    }
}

/// Decimal text of an integer, with a leading `-` when negative.
pub open spec fn int_text(i: int) -> Seq<char> {
    if i < 0 {
        seq!['-'] + nat_text((-i) as nat)
    } else {
        nat_text(i as nat)
    }
}

/// Lower-case hexadecimal text of a natural number, without leading zeros.
pub open spec fn hex_text(n: nat) -> Seq<char>
    decreases n,
{
    if n < 16 {
        seq![hex_char(n)]
    } else {
        hex_text(n / 16).push(hex_char(n % 16))
    }
}

fn digit_str(d: u64) -> (r: &'static str)
    requires
        d < 16,
    ensures
        r@ == seq![hex_char(d as nat)],
{
    proof {
        reveal_strlit("0");
        reveal_strlit("1");
        reveal_strlit("2");
        reveal_strlit("3");
        reveal_strlit("4");
        reveal_strlit("5");
        reveal_strlit("6");
        reveal_strlit("7");
        reveal_strlit("8");
        reveal_strlit("9");
        reveal_strlit("a");
        reveal_strlit("b");
        reveal_strlit("c");
        reveal_strlit("d");
        reveal_strlit("e");
        reveal_strlit("f");
    }
    let r = match d {
        0 => "0",
        1 => "1",
        2 => "2",
        3 => "3",
        4 => "4",
        5 => "5",
        6 => "6",
        7 => "7",
        8 => "8",
        9 => "9",
        10 => "a",
        11 => "b",
        12 => "c",
        13 => "d",
        14 => "e",
        _ => "f",
    };
    assert(r@ =~= seq![hex_char(d as nat)]);
    r
}

/// Appends the decimal text of `n`.
pub fn push_nat(out: &mut String, n: u64)
    ensures
        final(out)@ == old(out)@ + nat_text(n as nat),
    decreases n,
{
    if n >= 10 {
        push_nat(out, n / 10);
    }
    out.append(digit_str(n % 10));
    assert(old(out)@ + nat_text(n as nat) =~= if n >= 10 {
        old(out)@ + nat_text((n / 10) as nat) + seq![digit_char((n % 10) as nat)]
    } else {
        old(out)@ + seq![digit_char(n as nat)]
    });
}

/// Appends the hexadecimal text of `n`.
pub fn push_hex(out: &mut String, n: u64)
    ensures
        final(out)@ == old(out)@ + hex_text(n as nat),
    decreases n,
{
    if n >= 16 {
        push_hex(out, n / 16);
    }
    out.append(digit_str(n % 16));
    assert(old(out)@ + hex_text(n as nat) =~= if n >= 16 {
        old(out)@ + hex_text((n / 16) as nat) + seq![hex_char((n % 16) as nat)]
    } else {
        old(out)@ + seq![hex_char(n as nat)]
    });
}

/// Appends the decimal text of `i`.
pub fn push_int(out: &mut String, i: i64)
    ensures
        final(out)@ == old(out)@ + int_text(i as int),
{
    if i < 0 {
        out.append("-");
        proof {
            reveal_strlit("-");
        }
        let m: u64 = (-(i as i128)) as u64;
        push_nat(out, m);
        assert(old(out)@ + int_text(i as int) =~= old(out)@ + seq!['-'] + nat_text(m as nat));
    } else {
        push_nat(out, i as u64);
    }
}

/// A name as it is printed: enclosed in back quotes when it reads as a
/// reserved keyword (the keyword rule matches at its start), unchanged otherwise.
pub open spec fn escaped_name(s: Seq<char>) -> Seq<char> {
    if spec_sql_keyword(s, 0) is Some {
        seq!['`'] + s + seq!['`']
    } else {
        s
    }
}

pub struct DisplayUtil;

impl DisplayUtil {
    /// add `` to string if string is a MySQL keyword
    pub fn escape_if_keyword(s: &str) -> (r: String)
        ensures
            r@ == escaped_name(s@),
    {
        let src = Input::new(s);
        if sql_keyword_at(&src, 0).is_some() {
            let mut out = "`".to_owned();
            out.append(s);
            out.append("`");
            proof {
                reveal_strlit("`");
            }
            assert(out@ =~= seq!['`'] + s@ + seq!['`']);
            out
        } else {
            s.to_owned()
        }
    }
}

/// A name made of identifier characters and starting with a letter, once
/// escaped, reads back as an identifier whose text is the name, the whole
/// escaped text being read: keywords come back through their back quotes.
pub proof fn lemma_escaped_name_reads_back(s: Seq<char>)
    requires
        s.len() > 0,
        is_alpha(s[0]),
        forall|j: int| 0 <= j < s.len() ==> ident_char(#[trigger] s[j]),
    ensures
        spec_sql_identifier(escaped_name(s), 0) matches Parsed::Done(e, (a, b)) && e
            == escaped_name(s).len() && escaped_name(s).subrange(a, b) == s,
{
    let t = escaped_name(s);
    if spec_sql_keyword(s, 0) is Some {
        let n = s.len() as int;
        assert(t[0] == '`');
        assert(t[1] == s[0]);
        assert forall|j: int| 1 <= j < 1 + n implies ident_char(#[trigger] t[j]) by {
            assert(t[j] == s[j - 1]);
        }
        assert(t[1 + n] == '`');
        assert(!ident_char('`'));
        lemma_run_end_stops(t, 1, 1 + n, |c: char| ident_char(c));
        assert(t.subrange(1, 1 + n) =~= s);
    } else {
        let n = s.len() as int;
        lemma_run_end_bounds(s, 0, |c: char| is_alpha(c));
        let k = alpha_end(s, 0);
        lemma_run_end_stops(s, k, n, |c: char| ident_char(c));
        assert(s.subrange(0, n) =~= s);
    }
}

} // verus!
