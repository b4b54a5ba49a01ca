//! The character input every parser reads, and the character-level grammar
//! (white space, digits, letters, literal tags) the parsers are built from.
use vstd::prelude::*;

use crate::base::error::{ParseSQLError, ParseSQLErrorKind};

verus! {

/// Outcome of a grammar rule applied at a position of the input.
///
/// `Done(end, value)`: the rule matched the characters from the start position
/// up to `end` and produced `value`.
/// `NoMatch`: the rule does not match there.
/// `Abort`: the rule would abort the program (a number too large for its
/// target type); the executable parsers exclude such inputs.
pub enum Parsed<T> {
    Done(int, T),
    NoMatch,
    Abort,
}

/// `r` is the executable result that corresponds to the rule outcome `sp`.
pub open spec fn agrees<T: DeepView>(r: Option<(usize, T)>, sp: Parsed<T::V>) -> bool {
    match sp {
        Parsed::Done(q, v) => r matches Some((q2, v2)) && q2 == q && v2.deep_view() == v,
        Parsed::NoMatch => r is None,
        Parsed::Abort => false,
    }
}


/// `r` is the result of a public parser on input `i` that corresponds to the
/// rule outcome `sp` at position 0: on a match, the unread rest of `i` (the
/// suffix of `i` from the rule's end on) and the value; otherwise the grammar
/// error at `i`.
pub open spec fn str_agrees<'a, T: DeepView>(
    i: Seq<char>,
    r: Result<(&'a str, T), ParseSQLError>,
    sp: Parsed<T::V>,
) -> bool {
    match sp {
        Parsed::Done(q, v) => r matches Ok((rest, x)) && 0 <= q <= i.len()
            && rest@ == i.subrange(q, i.len() as int) && x.deep_view() == v,
        Parsed::NoMatch => r matches Err(e) && is_grammar_error(i, e),
        Parsed::Abort => false,
    }
}

/// The error that a parser gives where its grammar does not accept input
/// `i`: a single failure, at `i`, of kind `Grammar`.
pub open spec fn is_grammar_error(i: Seq<char>, e: ParseSQLError) -> bool {
    &&& e.errors@.len() == 1
    &&& e.errors@[0].0@ == i
    &&& e.errors@[0].1 == ParseSQLErrorKind::Grammar
}

/// First successful rule in order; an abort in an
/// earlier alternative aborts before later ones are tried.
pub open spec fn alt<T>(a: Parsed<T>, b: Parsed<T>) -> Parsed<T> {
    match a {
        Parsed::NoMatch => b,
        _ => a,
    }
}

/// Every successful outcome ends between `p` and `n`.
pub open spec fn within<T>(a: Parsed<T>, p: int, n: int) -> bool {
    a matches Parsed::Done(q, _) ==> p <= q <= n
}

pub open spec fn is_space(c: char) -> bool {
    c == ' ' || c == '\t' || c == '\r' || c == '\n'
}

pub open spec fn is_digit(c: char) -> bool {
    '0' <= c && c <= '9'
}

pub open spec fn is_alpha(c: char) -> bool {
    ('a' <= c && c <= 'z') || ('A' <= c && c <= 'Z')
}

pub open spec fn is_alnum(c: char) -> bool {
    is_alpha(c) || is_digit(c)
}

/// The code of `c` with ASCII upper-case letters mapped to lower case.
pub open spec fn lower_code(c: char) -> u32 {
    if 'A' <= c && c <= 'Z' {
        (c as u32 + 32) as u32
    } else {
        c as u32
    }
}

/// Equality of characters ignoring ASCII case.
pub open spec fn eq_no_case(a: char, b: char) -> bool {
    lower_code(a) == lower_code(b)
}

/// `s[p] == c`.
pub open spec fn char_at(s: Seq<char>, p: int, c: char) -> bool {
    0 <= p < s.len() && s[p] == c
}

/// `t` occurs at position `p` of `s`.
pub open spec fn has_tag(s: Seq<char>, p: int, t: Seq<char>) -> bool {
    0 <= p && p + t.len() <= s.len() && s.subrange(p, p + t.len()) == t
}

/// `t` occurs at position `p` of `s`, ignoring ASCII case.
pub open spec fn has_tag_nc(s: Seq<char>, p: int, t: Seq<char>) -> bool {
    &&& 0 <= p
    &&& p + t.len() <= s.len()
    &&& forall|j: int| 0 <= j < t.len() ==> #[trigger] eq_no_case(s[p + j], t[j])
}

/// End of the longest run, from `p`, of characters satisfying `f`.
pub open spec fn run_end(s: Seq<char>, p: int, f: spec_fn(char) -> bool) -> int
    decreases s.len() - p,
{
    if 0 <= p < s.len() && f(s[p]) {
        run_end(s, p + 1, f)
    } else {
        p
    }
}

pub open spec fn ws_end(s: Seq<char>, p: int) -> int {
    run_end(s, p, |c: char| is_space(c))
}

pub open spec fn digits_end(s: Seq<char>, p: int) -> int {
    run_end(s, p, |c: char| is_digit(c))
}

/// Decimal value of a sequence of digit characters.
pub open spec fn digits_value(d: Seq<char>) -> nat
    decreases d.len(),
{
    if d.len() == 0 {
        0
    } else {
        digits_value(d.drop_last()) * 10 + ((d.last() as u32 - '0' as u32) as nat)
    }
}


/// A literal occurrence of `t` is also an occurrence ignoring case.
pub proof fn lemma_tag_nc_of_eq(s: Seq<char>, p: int, t: Seq<char>)
    requires
        0 <= p,
        p + t.len() <= s.len(),
        s.subrange(p, p + t.len()) =~= t,
    ensures
        has_tag_nc(s, p, t),
        has_tag(s, p, t),
{
    assert forall|j: int| 0 <= j < t.len() implies #[trigger] eq_no_case(s[p + j], t[j]) by {
        assert(s.subrange(p, p + t.len())[j] == s[p + j]);
    }
}

/// One differing character rules out an occurrence of `t`.
pub proof fn lemma_tag_nc_mismatch(s: Seq<char>, p: int, t: Seq<char>, j: int)
    requires
        0 <= j < t.len(),
        0 <= p + j < s.len(),
        !eq_no_case(s[p + j], t[j]),
    ensures
        !has_tag_nc(s, p, t),
{
}

/// `w` is the word `t` written in any mix of ASCII upper and lower case.
pub open spec fn spelled(w: Seq<char>, t: Seq<char>) -> bool {
    &&& w.len() == t.len()
    &&& forall|j: int| 0 <= j < t.len() ==> #[trigger] eq_no_case(w[j], t[j])
}

/// `b` is a non-empty run of white space.
pub open spec fn blanks(b: Seq<char>) -> bool {
    &&& b.len() > 0
    &&& forall|j: int| 0 <= j < b.len() ==> is_space(#[trigger] b[j])
}

/// A word spelled as `t` at `p` is the tag `t` there, ignoring case.
pub proof fn lemma_spelled_tag(s: Seq<char>, p: int, w: Seq<char>, t: Seq<char>)
    requires
        0 <= p,
        p + w.len() <= s.len(),
        s.subrange(p, p + w.len()) == w,
        spelled(w, t),
    ensures
        has_tag_nc(s, p, t),
{
    assert forall|j: int| 0 <= j < t.len() implies #[trigger] eq_no_case(s[p + j], t[j]) by {
        assert(s.subrange(p, p + w.len())[j] == s[p + j]);
        assert(eq_no_case(w[j], t[j]));
    }
}

/// White space `b` at `p`, followed by the end or by a character that is
/// not white space, ends where `b` ends.
pub proof fn lemma_blanks_end(s: Seq<char>, p: int, b: Seq<char>)
    requires
        0 <= p,
        p + b.len() <= s.len(),
        s.subrange(p, p + b.len()) == b,
        forall|j: int| 0 <= j < b.len() ==> is_space(#[trigger] b[j]),
        p + b.len() < s.len() ==> !is_space(s[p + b.len()]),
    ensures
        ws_end(s, p) == p + b.len(),
{
    assert forall|j: int| p <= j < p + b.len() implies is_space(#[trigger] s[j]) by {
        assert(s.subrange(p, p + b.len())[j - p] == s[j]);
        assert(is_space(b[j - p]));
    }
    lemma_run_end_stops(s, p, p + b.len(), |c: char| is_space(c));
}

pub proof fn lemma_run_end_bounds(s: Seq<char>, p: int, f: spec_fn(char) -> bool)
    requires
        0 <= p <= s.len(),
    ensures
        p <= run_end(s, p, f) <= s.len(),
        forall|j: int| p <= j < run_end(s, p, f) ==> f(#[trigger] s[j]),
        run_end(s, p, f) < s.len() ==> !f(s[run_end(s, p, f)]),
    decreases s.len() - p,
{
    if p < s.len() && f(s[p]) {
        lemma_run_end_bounds(s, p + 1, f);
    }
}

/// A run of characters satisfying `f` that stops at `e` ends at `e`.
pub proof fn lemma_run_end_stops(s: Seq<char>, p: int, e: int, f: spec_fn(char) -> bool)
    requires
        0 <= p <= e <= s.len(),
        forall|j: int| p <= j < e ==> f(#[trigger] s[j]),
        e < s.len() ==> !f(s[e]),
    ensures
        run_end(s, p, f) == e,
    decreases e - p,
{
    if p < e {
        lemma_run_end_stops(s, p + 1, e, f);
    }
}

pub proof fn lemma_digits_value_push(d: Seq<char>, c: char)
    ensures
        digits_value(d.push(c)) == digits_value(d) * 10 + ((c as u32 - '0' as u32) as nat),
{
    assert(d.push(c).drop_last() =~= d);
}


pub proof fn lemma_digits_value_prefix(d: Seq<char>, k: int)
    requires
        0 <= k <= d.len(),
    ensures
        digits_value(d.subrange(0, k)) <= digits_value(d),
    decreases d.len(),
{
    if k < d.len() {
        lemma_digits_value_prefix(d.drop_last(), k);
        assert(d.drop_last().subrange(0, k) =~= d.subrange(0, k));
    } else {
        assert(d.subrange(0, k) =~= d);
    }
}

/// The characters of a string, held together with the string itself so that
/// parsers can both index characters and hand back slices of the input string.
pub struct Input<'a> {
    text: &'a str,
    chars: Vec<char>,
}

impl<'a> View for Input<'a> {
    type V = Seq<char>;

    closed spec fn view(&self) -> Seq<char> {
        self.chars@
    }
}

impl<'a> Input<'a> {
    #[verifier::type_invariant]
    closed spec fn inv(self) -> bool {
        self.chars@ == self.text@
    }

    pub fn new(text: &'a str) -> (r: Input<'a>)
        ensures
            r@ == text@,
    {
        let n = text.unicode_len();
        let mut chars: Vec<char> = Vec::new();
        let mut k: usize = 0;
        while k < n
            invariant
                n == text@.len(),
                k <= n,
                chars@ == text@.subrange(0, k as int),
            decreases n - k,
        {
            chars.push(text.get_char(k));
            k = k + 1;
        }
        assert(chars@ =~= text@);
        Input { text, chars }
    }

    pub fn len(&self) -> (r: usize)
        ensures
            r == self@.len(),
    {
        self.chars.len()
    }

    pub fn at(&self, p: usize) -> (c: char)
        requires
            p < self@.len(),
        ensures
            self@.len() <= usize::MAX,
            c == self@[p as int],
    {
        assert(self.chars@.len() == self.chars.len());
        self.chars[p]
    }

    /// The characters from `a` to `b` as an owned string.
    pub fn string(&self, a: usize, b: usize) -> (r: String)
        requires
            a <= b <= self@.len(),
        ensures
            r@ == self@.subrange(a as int, b as int),
    {
        proof {
            use_type_invariant(self);
        }
        self.text.substring_char(a, b).to_owned()
    }

    /// The characters from `a` to `b` as a slice of the input string.
    pub fn slice(&self, a: usize, b: usize) -> (r: &'a str)
        requires
            a <= b <= self@.len(),
        ensures
            r@ == self@.subrange(a as int, b as int),
    {
        proof {
            use_type_invariant(self);
        }
        self.text.substring_char(a, b)
    }

    /// The input that remains from position `p`.
    pub fn rest(&self, p: usize) -> (r: &'a str)
        requires
            p <= self@.len(),
        ensures
            r@ == self@.subrange(p as int, self@.len() as int),
    {
        self.slice(p, self.len())
    }

    pub fn is_char(&self, p: usize, c: char) -> (r: bool)
        ensures
            self@.len() <= usize::MAX,
            r == char_at(self@, p as int, c),
    {
        p < self.chars.len() && self.chars[p] == c
    }

    /// `multispace0`: the end of the white space that starts at `p`.
    pub fn skip_ws(&self, p: usize) -> (q: usize)
        requires
            p <= self@.len(),
        ensures
            self@.len() <= usize::MAX,
            q == ws_end(self@, p as int),
            p <= q <= self@.len(),
    {
        let mut q = p;
        while q < self.chars.len() && is_space_exec(self.chars[q])
            invariant
                p <= q <= self@.len(),
                ws_end(self@, q as int) == ws_end(self@, p as int),
            decreases self@.len() - q,
        {
            q = q + 1;
        }
        q
    }

    /// End of the run of digits that starts at `p`.
    pub fn skip_digits(&self, p: usize) -> (q: usize)
        requires
            p <= self@.len(),
        ensures
            self@.len() <= usize::MAX,
            q == digits_end(self@, p as int),
            p <= q <= self@.len(),
    {
        let mut q = p;
        while q < self.chars.len() && is_digit_exec(self.chars[q])
            invariant
                p <= q <= self@.len(),
                digits_end(self@, q as int) == digits_end(self@, p as int),
            decreases self@.len() - q,
        {
            q = q + 1;
        }
        q
    }


    /// Decimal value of the digits from `a` to `b`, if it is at most `max`.
    pub fn digits_upto(&self, a: usize, b: usize, max: u64) -> (r: Option<u64>)
        requires
            a <= b <= self@.len(),
            forall|j: int| a <= j < b ==> is_digit(#[trigger] self@[j]),
        ensures
            match r {
                Some(v) => v == digits_value(self@.subrange(a as int, b as int)) && v <= max,
                None => digits_value(self@.subrange(a as int, b as int)) > max,
            },
    {
        let mut acc: u64 = 0;
        let mut k = a;
        assert(self@.subrange(a as int, a as int) =~= Seq::<char>::empty());
        while k < b
            invariant
                a <= k <= b <= self@.len(),
                forall|j: int| a <= j < b ==> is_digit(#[trigger] self@[j]),
                acc == digits_value(self@.subrange(a as int, k as int)),
                acc <= max,
            decreases b - k,
        {
            let c = self.chars[k];
            assert(is_digit(self@[k as int]));
            let d: u64 = ((c as u32) - ('0' as u32)) as u64;
            proof {
                assert(self@.subrange(a as int, k + 1) =~= self@.subrange(a as int, k as int).push(c));
                lemma_digits_value_push(self@.subrange(a as int, k as int), c);
            }
            if d > max || acc > (max - d) / 10 {
                proof {
                    let whole = self@.subrange(a as int, b as int);
                    assert(whole.subrange(0, k + 1 - a) =~= self@.subrange(a as int, k + 1));
                    lemma_digits_value_prefix(whole, k + 1 - a);
                    if d <= max {
                        assert(acc * 10 + d > max) by (nonlinear_arith)
                            requires acc > (max - d) / 10, d <= max;
                    }
                }
                return None;
            }
            assert(acc * 10 + d <= max) by (nonlinear_arith)
                requires acc <= (max - d) / 10, d <= max;
            acc = acc * 10 + d;
            k = k + 1;
        }
        Some(acc)
    }

    /// `t` occurs at `p`, ignoring ASCII case.
    pub fn tag_nc(&self, p: usize, t: &str) -> (r: bool)
        requires
            p <= self@.len(),
        ensures
            self@.len() <= usize::MAX,
            r == has_tag_nc(self@, p as int, t@),
    {
        let n = t.unicode_len();
        if n > self.chars.len() - p {
            return false;
        }
        let mut k: usize = 0;
        while k < n
            invariant
                n == t@.len(),
                p + n <= self@.len(),
                self@.len() == self.chars.len(),
                k <= n,
                forall|j: int| 0 <= j < k ==> #[trigger] eq_no_case(self@[p + j], t@[j]),
            decreases n - k,
        {
            if !eq_no_case_exec(self.chars[p + k], t.get_char(k)) {
                return false;
            }
            k = k + 1;
        }
        true
    }

    /// `t` occurs at `p` exactly.
    pub fn tag(&self, p: usize, t: &str) -> (r: bool)
        requires
            p <= self@.len(),
        ensures
            self@.len() <= usize::MAX,
            r == has_tag(self@, p as int, t@),
    {
        let n = t.unicode_len();
        if n > self.chars.len() - p {
            return false;
        }
        let mut k: usize = 0;
        while k < n
            invariant
                n == t@.len(),
                p + n <= self@.len(),
                self@.len() == self.chars.len(),
                k <= n,
                forall|j: int| 0 <= j < k ==> self@[p + j] == t@[j],
            decreases n - k,
        {
            if self.chars[p + k] != t.get_char(k) {
                assert(self@.subrange(p as int, p + n)[k as int] != t@[k as int]);
                return false;
            }
            k = k + 1;
        }
        assert(self@.subrange(p as int, p + n) =~= t@);
        true
    }
}

pub fn is_space_exec(c: char) -> (r: bool)
    ensures
        r == is_space(c),
{
    c == ' ' || c == '\t' || c == '\r' || c == '\n'
}

pub fn is_digit_exec(c: char) -> (r: bool)
    ensures
        r == is_digit(c),
{
    '0' <= c && c <= '9'
}

pub fn is_alpha_exec(c: char) -> (r: bool)
    ensures
        r == is_alpha(c),
{
    ('a' <= c && c <= 'z') || ('A' <= c && c <= 'Z')
}

pub fn lower_code_exec(c: char) -> (r: u32)
    ensures
        r == lower_code(c),
{
    if 'A' <= c && c <= 'Z' {
        (c as u32) + 32
    } else {
        c as u32
    }
}

pub fn eq_no_case_exec(a: char, b: char) -> (r: bool)
    ensures
        r == eq_no_case(a, b),
{
    lower_code_exec(a) == lower_code_exec(b)
}

} // verus!
