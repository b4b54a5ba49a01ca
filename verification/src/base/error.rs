//! The error returned by every public parser.
use vstd::prelude::*;
use vstd::utf8::encode_utf8;

verus! {

/// What went wrong at one point of a failed parse.
#[derive(Clone, Debug, PartialEq, Eq)]
pub enum ParseSQLErrorKind {
    /// A named grammar rule that did not accept the input.
    Context(String),
    /// A character that was expected and not found.
    Char(char),
    /// The input does not match the grammar.
    Grammar,
}

/// A failed parse: the input at each point of failure, with what failed there.
#[derive(Clone, Debug, PartialEq, Eq)]
pub struct ParseSQLError {
    pub errors: Vec<(String, ParseSQLErrorKind)>,
}

/// `String::push` appends one character at the end of the string.
pub assume_specification[ std::string::String::push ](s: &mut std::string::String, ch: char)
    ensures
        final(s)@ == old(s)@.push(ch),
;

/// One line of an error's text: what failed, and the input where it failed.
pub open spec fn error_line(input: Seq<char>, kind: ParseSQLErrorKind) -> Seq<char> {
    (match kind {
        ParseSQLErrorKind::Context(c) => "in section '"@ + c@ + "', at: "@,
        ParseSQLErrorKind::Char(ch) => "expected '"@ + seq![ch] + "' at: "@,
        ParseSQLErrorKind::Grammar => "Grammar at: "@,
    }) + input + "\n"@
}

/// The lines of the first `n` failures.
pub open spec fn error_lines(errors: Seq<(String, ParseSQLErrorKind)>, n: int) -> Seq<char>
    decreases n,
{
    if n <= 0 {
        Seq::empty()
    } else {
        error_lines(errors, n - 1) + error_line(errors[n - 1].0@, errors[n - 1].1)
    }
}

impl ParseSQLError {
    /// Of two errors, the one whose first failure lies farther into the input
    /// (has fewer bytes of input left); `other` where both lie equally far.
    pub fn or(self, other: Self) -> (r: Self)
        requires
            self.errors@.len() > 0,
            other.errors@.len() > 0,
        ensures
            r == if encode_utf8(self.errors@[0].0@).len() as usize >= encode_utf8(
                other.errors@[0].0@,
            ).len() as usize {
                other
            } else {
                self
            },
    {
        if self.errors[0].0.as_str().len() >= other.errors[0].0.as_str().len() {
            other
        } else {
            self
        }
    }

    /// `Parse error:` and then one line per failure.
    pub fn to_string(&self) -> (r: String)
        ensures
            r@ == "Parse error:\n"@ + error_lines(self.errors@, self.errors@.len() as int),
    {
        let mut out = String::from_str("Parse error:\n");
        let mut i: usize = 0;
        while i < self.errors.len()
            invariant
                i <= self.errors@.len(),
                out@ == "Parse error:\n"@ + error_lines(self.errors@, i as int),
            decreases self.errors@.len() - i,
        {
            let ghost before = out@;
            match &self.errors[i].1 {
                ParseSQLErrorKind::Context(c) => {
                    out.append("in section '");
                    out.append(c.as_str());
                    out.append("', at: ");
                },
                ParseSQLErrorKind::Char(ch) => {
                    out.append("expected '");
                    out.push(*ch);
                    out.append("' at: ");
                },
                ParseSQLErrorKind::Grammar => {
                    out.append("Grammar at: ");
                },
            }
            out.append(self.errors[i].0.as_str());
            out.append("\n");
            assert(out@ =~= before + error_line(self.errors@[i as int].0@, self.errors@[i as int].1));
            i = i + 1;
        }
        out
    }

    /// The error for an input that the grammar does not accept.
    pub fn grammar(input: &str) -> (r: ParseSQLError)
        ensures
            r.errors@.len() == 1,
            r.errors@[0].0@ == input@,
            r.errors@[0].1 == ParseSQLErrorKind::Grammar,
    {
        let mut errors = Vec::new();
        errors.push((input.to_owned(), ParseSQLErrorKind::Grammar));
        ParseSQLError { errors }
    }
}

} // verus!
