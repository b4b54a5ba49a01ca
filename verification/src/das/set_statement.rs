//! `SET variable = expr`
use vstd::prelude::*;

use crate::base::common_parser::{
    spec_sql_identifier, spec_statement_terminator, sql_identifier_at, statement_terminator_at,
};
use crate::base::error::ParseSQLError;
use crate::base::input::{agrees, char_at, has_tag_nc, str_agrees, ws_end, Input, Parsed};
use crate::base::literal::{literal_at, literal_text, spec_literal, Literal, LiteralView};

verus! {

/// parse `SET variable = expr [, variable = expr] ...`
///
/// `variable: {
///     user_var_name
///   | param_name
///   | local_var_name
///   | {GLOBAL | @@GLOBAL.} system_var_name
///   | {PERSIST | @@PERSIST.} system_var_name
///   | {PERSIST_ONLY | @@PERSIST_ONLY.} system_var_name
///   | [SESSION | @@SESSION. | @@] system_var_name
/// }`
#[derive(Clone, Debug, Eq, Hash, PartialEq)]
pub struct SetStatement {
    pub variable: String,
    pub value: Literal,
}

pub struct SetStatementView {
    pub variable: Seq<char>,
    pub value: LiteralView,
}

impl DeepView for SetStatement {
    type V = SetStatementView;

    open spec fn deep_view(&self) -> SetStatementView {
        SetStatementView { variable: self.variable@, value: self.value.deep_view() }
    }
}

/// `SET ws identifier [ws] = [ws] literal terminator`
pub open spec fn spec_set_statement(s: Seq<char>, p: int) -> Parsed<SetStatementView> {
    let a = p + "SET"@.len();
    if has_tag_nc(s, p, "SET"@) && ws_end(s, a) > a {
        match spec_sql_identifier(s, ws_end(s, a)) {
            Parsed::Done(e, (x, y)) => if char_at(s, ws_end(s, e), '=') {
                match spec_literal(s, ws_end(s, ws_end(s, e) + 1)) {
                    Parsed::Done(f, v) => match spec_statement_terminator(s, f) {
                        Parsed::Done(g, _) => Parsed::Done(
                            g,
                            SetStatementView { variable: s.subrange(x, y), value: v },
                        ),
                        _ => Parsed::NoMatch,
                    },
                    Parsed::NoMatch => Parsed::NoMatch,
                    Parsed::Abort => Parsed::Abort,
                }
            } else {
                Parsed::NoMatch
            },
            _ => Parsed::NoMatch,
        }
    } else {
        Parsed::NoMatch
    }
}

pub fn set_statement_at(src: &Input, p: usize) -> (r: Option<(usize, SetStatement)>)
    requires
        p <= src@.len(),
        !(spec_set_statement(src@, p as int) is Abort),
    ensures
        agrees(r, spec_set_statement(src@, p as int)),
        r matches Some((q, _)) ==> p < q <= src@.len(),
{
    if !src.tag_nc(p, "SET") {
        return None;
    }
    let a = p + "SET".unicode_len();
    let b = src.skip_ws(a);
    if b == a {
        return None;
    }
    let (e, sp) = match sql_identifier_at(src, b) {
        Some(x) => x,
        None => return None,
    };
    let c = src.skip_ws(e);
    if !src.is_char(c, '=') {
        return None;
    }
    let (f, v) = match literal_at(src, src.skip_ws(c + 1)) {
        Some(x) => x,
        None => return None,
    };
    match statement_terminator_at(src, f) {
        Some((g, _)) => Some((g, SetStatement { variable: src.string(sp.start, sp.end), value: v })),
        None => None,
    }
}

/// `SET variable = value`
pub open spec fn set_statement_text(st: SetStatementView) -> Seq<char> {
    "SET "@ + st.variable + " = "@ + literal_text(st.value)
}

impl SetStatement {
    /// `SET variable = value` followed by a statement terminator.
    pub fn parse(i: &str) -> (r: Result<(&str, SetStatement), ParseSQLError>)
        requires
            !(spec_set_statement(i@, 0) is Abort),
        ensures
            str_agrees(i@, r, spec_set_statement(i@, 0)),
    {
        let src = Input::new(i);
        match set_statement_at(&src, 0) {
            Some((q, v)) => Ok((src.rest(q), v)),
            None => Err(ParseSQLError::grammar(i)),
        }
    }

    /// The SQL text of the statement.
    pub fn to_string(&self) -> (r: String)
        ensures
            r@ == set_statement_text(self.deep_view()),
    {
        let mut out = "SET ".to_owned();
        out.append(self.variable.as_str());
        out.append(" = ");
        self.value.push_text(&mut out);
        assert(out@ =~= set_statement_text(self.deep_view()));
        out
    }
}

} // verus!
