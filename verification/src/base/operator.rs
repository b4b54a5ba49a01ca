//! Parse binary comparison operators
use vstd::prelude::*;

use crate::base::error::ParseSQLError;
use crate::base::input::{
    agrees, alt, char_at, has_tag_nc, lemma_tag_nc_mismatch, lemma_tag_nc_of_eq, run_end, str_agrees, ws_end, Input, Parsed, eq_no_case, lemma_spelled_tag, spelled,
};

verus! {

/// Parse binary comparison operators
#[derive(Clone, Copy, Debug, Eq, Hash, PartialEq, Structural)]
pub enum Operator {
    Not,
    And,
    Or,
    Like,
    NotLike,
    Equal,
    NotEqual,
    Greater,
    GreaterOrEqual,
    Less,
    LessOrEqual,
    In,
    NotIn,
    Is,
}

impl DeepView for Operator {
    type V = Operator;

    open spec fn deep_view(&self) -> Operator {
        *self
    }
}

/// `{NOT_LIKE | LIKE | != | <> | >= | <= | = | < | > | IN}`, ignoring case, tried in this order.
#[verifier::opaque]
pub open spec fn spec_operator(s: Seq<char>, p: int) -> Parsed<Operator> {
    if has_tag_nc(s, p, "NOT_LIKE"@) {
        Parsed::Done(p + "NOT_LIKE"@.len(), Operator::NotLike)
    } else if has_tag_nc(s, p, "LIKE"@) {
        Parsed::Done(p + "LIKE"@.len(), Operator::Like)
    } else if has_tag_nc(s, p, "!="@) {
        Parsed::Done(p + "!="@.len(), Operator::NotEqual)
    } else if has_tag_nc(s, p, "<>"@) {
        Parsed::Done(p + "<>"@.len(), Operator::NotEqual)
    } else if has_tag_nc(s, p, ">="@) {
        Parsed::Done(p + ">="@.len(), Operator::GreaterOrEqual)
    } else if has_tag_nc(s, p, "<="@) {
        Parsed::Done(p + "<="@.len(), Operator::LessOrEqual)
    } else if has_tag_nc(s, p, "="@) {
        Parsed::Done(p + "="@.len(), Operator::Equal)
    } else if has_tag_nc(s, p, "<"@) {
        Parsed::Done(p + "<"@.len(), Operator::Less)
    } else if has_tag_nc(s, p, ">"@) {
        Parsed::Done(p + ">"@.len(), Operator::Greater)
    } else if has_tag_nc(s, p, "IN"@) {
        Parsed::Done(p + "IN"@.len(), Operator::In)
    } else {
        Parsed::NoMatch
    }
}

pub fn operator_at(src: &Input, p: usize) -> (r: Option<(usize, Operator)>)
    requires
        p <= src@.len(),
    ensures
        agrees(r, spec_operator(src@, p as int)),
        r matches Some((q, _)) ==> p < q <= src@.len(),
{
    proof {
        reveal(spec_operator);
    }
    proof {
        reveal_strlit("NOT_LIKE");
        reveal_strlit("LIKE");
        reveal_strlit("!=");
        reveal_strlit("<>");
        reveal_strlit(">=");
        reveal_strlit("<=");
        reveal_strlit("=");
        reveal_strlit("<");
        reveal_strlit(">");
        reveal_strlit("IN");
    }
    if src.tag_nc(p, "NOT_LIKE") {
        Some((p + "NOT_LIKE".unicode_len(), Operator::NotLike))
    } else if src.tag_nc(p, "LIKE") {
        Some((p + "LIKE".unicode_len(), Operator::Like))
    } else if src.tag_nc(p, "!=") {
        Some((p + "!=".unicode_len(), Operator::NotEqual))
    } else if src.tag_nc(p, "<>") {
        Some((p + "<>".unicode_len(), Operator::NotEqual))
    } else if src.tag_nc(p, ">=") {
        Some((p + ">=".unicode_len(), Operator::GreaterOrEqual))
    } else if src.tag_nc(p, "<=") {
        Some((p + "<=".unicode_len(), Operator::LessOrEqual))
    } else if src.tag_nc(p, "=") {
        Some((p + "=".unicode_len(), Operator::Equal))
    } else if src.tag_nc(p, "<") {
        Some((p + "<".unicode_len(), Operator::Less))
    } else if src.tag_nc(p, ">") {
        Some((p + ">".unicode_len(), Operator::Greater))
    } else if src.tag_nc(p, "IN") {
        Some((p + "IN".unicode_len(), Operator::In))
    } else {
        None
    }
}

/// The text `to_string` gives for each value.
pub open spec fn operator_text(v: Operator) -> Seq<char> {
    match v {
        Operator::Not => "NOT"@,
        Operator::And => "AND"@,
        Operator::Or => "OR"@,
        Operator::Like => "LIKE"@,
        Operator::NotLike => "NOT_LIKE"@,
        Operator::Equal => "="@,
        Operator::NotEqual => "!="@,
        Operator::Greater => ">"@,
        Operator::GreaterOrEqual => ">="@,
        Operator::Less => "<"@,
        Operator::LessOrEqual => "<="@,
        Operator::In => "IN"@,
        Operator::NotIn => "NOT IN"@,
        Operator::Is => "IS"@,
    }
}

impl Operator {
    /// parse `{NOT_LIKE | LIKE | != | <> | >= | <= | = | < | > | IN}`
    pub fn parse(i: &str) -> (r: Result<(&str, Operator), ParseSQLError>)
        ensures
            str_agrees(i@, r, spec_operator(i@, 0)),
    {
        let src = Input::new(i);
        match operator_at(&src, 0) {
            Some((q, v)) => Ok((src.rest(q), v)),
            None => Err(ParseSQLError::grammar(i)),
        }
    }

    /// The SQL text of the value.
    pub fn to_string(&self) -> (r: String)
        ensures
            r@ == operator_text(*self),
    {
        match self {
            Operator::Not => "NOT".to_owned(),
            Operator::And => "AND".to_owned(),
            Operator::Or => "OR".to_owned(),
            Operator::Like => "LIKE".to_owned(),
            Operator::NotLike => "NOT_LIKE".to_owned(),
            Operator::Equal => "=".to_owned(),
            Operator::NotEqual => "!=".to_owned(),
            Operator::Greater => ">".to_owned(),
            Operator::GreaterOrEqual => ">=".to_owned(),
            Operator::Less => "<".to_owned(),
            Operator::LessOrEqual => "<=".to_owned(),
            Operator::In => "IN".to_owned(),
            Operator::NotIn => "NOT IN".to_owned(),
            Operator::Is => "IS".to_owned(),
        }
    }
}

/// Parsing the text of a value gives back that value and reads the whole text.
pub proof fn lemma_operator_round_trip(v: Operator)
    requires
        v != Operator::Not,
        v != Operator::And,
        v != Operator::Or,
        v != Operator::NotIn,
        v != Operator::Is,
    ensures
        spec_operator(operator_text(v), 0) == Parsed::Done(operator_text(v).len() as int, v),
{
    reveal(spec_operator);
    reveal_strlit("!=");
    reveal_strlit("<");
    reveal_strlit("<=");
    reveal_strlit("<>");
    reveal_strlit("=");
    reveal_strlit(">");
    reveal_strlit(">=");
    reveal_strlit("AND");
    reveal_strlit("IN");
    reveal_strlit("IS");
    reveal_strlit("LIKE");
    reveal_strlit("NOT");
    reveal_strlit("NOT IN");
    reveal_strlit("NOT_LIKE");
    reveal_strlit("OR");
    let s = operator_text(v);
    reveal_with_fuel(run_end, 3);
    match v {
        Operator::Not => {
        },
        Operator::And => {
        },
        Operator::Or => {
        },
        Operator::Like => {
            lemma_tag_nc_of_eq(s, 0, "LIKE"@);
        },
        Operator::NotLike => {
            lemma_tag_nc_of_eq(s, 0, "NOT_LIKE"@);
        },
        Operator::Equal => {
            lemma_tag_nc_of_eq(s, 0, "="@);
        },
        Operator::NotEqual => {
            lemma_tag_nc_of_eq(s, 0, "!="@);
        },
        Operator::Greater => {
            lemma_tag_nc_mismatch(s, 0, "="@, 0);
            lemma_tag_nc_mismatch(s, 0, "<"@, 0);
            lemma_tag_nc_of_eq(s, 0, ">"@);
        },
        Operator::GreaterOrEqual => {
            lemma_tag_nc_mismatch(s, 0, "!="@, 0);
            lemma_tag_nc_mismatch(s, 0, "<>"@, 0);
            lemma_tag_nc_of_eq(s, 0, ">="@);
        },
        Operator::Less => {
            lemma_tag_nc_mismatch(s, 0, "="@, 0);
            lemma_tag_nc_of_eq(s, 0, "<"@);
        },
        Operator::LessOrEqual => {
            lemma_tag_nc_mismatch(s, 0, "!="@, 0);
            lemma_tag_nc_mismatch(s, 0, "<>"@, 1);
            lemma_tag_nc_mismatch(s, 0, ">="@, 0);
            lemma_tag_nc_of_eq(s, 0, "<="@);
        },
        Operator::In => {
            lemma_tag_nc_mismatch(s, 0, "!="@, 0);
            lemma_tag_nc_mismatch(s, 0, "<>"@, 0);
            lemma_tag_nc_mismatch(s, 0, ">="@, 0);
            lemma_tag_nc_mismatch(s, 0, "<="@, 0);
            lemma_tag_nc_mismatch(s, 0, "="@, 0);
            lemma_tag_nc_mismatch(s, 0, "<"@, 0);
            lemma_tag_nc_mismatch(s, 0, ">"@, 0);
            lemma_tag_nc_of_eq(s, 0, "IN"@);
        },
        Operator::NotIn => {
        },
        Operator::Is => {
        },
    }
}



/// Each word of the rule, written in any case (`NOT_LIKE`, `LIKE`, `!=`, `<>`, `>=`, `<=`, `=`, `<`, `>`, `IN`), is read as the
/// value it names, the whole word being read.
pub proof fn lemma_operator_words(w: Seq<char>)
    ensures
        spelled(w, "NOT_LIKE"@) ==> spec_operator(w, 0) == Parsed::Done(w.len() as int, Operator::NotLike),
        spelled(w, "LIKE"@) ==> spec_operator(w, 0) == Parsed::Done(w.len() as int, Operator::Like),
        spelled(w, "!="@) ==> spec_operator(w, 0) == Parsed::Done(w.len() as int, Operator::NotEqual),
        spelled(w, "<>"@) ==> spec_operator(w, 0) == Parsed::Done(w.len() as int, Operator::NotEqual),
        spelled(w, ">="@) ==> spec_operator(w, 0) == Parsed::Done(w.len() as int, Operator::GreaterOrEqual),
        spelled(w, "<="@) ==> spec_operator(w, 0) == Parsed::Done(w.len() as int, Operator::LessOrEqual),
        spelled(w, "="@) ==> spec_operator(w, 0) == Parsed::Done(w.len() as int, Operator::Equal),
        spelled(w, "<"@) ==> spec_operator(w, 0) == Parsed::Done(w.len() as int, Operator::Less),
        spelled(w, ">"@) ==> spec_operator(w, 0) == Parsed::Done(w.len() as int, Operator::Greater),
        spelled(w, "IN"@) ==> spec_operator(w, 0) == Parsed::Done(w.len() as int, Operator::In),
{
    reveal(spec_operator);
    reveal_strlit("NOT_LIKE");
    reveal_strlit("LIKE");
    reveal_strlit("!=");
    reveal_strlit("<>");
    reveal_strlit(">=");
    reveal_strlit("<=");
    reveal_strlit("=");
    reveal_strlit("<");
    reveal_strlit(">");
    reveal_strlit("IN");
    assert(w.subrange(0, w.len() as int) =~= w);
    if spelled(w, "NOT_LIKE"@) {
        lemma_spelled_tag(w, 0, w, "NOT_LIKE"@);
    }
    if spelled(w, "LIKE"@) {
        assert(eq_no_case(w[0], "LIKE"@[0]));
        lemma_tag_nc_mismatch(w, 0, "NOT_LIKE"@, 0);
        lemma_spelled_tag(w, 0, w, "LIKE"@);
    }
    if spelled(w, "!="@) {
        assert(eq_no_case(w[0], "!="@[0]));
        lemma_tag_nc_mismatch(w, 0, "NOT_LIKE"@, 0);
        assert(eq_no_case(w[0], "!="@[0]));
        lemma_tag_nc_mismatch(w, 0, "LIKE"@, 0);
        lemma_spelled_tag(w, 0, w, "!="@);
    }
    if spelled(w, "<>"@) {
        assert(eq_no_case(w[0], "<>"@[0]));
        lemma_tag_nc_mismatch(w, 0, "NOT_LIKE"@, 0);
        assert(eq_no_case(w[0], "<>"@[0]));
        lemma_tag_nc_mismatch(w, 0, "LIKE"@, 0);
        assert(eq_no_case(w[0], "<>"@[0]));
        lemma_tag_nc_mismatch(w, 0, "!="@, 0);
        lemma_spelled_tag(w, 0, w, "<>"@);
    }
    if spelled(w, ">="@) {
        assert(eq_no_case(w[0], ">="@[0]));
        lemma_tag_nc_mismatch(w, 0, "NOT_LIKE"@, 0);
        assert(eq_no_case(w[0], ">="@[0]));
        lemma_tag_nc_mismatch(w, 0, "LIKE"@, 0);
        assert(eq_no_case(w[0], ">="@[0]));
        lemma_tag_nc_mismatch(w, 0, "!="@, 0);
        assert(eq_no_case(w[0], ">="@[0]));
        lemma_tag_nc_mismatch(w, 0, "<>"@, 0);
        lemma_spelled_tag(w, 0, w, ">="@);
    }
    if spelled(w, "<="@) {
        assert(eq_no_case(w[0], "<="@[0]));
        lemma_tag_nc_mismatch(w, 0, "NOT_LIKE"@, 0);
        assert(eq_no_case(w[0], "<="@[0]));
        lemma_tag_nc_mismatch(w, 0, "LIKE"@, 0);
        assert(eq_no_case(w[0], "<="@[0]));
        lemma_tag_nc_mismatch(w, 0, "!="@, 0);
        assert(eq_no_case(w[1], "<="@[1]));
        lemma_tag_nc_mismatch(w, 0, "<>"@, 1);
        assert(eq_no_case(w[0], "<="@[0]));
        lemma_tag_nc_mismatch(w, 0, ">="@, 0);
        lemma_spelled_tag(w, 0, w, "<="@);
    }
    if spelled(w, "="@) {
        assert(eq_no_case(w[0], "="@[0]));
        lemma_tag_nc_mismatch(w, 0, "NOT_LIKE"@, 0);
        assert(eq_no_case(w[0], "="@[0]));
        lemma_tag_nc_mismatch(w, 0, "LIKE"@, 0);
        assert(eq_no_case(w[0], "="@[0]));
        lemma_tag_nc_mismatch(w, 0, "!="@, 0);
        assert(eq_no_case(w[0], "="@[0]));
        lemma_tag_nc_mismatch(w, 0, "<>"@, 0);
        assert(eq_no_case(w[0], "="@[0]));
        lemma_tag_nc_mismatch(w, 0, ">="@, 0);
        assert(eq_no_case(w[0], "="@[0]));
        lemma_tag_nc_mismatch(w, 0, "<="@, 0);
        lemma_spelled_tag(w, 0, w, "="@);
    }
    if spelled(w, "<"@) {
        assert(eq_no_case(w[0], "<"@[0]));
        lemma_tag_nc_mismatch(w, 0, "NOT_LIKE"@, 0);
        assert(eq_no_case(w[0], "<"@[0]));
        lemma_tag_nc_mismatch(w, 0, "LIKE"@, 0);
        assert(eq_no_case(w[0], "<"@[0]));
        lemma_tag_nc_mismatch(w, 0, "!="@, 0);
        assert(eq_no_case(w[0], "<"@[0]));
        lemma_tag_nc_mismatch(w, 0, ">="@, 0);
        assert(eq_no_case(w[0], "<"@[0]));
        lemma_tag_nc_mismatch(w, 0, "="@, 0);
        lemma_spelled_tag(w, 0, w, "<"@);
    }
    if spelled(w, ">"@) {
        assert(eq_no_case(w[0], ">"@[0]));
        lemma_tag_nc_mismatch(w, 0, "NOT_LIKE"@, 0);
        assert(eq_no_case(w[0], ">"@[0]));
        lemma_tag_nc_mismatch(w, 0, "LIKE"@, 0);
        assert(eq_no_case(w[0], ">"@[0]));
        lemma_tag_nc_mismatch(w, 0, "!="@, 0);
        assert(eq_no_case(w[0], ">"@[0]));
        lemma_tag_nc_mismatch(w, 0, "<>"@, 0);
        assert(eq_no_case(w[0], ">"@[0]));
        lemma_tag_nc_mismatch(w, 0, "<="@, 0);
        assert(eq_no_case(w[0], ">"@[0]));
        lemma_tag_nc_mismatch(w, 0, "="@, 0);
        assert(eq_no_case(w[0], ">"@[0]));
        lemma_tag_nc_mismatch(w, 0, "<"@, 0);
        lemma_spelled_tag(w, 0, w, ">"@);
    }
    if spelled(w, "IN"@) {
        assert(eq_no_case(w[0], "IN"@[0]));
        lemma_tag_nc_mismatch(w, 0, "NOT_LIKE"@, 0);
        assert(eq_no_case(w[0], "IN"@[0]));
        lemma_tag_nc_mismatch(w, 0, "LIKE"@, 0);
        assert(eq_no_case(w[0], "IN"@[0]));
        lemma_tag_nc_mismatch(w, 0, "!="@, 0);
        assert(eq_no_case(w[0], "IN"@[0]));
        lemma_tag_nc_mismatch(w, 0, "<>"@, 0);
        assert(eq_no_case(w[0], "IN"@[0]));
        lemma_tag_nc_mismatch(w, 0, ">="@, 0);
        assert(eq_no_case(w[0], "IN"@[0]));
        lemma_tag_nc_mismatch(w, 0, "<="@, 0);
        assert(eq_no_case(w[0], "IN"@[0]));
        lemma_tag_nc_mismatch(w, 0, "="@, 0);
        assert(eq_no_case(w[0], "IN"@[0]));
        lemma_tag_nc_mismatch(w, 0, "<"@, 0);
        assert(eq_no_case(w[0], "IN"@[0]));
        lemma_tag_nc_mismatch(w, 0, ">"@, 0);
        lemma_spelled_tag(w, 0, w, "IN"@);
    }
}

} // verus!
