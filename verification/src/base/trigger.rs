//! Trigger names: `[schema.]name`.
use vstd::prelude::*;

use crate::base::common_parser::sql_identifier_at;
use crate::base::common_parser::spec_sql_identifier;
use crate::base::display_util::{escaped_name, DisplayUtil};
use crate::base::error::ParseSQLError;
use crate::base::input::{agrees, str_agrees, Input, Parsed};
use crate::base::table::{opt_range_text, opt_span_string, schema_prefix_at, spec_schema_prefix};

verus! {

#[derive(Clone, Debug, Default, Eq, Hash, PartialEq)]
pub struct Trigger {
    pub name: String,
    pub schema: Option<String>,
}

pub struct TriggerView {
    pub name: Seq<char>,
    pub schema: Option<Seq<char>>,
}

impl DeepView for Trigger {
    type V = TriggerView;

    open spec fn deep_view(&self) -> TriggerView {
        TriggerView { name: self.name@, schema: self.schema.deep_view() }
    }
}

/// `[schema.]name`
pub open spec fn spec_trigger(s: Seq<char>, p: int) -> Parsed<TriggerView> {
    match spec_schema_prefix(s, p) {
        Parsed::Done(q, schema) => match spec_sql_identifier(s, q) {
            Parsed::Done(e, (a, b)) => Parsed::Done(
                e,
                TriggerView { name: s.subrange(a, b), schema: opt_range_text(s, schema) },
            ),
            _ => Parsed::NoMatch,
        },
        _ => Parsed::NoMatch,
    }
}

pub fn trigger_at(src: &Input, p: usize) -> (r: Option<(usize, Trigger)>)
    requires
        p <= src@.len(),
    ensures
        agrees(r, spec_trigger(src@, p as int)),
        r matches Some((q, _)) ==> p < q <= src@.len(),
{
    let (q, schema) = match schema_prefix_at(src, p) {
        Some(x) => x,
        None => return None,
    };
    let (e, sp) = match sql_identifier_at(src, q) {
        Some(x) => x,
        None => return None,
    };
    let schema = opt_span_string(src, schema);
    Some((e, Trigger { name: src.string(sp.start, sp.end), schema }))
}

/// `[schema.]name`, each name escaped when it reads as a keyword.
pub open spec fn trigger_text(t: TriggerView) -> Seq<char> {
    (match t.schema {
        Some(sc) => escaped_name(sc) + seq!['.'],
        None => Seq::empty(),
    }) + escaped_name(t.name)
}

impl Trigger {
    /// `[schema.]trigger_name`
    pub fn parse(i: &str) -> (r: Result<(&str, Trigger), ParseSQLError>)
        ensures
            str_agrees(i@, r, spec_trigger(i@, 0)),
    {
        let src = Input::new(i);
        match trigger_at(&src, 0) {
            Some((q, v)) => Ok((src.rest(q), v)),
            None => Err(ParseSQLError::grammar(i)),
        }
    }

    /// The SQL text of the trigger name.
    pub fn to_string(&self) -> (r: String)
        ensures
            r@ == trigger_text(self.deep_view()),
    {
        let mut out = String::new();
        match &self.schema {
            Some(sc) => {
                out.append(DisplayUtil::escape_if_keyword(sc.as_str()).as_str());
                out.append(".");
                proof {
                    reveal_strlit(".");
                }
            },
            None => {},
        }
        out.append(DisplayUtil::escape_if_keyword(self.name.as_str()).as_str());
        assert(out@ =~= trigger_text(self.deep_view()));
        out
    }

    /// A trigger with the given name and no schema.
    pub fn from_name(t: &str) -> (r: Trigger)
        ensures
            r.deep_view() == (TriggerView { name: t@, schema: None }),
    {
        Trigger { name: t.to_owned(), schema: None }
    }

    /// A trigger with the given schema and name.
    pub fn from_schema_and_name(schema: &str, name: &str) -> (r: Trigger)
        ensures
            r.deep_view() == (TriggerView { name: name@, schema: Some(schema@) }),
    {
        Trigger { name: name.to_owned(), schema: Some(schema.to_owned()) }
    }
}

impl<'a> From<&'a str> for Trigger {
    fn from(t: &str) -> Trigger {
        Trigger::from_name(t)
    }
}

impl<'a> vstd::std_specs::convert::FromSpecImpl<&'a str> for Trigger {
    open spec fn obeys_from_spec() -> bool {
        false
    }

    open spec fn from_spec(t: &'a str) -> Trigger {
        vstd::pervasive::arbitrary()
    }
}

impl<'a> From<(&'a str, &'a str)> for Trigger {
    fn from(t: (&str, &str)) -> Trigger {
        Trigger::from_schema_and_name(t.0, t.1)
    }
}

impl<'a> vstd::std_specs::convert::FromSpecImpl<(&'a str, &'a str)> for Trigger {
    open spec fn obeys_from_spec() -> bool {
        false
    }

    open spec fn from_spec(t: (&'a str, &'a str)) -> Trigger {
        vstd::pervasive::arbitrary()
    }
}

} // verus!
