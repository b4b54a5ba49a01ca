//! Trigger names: `[schema.]name`.
use vstd::prelude::*;

use crate::base::display_util::{escaped_name, DisplayUtil};

verus! {

#[derive(Clone, Debug, Default, Eq, Hash, PartialEq)]
pub struct Trigger {
    pub name: String,
    pub schema: Option<String>,
}

pub struct TriggerView {
    pub name: Seq<char>,
    pub schema: Option<Seq<char>>,
}

impl DeepView for Trigger {
    type V = TriggerView;

    open spec fn deep_view(&self) -> TriggerView {
        TriggerView { name: self.name@, schema: self.schema.deep_view() }
    }
}

/// `[schema.]name`, each name in back quotes when it reads as a keyword.
pub open spec fn trigger_text(t: TriggerView) -> Seq<char> {
    (match t.schema {
        Some(sc) => escaped_name(sc) + "."@,
        None => Seq::empty(),
    }) + escaped_name(t.name)
}

impl Trigger {
    /// The SQL text of the trigger name.
    pub fn to_string(&self) -> (r: String)
        ensures
            r@ == trigger_text(self.deep_view()),
    {
        let mut out = String::new();
        match &self.schema {
            Some(sc) => {
                out.append(DisplayUtil::escape_if_keyword(sc.as_str()).as_str());
                out.append(".");
            },
            None => {},
        }
        out.append(DisplayUtil::escape_if_keyword(self.name.as_str()).as_str());
        assert(out@ =~= trigger_text(self.deep_view()));
        out
    }

    /// A trigger with the given name and no schema.
    pub fn from_name(t: &str) -> (r: Trigger)
        ensures
            r.deep_view() == (TriggerView { name: t@, schema: None }),
    {
        Trigger { name: t.to_owned(), schema: None }
    }

    /// A trigger with the given schema and name.
    pub fn from_schema_and_name(schema: &str, name: &str) -> (r: Trigger)
        ensures
            r.deep_view() == (TriggerView { name: name@, schema: Some(schema@) }),
    {
        Trigger { name: name.to_owned(), schema: Some(schema.to_owned()) }
    }
}

impl<'a> From<&'a str> for Trigger {
    fn from(t: &str) -> Trigger {
        Trigger::from_name(t)
    }
}

impl<'a> vstd::std_specs::convert::FromSpecImpl<&'a str> for Trigger {
    open spec fn obeys_from_spec() -> bool {
        false
    }

    open spec fn from_spec(t: &'a str) -> Trigger {
        vstd::pervasive::arbitrary()
    }
}

impl<'a> From<(&'a str, &'a str)> for Trigger {
    fn from(t: (&str, &str)) -> Trigger {
        Trigger::from_schema_and_name(t.0, t.1)
    }
}

impl<'a> vstd::std_specs::convert::FromSpecImpl<(&'a str, &'a str)> for Trigger {
    open spec fn obeys_from_spec() -> bool {
        false
    }

    open spec fn from_spec(t: (&'a str, &'a str)) -> Trigger {
        vstd::pervasive::arbitrary()
    }
}

} // verus!
