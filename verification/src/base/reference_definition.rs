//! `REFERENCES tbl_name (key_part,...) [MATCH FULL | MATCH PARTIAL | MATCH SIMPLE]
//! [ON DELETE reference_option] [ON UPDATE reference_option]`
use vstd::prelude::*;

use crate::base::common_parser::{spec_sql_identifier, sql_identifier_at};
use crate::base::error::ParseSQLError;
use crate::base::input::{agrees, has_tag_nc, str_agrees, ws_end, Input, Parsed};
use crate::base::key_part::{key_parts_at, spec_key_parts, KeyPart, KeyPartView};
use crate::base::match_type::{match_type_at, spec_match_type, MatchType};
use crate::base::reference_type::{reference_type_at, spec_reference_type, ReferenceType};

verus! {

#[derive(Clone, Debug, Eq, Hash, PartialEq)]
pub struct ReferenceDefinition {
    pub tbl_name: String,
    pub key_part: Vec<KeyPart>,
    pub match_type: Option<MatchType>,
    pub on_delete: Option<ReferenceType>,
    pub on_update: Option<ReferenceType>,
}

pub struct ReferenceDefinitionView {
    pub tbl_name: Seq<char>,
    pub key_part: Seq<KeyPartView>,
    pub match_type: Option<MatchType>,
    pub on_delete: Option<ReferenceType>,
    pub on_update: Option<ReferenceType>,
}

impl DeepView for ReferenceDefinition {
    type V = ReferenceDefinitionView;

    open spec fn deep_view(&self) -> ReferenceDefinitionView {
        ReferenceDefinitionView {
            tbl_name: self.tbl_name@,
            key_part: self.key_part.deep_view(),
            match_type: self.match_type,
            on_delete: self.on_delete,
            on_update: self.on_update,
        }
    }
}

/// Optional `ON ws event ws reference_option`, ignoring case: where it ends
/// and the option.
pub open spec fn opt_on_event(s: Seq<char>, p: int, event: Seq<char>) -> (int, Option<ReferenceType>) {
    let a = ws_end(s, p + "ON"@.len());
    let b = ws_end(s, a + event.len());
    if has_tag_nc(s, p, "ON"@) && a > p + "ON"@.len() && has_tag_nc(s, a, event) && b > a
        + event.len() {
        match spec_reference_type(s, b) {
            Parsed::Done(e, r) => (e, Some(r)),
            _ => (p, None),
        }
    } else {
        (p, None)
    }
}

/// Optional `MATCH` clause: where it ends and the match type.
pub open spec fn opt_match(s: Seq<char>, p: int) -> (int, Option<MatchType>) {
    match spec_match_type(s, p) {
        Parsed::Done(e, m) => (e, Some(m)),
        _ => (p, None),
    }
}

/// `[ws] REFERENCES ws tbl_name [ws] (key_parts) [ws] [match] [ws] [ON DELETE option]
/// [ws] [ON UPDATE option] [ws]`, keywords ignoring case.
pub open spec fn spec_reference_definition(s: Seq<char>, p: int) -> Parsed<ReferenceDefinitionView> {
    let a = ws_end(s, p);
    let c = ws_end(s, a + "REFERENCES"@.len());
    if has_tag_nc(s, a, "REFERENCES"@) && c > a + "REFERENCES"@.len() {
        match spec_sql_identifier(s, c) {
            Parsed::Done(e1, (x, y)) => match spec_key_parts(s, ws_end(s, e1)) {
                Parsed::Done(e2, kps) => {
                    let m = opt_match(s, ws_end(s, e2));
                    let d = opt_on_event(s, ws_end(s, m.0), "DELETE"@);
                    let u = opt_on_event(s, ws_end(s, d.0), "UPDATE"@);
                    Parsed::Done(
                        ws_end(s, u.0),
                        ReferenceDefinitionView {
                            tbl_name: s.subrange(x, y),
                            key_part: kps,
                            match_type: m.1,
                            on_delete: d.1,
                            on_update: u.1,
                        },
                    )
                },
                Parsed::NoMatch => Parsed::NoMatch,
                Parsed::Abort => Parsed::Abort,
            },
            _ => Parsed::NoMatch,
        }
    } else {
        Parsed::NoMatch
    }
}

fn opt_on_event_at(src: &Input, p: usize, event: &str) -> (r: (usize, Option<ReferenceType>))
    requires
        p <= src@.len(),
    ensures
        r.0 == opt_on_event(src@, p as int, event@).0,
        r.1 == opt_on_event(src@, p as int, event@).1,
        p <= r.0 <= src@.len(),
{
    if !src.tag_nc(p, "ON") {
        return (p, None);
    }
    let a0 = p + "ON".unicode_len();
    let a = src.skip_ws(a0);
    if a == a0 || !src.tag_nc(a, event) {
        return (p, None);
    }
    let b0 = a + event.unicode_len();
    let b = src.skip_ws(b0);
    if b == b0 {
        return (p, None);
    }
    match reference_type_at(src, b) {
        Some((e, r)) => (e, Some(r)),
        None => (p, None),
    }
}

fn reference_definition_at(src: &Input, p: usize) -> (r: Option<(usize, ReferenceDefinition)>)
    requires
        p <= src@.len(),
        !(spec_reference_definition(src@, p as int) is Abort),
    ensures
        agrees(r, spec_reference_definition(src@, p as int)),
        r matches Some((e, _)) ==> p <= e <= src@.len(),
{
    let a = src.skip_ws(p);
    if !src.tag_nc(a, "REFERENCES") {
        return None;
    }
    let c = src.skip_ws(a + "REFERENCES".unicode_len());
    if c == a + "REFERENCES".unicode_len() {
        return None;
    }
    let (e1, sp) = match sql_identifier_at(src, c) {
        Some(x) => x,
        None => return None,
    };
    let (e2, kps) = match key_parts_at(src, src.skip_ws(e1)) {
        Some(x) => x,
        None => return None,
    };
    let b = src.skip_ws(e2);
    let (m0, mt) = match match_type_at(src, b) {
        Some((e, m)) => (e, Some(m)),
        None => (b, None),
    };
    let (d0, on_delete) = opt_on_event_at(src, src.skip_ws(m0), "DELETE");
    let (u0, on_update) = opt_on_event_at(src, src.skip_ws(d0), "UPDATE");
    Some(
        (
            src.skip_ws(u0),
            ReferenceDefinition {
                tbl_name: src.string(sp.start, sp.end),
                key_part: kps,
                match_type: mt,
                on_delete,
                on_update,
            },
        ),
    )
}

impl ReferenceDefinition {
    pub fn parse(i: &str) -> (r: Result<(&str, ReferenceDefinition), ParseSQLError>)
        requires
            !(spec_reference_definition(i@, 0) is Abort),
        ensures
            str_agrees(i@, r, spec_reference_definition(i@, 0)),
    {
        let src = Input::new(i);
        match reference_definition_at(&src, 0) {
            Some((q, v)) => Ok((src.rest(q), v)),
            None => Err(ParseSQLError::grammar(i)),
        }
    }
}

} // verus!
