//! `[CONSTRAINT [symbol]] CHECK (expr) [[NOT] ENFORCED]`
use vstd::prelude::*;

verus! {

#[derive(Clone, Debug, Eq, Hash, PartialEq)]
pub struct CheckConstraintDefinition {
    pub symbol: Option<String>,
    pub expr: String,
    pub enforced: bool,
}

} // verus!
