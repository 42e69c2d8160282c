//! The list of all tags.
use vstd::prelude::*;
use crate::query::{BindValue, Statement};
use crate::statements::{make_statement, statement_of};

verus! {

#[derive(Debug, Clone)]
pub struct ResponseTagList {
    pub tags: Vec<String>,
}

pub const ALL_TAGS_SQL: &'static str = "SELECT `name` FROM `tags` ORDER BY `id` ASC";

/// Every tag name, in the order the tags were created.
pub fn all_tags_statement() -> (r: Statement)
    ensures
        r@ == statement_of(ALL_TAGS_SQL, seq![]),
{
    let r = make_statement(ALL_TAGS_SQL, Vec::<BindValue>::new());
    assert(r@.binds =~= seq![]);
    r
}

} // verus!
