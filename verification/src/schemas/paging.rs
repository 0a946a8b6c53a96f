//! Where a page of results lies among all results.

use vstd::prelude::*;
use vstd::string::StringExecFns;
use crate::text::{decimal, push_decimal};

verus! {

/// A page as a mathematical value.
pub struct PagingModel {
    pub total: int,
    pub limit: int,
    pub offset: int,
}

impl PagingModel {
    /// The page as a JSON object.
    pub open spec fn json(self) -> Seq<char> {
        "{\"total\":"@ + decimal(self.total) + ",\"limit\":"@ + decimal(self.limit)
            + ",\"offset\":"@ + decimal(self.offset) + "}"@
    }
}

/// A page that may be absent, as JSON: the object, or `null`.
pub open spec fn paging_or_null(p: Option<PagingModel>) -> Seq<char> {
    match p {
        Some(page) => page.json(),
        None => "null"@,
    }
}

/// The page that a counted search returned: where it starts, how many results
/// were asked for, and how many there are in all.
#[derive(Clone, Copy, Debug, PartialEq, Eq)]
pub struct Paging {
    total: i32,
    limit: i32,
    offset: i32,
}

impl View for Paging {
    type V = PagingModel;

    closed spec fn view(&self) -> PagingModel {
        PagingModel { total: self.total as int, limit: self.limit as int, offset: self.offset as int }
    }
}

impl Paging {
    pub fn new(offset: i32, limit: i32, total: i32) -> (r: Paging)
        ensures
            r@ == (PagingModel { total: total as int, limit: limit as int, offset: offset as int }),
    {
        Paging { total, limit, offset }
    }

    pub fn offset(&self) -> (r: i32)
        ensures
            r == self@.offset,
    {
        self.offset
    }

    pub fn limit(&self) -> (r: i32)
        ensures
            r == self@.limit,
    {
        self.limit
    }

    pub fn total(&self) -> (r: i32)
        ensures
            r == self@.total,
    {
        self.total
    }

    /// The page as a JSON object.
    pub fn to_json(&self) -> (r: String)
        ensures
            r@ == self@.json(),
    {
        let mut out = "{\"total\":".to_owned();
        push_decimal(&mut out, self.total as i64);
        out.append(",\"limit\":");
        push_decimal(&mut out, self.limit as i64);
        out.append(",\"offset\":");
        push_decimal(&mut out, self.offset as i64);
        out.append("}");
        out
    }
}

/// Appends the page as JSON, or `null` where there is none.
pub fn push_paging_or_null(out: &mut String, p: &Option<Paging>)
    ensures
        final(out)@ == old(out)@ + paging_or_null(crate::decode::model_of(*p)),
{
    match p {
        Some(page) => {
            let text = page.to_json();
            out.append(text.as_str());
        },
        None => out.append("null"),
    }
}

} // verus!
