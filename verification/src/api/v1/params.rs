//! The query parameters of a list request: which search is meant, and which
//! page of it.

use vstd::prelude::*;
use vstd::string::StringExecFns;
use crate::text::{i32_value, parse_i32, pieces, same_text, split};

verus! {

/// The search that a list request asks for, as a mathematical value.
pub enum QueryTypeModel {
    All,
    Name(Seq<char>),
    Tags(Seq<char>),
    Query(Seq<char>),
}

/// `QueryParams` as a mathematical value.
pub struct QueryParamsModel {
    pub query: QueryTypeModel,
    pub limit: int,
    pub start: int,
}

/// The search that a list request asks for.
#[derive(Debug, PartialEq, Eq)]
pub enum QueryType {
    /// Everything.
    All,
    /// The entities whose name holds the text.
    Name(String),
    /// The entities that carry the tags.
    Tags(String),
    /// A free-text search.
    Query(String),
}

#[derive(Debug, PartialEq, Eq)]
pub struct QueryParams {
    pub query: QueryType,
    pub limit: i32,
    pub start: i32,
}

/// The parameter that cannot be read as an `i32`.
#[derive(Clone, Copy, Debug, PartialEq, Eq, Structural)]
pub enum ParamError {
    Limit,
    Offset,
}

impl View for QueryType {
    type V = QueryTypeModel;

    open spec fn view(&self) -> QueryTypeModel {
        match self {
            QueryType::All => QueryTypeModel::All,
            QueryType::Name(s) => QueryTypeModel::Name(s@),
            QueryType::Tags(s) => QueryTypeModel::Tags(s@),
            QueryType::Query(s) => QueryTypeModel::Query(s@),
        }
    }
}

impl View for QueryParams {
    type V = QueryParamsModel;

    open spec fn view(&self) -> QueryParamsModel {
        QueryParamsModel { query: self.query@, limit: self.limit as int, start: self.start as int }
    }
}

/// The parameter that one run of a query string stands for: name and value
/// lie on either side of the first `=`, and what follows a second `=` is
/// left out. A run without `=` is the value of `query`.
pub open spec fn pair_of(run: Seq<char>) -> (Seq<char>, Seq<char>) {
    let parts = pieces(run, '=');
    if parts.len() >= 2 {
        (parts[0], parts[1])
    } else {
        ("query"@, parts[0])
    }
}

/// The parameters of a query string, one for each run between `&`, in order.
pub open spec fn query_pairs(query: Seq<char>) -> Seq<(Seq<char>, Seq<char>)> {
    let runs = pieces(query, '&');
    Seq::new(runs.len(), |i: int| pair_of(runs[i]))
}

/// The value of the parameter `key`: where it is given more than once, the
/// last one counts.
pub open spec fn param(pairs: Seq<(Seq<char>, Seq<char>)>, key: Seq<char>) -> Option<Seq<char>>
    decreases pairs.len(),
{
    if pairs.len() == 0 {
        None
    } else if pairs.last().0 == key {
        Some(pairs.last().1)
    } else {
        param(pairs.drop_last(), key)
    }
}

/// The search that the parameters ask for: `query` goes before `name`, and
/// `name` before `tags`.
pub open spec fn query_type_of(pairs: Seq<(Seq<char>, Seq<char>)>) -> QueryTypeModel {
    match param(pairs, "query"@) {
        Some(q) => QueryTypeModel::Query(q),
        None => match param(pairs, "name"@) {
            Some(n) => QueryTypeModel::Name(n),
            None => match param(pairs, "tags"@) {
                Some(t) => QueryTypeModel::Tags(t),
                None => QueryTypeModel::All,
            },
        },
    }
}

/// The number under `key`, or `default` where the parameter is not given;
/// nothing where it is given and is no `i32`.
pub open spec fn number_of(pairs: Seq<(Seq<char>, Seq<char>)>, key: Seq<char>, default: i32) -> Option<i32> {
    match param(pairs, key) {
        Some(text) => i32_value(text),
        None => Some(default),
    }
}

/// What a request's query string asks for. A request without a query string
/// has no parameters. The limit is 10 and the offset 0 unless given.
pub open spec fn params_of(query: Option<Seq<char>>) -> Result<QueryParamsModel, ParamError> {
    let pairs = match query {
        Some(q) => query_pairs(q),
        None => Seq::empty(),
    };
    match number_of(pairs, "limit"@, 10) {
        None => Err(ParamError::Limit),
        Some(limit) => match number_of(pairs, "offset"@, 0) {
            None => Err(ParamError::Offset),
            Some(start) => Ok(
                QueryParamsModel { query: query_type_of(pairs), limit: limit as int, start: start as int },
            ),
        },
    }
}

/// The parameters of a query string, in order.
pub fn parse_query(query: &str) -> (r: Vec<(String, String)>)
    ensures
        r.deep_view() == query_pairs(query@),
{
    let runs = split(query, '&');
    let ghost all = pieces(query@, '&');
    let mut out: Vec<(String, String)> = Vec::new();
    let mut i: usize = 0;
    while i < runs.len()
        invariant
            i <= runs@.len(),
            runs.deep_view() == all,
            out@.len() == i,
            forall|k: int| 0 <= k < i ==> (#[trigger] out@[k]).deep_view() == pair_of(all[k]),
        decreases runs@.len() - i,
    {
        let parts = split(runs[i].as_str(), '=');
        proof {
            assert(runs.deep_view()[i as int] == runs@[i as int]@);
            assert(parts.deep_view()[0] == parts@[0]@);
        }
        let pair = if parts.len() >= 2 {
            proof {
                assert(parts.deep_view()[1] == parts@[1]@);
            }
            (parts[0].clone(), parts[1].clone())
        } else {
            ("query".to_owned(), parts[0].clone())
        };
        out.push(pair);
        i = i + 1;
    }
    proof {
        assert(out.deep_view() =~= query_pairs(query@));
    }
    out
}

/// The value of the parameter `key`, where it is given.
pub fn find_param<'a>(pairs: &'a Vec<(String, String)>, key: &str) -> (r: Option<&'a String>)
    ensures
        match r {
            Some(v) => param(pairs.deep_view(), key@) == Some(v@),
            None => param(pairs.deep_view(), key@) is None,
        },
{
    let ghost all = pairs.deep_view();
    let mut i: usize = pairs.len();
    proof {
        assert(all.take(i as int) =~= all);
    }
    while i > 0
        invariant
            i <= pairs@.len(),
            all == pairs.deep_view(),
            param(all, key@) == param(all.take(i as int), key@),
        decreases i,
    {
        i = i - 1;
        proof {
            assert(all.take(i + 1).last() == all[i as int]);
            assert(all[i as int] == pairs@[i as int].deep_view());
            assert(all.take(i + 1).drop_last() =~= all.take(i as int));
        }
        if same_text(pairs[i].0.as_str(), key) {
            return Some(&pairs[i].1);
        }
    }
    None
}

fn find_number(pairs: &Vec<(String, String)>, key: &str, default: i32) -> (r: Option<i32>)
    ensures
        r == number_of(pairs.deep_view(), key@, default),
{
    match find_param(pairs, key) {
        Some(text) => parse_i32(text.as_str()),
        None => Some(default),
    }
}

fn find_query_type(pairs: &Vec<(String, String)>) -> (r: QueryType)
    ensures
        r@ == query_type_of(pairs.deep_view()),
{
    if let Some(q) = find_param(pairs, "query") {
        QueryType::Query(q.clone())
    } else if let Some(n) = find_param(pairs, "name") {
        QueryType::Name(n.clone())
    } else if let Some(t) = find_param(pairs, "tags") {
        QueryType::Tags(t.clone())
    } else {
        QueryType::All
    }
}

impl QueryParams {
    /// What a request asks for, from its query string (the part of the URI
    /// after `?`, where there is one).
    pub fn from_query(query: Option<&str>) -> (r: Result<QueryParams, ParamError>)
        ensures
            match r {
                Ok(p) => params_of(text_of(query)) == Ok::<QueryParamsModel, ParamError>(p@),
                Err(e) => params_of(text_of(query)) == Err::<QueryParamsModel, ParamError>(e),
            },
    {
        let pairs = match query {
            Some(q) => parse_query(q),
            None => Vec::new(),
        };
        proof {
            if query is None {
                assert(pairs.deep_view() =~= Seq::empty());
            }
        }
        let limit = match find_number(&pairs, "limit", 10) {
            Some(n) => n,
            None => {
                return Err(ParamError::Limit);
            },
        };
        let start = match find_number(&pairs, "offset", 0) {
            Some(n) => n,
            None => {
                return Err(ParamError::Offset);
            },
        };
        Ok(QueryParams { query: find_query_type(&pairs), limit, start })
    }
}

/// The characters of a text that may be absent.
pub open spec fn text_of(s: Option<&str>) -> Option<Seq<char>> {
    match s {
        Some(t) => Some(t@),
        None => None,
    }
}

} // verus!
