//! The request sent upstream: a GraphQL document and its variables.

use vstd::prelude::*;
use vstd::string::StringExecFns;
use crate::json::{push_quoted, quoted};
use crate::text::{decimal, push_decimal};

verus! {

/// An equality constraint on a search, as a mathematical value.
pub struct FilterModel {
    pub field: Seq<char>,
    pub value: Seq<char>,
}

/// `AutoCompleteInput` as a mathematical value.
pub struct AutoCompleteInputModel {
    pub limit: int,
    pub query: Seq<char>,
    pub class: Seq<char>,
}

/// `SearchInput` as a mathematical value.
pub struct SearchInputModel {
    pub start: int,
    pub count: int,
    pub query: Seq<char>,
    pub class: Seq<char>,
    pub filters: Option<FilterModel>,
}

/// `TagAssociationInput` as a mathematical value.
pub struct TagAssociationInputModel {
    pub tag: Seq<char>,
    pub resource: Seq<char>,
}

/// `ListRecommendationsInput` as a mathematical value.
pub struct ListRecommendationsInputModel {
    pub limit: int,
    pub user: Seq<char>,
    pub scenario: Seq<char>,
}

/// The variables of a request, as a mathematical value.
pub enum VariablesModel {
    Urn(Seq<char>),
    SearchInput(SearchInputModel),
    AutoCompleteInput(AutoCompleteInputModel),
    TagAssociationInput(TagAssociationInputModel),
    ListRecommendationsInput(ListRecommendationsInputModel),
}

/// A request, as a mathematical value.
pub struct GraphQLModel {
    pub query: Seq<char>,
    pub variables: VariablesModel,
}

impl FilterModel {
    /// The value as JSON.
    pub open spec fn json(self) -> Seq<char> {
        "{\"field\":"@ + quoted(self.field) + ",\"value\":"@ + quoted(self.value) + "}"@
    }
}

impl AutoCompleteInputModel {
    /// The value as JSON.
    pub open spec fn json(self) -> Seq<char> {
        "{\"limit\":"@ + decimal(self.limit) + ",\"query\":"@ + quoted(self.query) + ",\"type\":"@
            + quoted(self.class) + "}"@
    }
}

impl SearchInputModel {
    /// The member `filters`, where there is a filter.
    pub open spec fn filters_json(self) -> Seq<char> {
        match self.filters {
            Some(f) => ",\"filters\":"@ + f.json(),
            None => Seq::empty(),
        }
    }

    /// The value as JSON.
    pub open spec fn json(self) -> Seq<char> {
        "{\"start\":"@ + decimal(self.start) + ",\"count\":"@ + decimal(self.count)
            + ",\"query\":"@ + quoted(self.query) + ",\"type\":"@ + quoted(self.class)
            + self.filters_json() + "}"@
    }
}

impl TagAssociationInputModel {
    /// The value as JSON.
    pub open spec fn json(self) -> Seq<char> {
        "{\"tagUrn\":"@ + quoted(self.tag) + ",\"resourceUrn\":"@ + quoted(self.resource) + "}"@
    }
}

impl ListRecommendationsInputModel {
    /// The value as JSON.
    pub open spec fn json(self) -> Seq<char> {
        "{\"limit\":"@ + decimal(self.limit) + ",\"userUrn\":"@ + quoted(self.user)
            + ",\"requestContext\":{\"scenario\":"@ + quoted(self.scenario) + "}}"@
    }
}

impl VariablesModel {
    /// The variables as a JSON object of one member: `urn` for a lookup,
    /// `input` for every other operation.
    pub open spec fn json(self) -> Seq<char> {
        match self {
            VariablesModel::Urn(urn) => "{\"urn\":"@ + quoted(urn) + "}"@,
            VariablesModel::SearchInput(input) => "{\"input\":"@ + input.json() + "}"@,
            VariablesModel::AutoCompleteInput(input) => "{\"input\":"@ + input.json() + "}"@,
            VariablesModel::TagAssociationInput(input) => "{\"input\":"@ + input.json() + "}"@,
            VariablesModel::ListRecommendationsInput(input) => "{\"input\":"@ + input.json() + "}"@,
        }
    }

    /// Whether the variables say where a page starts or how long it is.
    pub open spec fn has_paging(self) -> bool {
        self is SearchInput
    }
}

impl GraphQLModel {
    /// The body of the request: an object of the members `query` and `variables`.
    pub open spec fn json(self) -> Seq<char> {
        "{\"query\":"@ + quoted(self.query) + ",\"variables\":"@ + self.variables.json() + "}"@
    }
}

/// An equality constraint on a search: the results whose `field` is `value`.
#[derive(Debug, PartialEq, Eq)]
pub struct Filter<'a> {
    field: &'a str,
    value: &'a str,
}

#[derive(Debug, PartialEq, Eq)]
pub struct AutoCompleteInput<'a> {
    limit: i32,
    query: &'a str,
    class: &'a str,
}

#[derive(Debug, PartialEq, Eq)]
pub struct SearchInput<'a> {
    start: i32,
    count: i32,
    query: String,
    class: &'a str,
    filters: Option<Filter<'a>>,
}

#[derive(Debug, PartialEq, Eq)]
pub struct TagAssociationInput<'a> {
    tag: &'a str,
    resource: &'a str,
}

#[derive(Debug, PartialEq, Eq)]
pub struct ListRecommendationsInput<'a> {
    limit: i32,
    user: &'a str,
    context: RequestContext<'a>,
}

#[derive(Debug, PartialEq, Eq)]
struct RequestContext<'a> {
    scenario: &'a str,
}

#[derive(Debug, PartialEq, Eq)]
pub enum Variables<'a> {
    Urn(&'a str),
    SearchInput(SearchInput<'a>),
    AutoCompleteInput(AutoCompleteInput<'a>),
    TagAssociationInput(TagAssociationInput<'a>),
    ListRecommendationsInput(ListRecommendationsInput<'a>),
}

#[derive(Debug, PartialEq, Eq)]
pub struct GraphQL<'a> {
    query: &'a str,
    variables: Variables<'a>,
}

impl<'a> View for Filter<'a> {
    type V = FilterModel;

    closed spec fn view(&self) -> FilterModel {
        FilterModel { field: self.field@, value: self.value@ }
    }
}

impl<'a> View for AutoCompleteInput<'a> {
    type V = AutoCompleteInputModel;

    closed spec fn view(&self) -> AutoCompleteInputModel {
        AutoCompleteInputModel { limit: self.limit as int, query: self.query@, class: self.class@ }
    }
}

impl<'a> View for SearchInput<'a> {
    type V = SearchInputModel;

    closed spec fn view(&self) -> SearchInputModel {
        SearchInputModel {
            start: self.start as int,
            count: self.count as int,
            query: self.query@,
            class: self.class@,
            filters: match self.filters {
                Some(f) => Some(f@),
                None => None,
            },
        }
    }
}

impl<'a> View for TagAssociationInput<'a> {
    type V = TagAssociationInputModel;

    closed spec fn view(&self) -> TagAssociationInputModel {
        TagAssociationInputModel { tag: self.tag@, resource: self.resource@ }
    }
}

impl<'a> View for ListRecommendationsInput<'a> {
    type V = ListRecommendationsInputModel;

    closed spec fn view(&self) -> ListRecommendationsInputModel {
        ListRecommendationsInputModel {
            limit: self.limit as int,
            user: self.user@,
            scenario: self.context.scenario@,
        }
    }
}

impl<'a> View for Variables<'a> {
    type V = VariablesModel;

    open spec fn view(&self) -> VariablesModel {
        match self {
            Variables::Urn(urn) => VariablesModel::Urn(urn@),
            Variables::SearchInput(input) => VariablesModel::SearchInput(input@),
            Variables::AutoCompleteInput(input) => VariablesModel::AutoCompleteInput(input@),
            Variables::TagAssociationInput(input) => VariablesModel::TagAssociationInput(input@),
            Variables::ListRecommendationsInput(input) => VariablesModel::ListRecommendationsInput(
                input@,
            ),
        }
    }
}

impl<'a> View for GraphQL<'a> {
    type V = GraphQLModel;

    closed spec fn view(&self) -> GraphQLModel {
        GraphQLModel { query: self.query@, variables: self.variables@ }
    }
}

impl<'a> Filter<'a> {
    pub fn new(field: &'a str, value: &'a str) -> (r: Filter<'a>)
        ensures
            r@ == (FilterModel { field: field@, value: value@ }),
    {
        Filter { field, value }
    }

    /// The value as JSON.
    pub fn to_json(&self) -> (r: String)
        ensures
            r@ == self@.json(),
    {
        let mut out = "{\"field\":".to_owned();
        push_quoted(&mut out, self.field);
        out.append(",\"value\":");
        push_quoted(&mut out, self.value);
        out.append("}");
        out
    }
}

impl<'a> AutoCompleteInput<'a> {
    pub fn new(class: &'a str, query: &'a str, limit: i32) -> (r: AutoCompleteInput<'a>)
        ensures
            r@ == (AutoCompleteInputModel { limit: limit as int, query: query@, class: class@ }),
    {
        AutoCompleteInput { class, query, limit }
    }

    /// The value as JSON.
    pub fn to_json(&self) -> (r: String)
        ensures
            r@ == self@.json(),
    {
        let mut out = "{\"limit\":".to_owned();
        push_decimal(&mut out, self.limit as i64);
        out.append(",\"query\":");
        push_quoted(&mut out, self.query);
        out.append(",\"type\":");
        push_quoted(&mut out, self.class);
        out.append("}");
        out
    }
}

impl<'a> SearchInput<'a> {
    pub fn new(
        class: &'a str,
        query: String,
        start: i32,
        count: i32,
        filters: Option<Filter<'a>>,
    ) -> (r: SearchInput<'a>)
        ensures
            r@ == (SearchInputModel {
                start: start as int,
                count: count as int,
                query: query@,
                class: class@,
                filters: match filters {
                    Some(f) => Some(f@),
                    None => None,
                },
            }),
    {
        SearchInput { class, query, start, count, filters }
    }

    /// The value as JSON.
    pub fn to_json(&self) -> (r: String)
        ensures
            r@ == self@.json(),
    {
        let mut out = "{\"start\":".to_owned();
        push_decimal(&mut out, self.start as i64);
        out.append(",\"count\":");
        push_decimal(&mut out, self.count as i64);
        out.append(",\"query\":");
        push_quoted(&mut out, self.query.as_str());
        out.append(",\"type\":");
        push_quoted(&mut out, self.class);
        let ghost head = out@;
        match &self.filters {
            Some(f) => {
                let inner = f.to_json();
                out.append(",\"filters\":");
                out.append(inner.as_str());
                proof {
                    assert(out@ =~= head + self@.filters_json());
                }
            },
            None => {
                proof {
                    assert(out@ =~= head + self@.filters_json());
                }
            },
        }
        out.append("}");
        out
    }
}

impl<'a> TagAssociationInput<'a> {
    pub fn new(resource: &'a str, tag: &'a str) -> (r: TagAssociationInput<'a>)
        ensures
            r@ == (TagAssociationInputModel { tag: tag@, resource: resource@ }),
    {
        TagAssociationInput { tag, resource }
    }

    /// The value as JSON.
    pub fn to_json(&self) -> (r: String)
        ensures
            r@ == self@.json(),
    {
        let mut out = "{\"tagUrn\":".to_owned();
        push_quoted(&mut out, self.tag);
        out.append(",\"resourceUrn\":");
        push_quoted(&mut out, self.resource);
        out.append("}");
        out
    }
}

impl<'a> ListRecommendationsInput<'a> {
    /// The recommendations for `user` on the home page, `limit` at most.
    pub fn new(user: &'a str, limit: i32) -> (r: ListRecommendationsInput<'a>)
        ensures
            r@ == (ListRecommendationsInputModel {
                limit: limit as int,
                user: user@,
                scenario: "HOME"@,
            }),
    {
        ListRecommendationsInput { user, limit, context: RequestContext { scenario: "HOME" } }
    }

    /// The value as JSON.
    pub fn to_json(&self) -> (r: String)
        ensures
            r@ == self@.json(),
    {
        let mut out = "{\"limit\":".to_owned();
        push_decimal(&mut out, self.limit as i64);
        out.append(",\"userUrn\":");
        push_quoted(&mut out, self.user);
        out.append(",\"requestContext\":{\"scenario\":");
        push_quoted(&mut out, self.context.scenario);
        out.append("}}");
        out
    }
}

impl<'a> Variables<'a> {
    /// The value as JSON.
    pub fn to_json(&self) -> (r: String)
        ensures
            r@ == self@.json(),
    {
        match self {
            Variables::Urn(urn) => {
                let mut out = "{\"urn\":".to_owned();
                push_quoted(&mut out, urn);
                out.append("}");
                out
            },
            Variables::SearchInput(input) => {
                let inner = input.to_json();
                let mut out = "{\"input\":".to_owned();
                out.append(inner.as_str());
                out.append("}");
                out
            },
            Variables::AutoCompleteInput(input) => {
                let inner = input.to_json();
                let mut out = "{\"input\":".to_owned();
                out.append(inner.as_str());
                out.append("}");
                out
            },
            Variables::TagAssociationInput(input) => {
                let inner = input.to_json();
                let mut out = "{\"input\":".to_owned();
                out.append(inner.as_str());
                out.append("}");
                out
            },
            Variables::ListRecommendationsInput(input) => {
                let inner = input.to_json();
                let mut out = "{\"input\":".to_owned();
                out.append(inner.as_str());
                out.append("}");
                out
            },
        }
    }
}

impl<'a> GraphQL<'a> {
    pub fn new(query: &'a str, vars: Variables<'a>) -> (r: GraphQL<'a>)
        ensures
            r@ == (GraphQLModel { query: query@, variables: vars@ }),
    {
        GraphQL { query, variables: vars }
    }

    /// The body of the request, as it is sent upstream.
    pub fn to_json(&self) -> (r: String)
        ensures
            r@ == self@.json(),
    {
        let inner = self.variables.to_json();
        let mut out = "{\"query\":".to_owned();
        push_quoted(&mut out, self.query);
        out.append(",\"variables\":");
        out.append(inner.as_str());
        out.append("}");
        out
    }
}

} // verus!
