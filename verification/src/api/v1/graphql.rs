//! One factory per upstream operation: it holds the operation's document and
//! makes the request for given arguments.

use vstd::prelude::*;
use std::marker::PhantomData;
use vstd::string::StringExecFns;
use crate::api::v1::params::QueryParams;
use crate::api::v1::queries;
use crate::api::v1::queries::{
    add_tag_template, by_id_template, by_name_template, by_query_template, platforms_template,
    remove_tag_template,
};
use crate::schemas::graphql::{
    AutoCompleteInputModel, FilterModel, GraphQLModel, ListRecommendationsInputModel,
    SearchInputModel, TagAssociationInputModel, VariablesModel,
};
use crate::schemas::{
    AutoCompleteInput, Filter, GraphQL, ListRecommendationsInput, SearchInput,
    TagAssociationInput, Variables,
};
use crate::json::quoted;
use crate::text::{compacted, decimal, join, same_text, without_char};

verus! {

/// A free-text query as it is sent: between wildcards, unless it is the
/// wildcard that matches everything.
pub open spec fn wildcarded(query: Seq<char>) -> Seq<char> {
    if query == "*"@ {
        query
    } else {
        "*"@ + query + "*"@
    }
}

/// A search for the entities that carry `tags`, as a query text.
pub open spec fn tags_query(tags: Seq<char>) -> Seq<char> {
    "tags:"@ + tags
}

/// The request that looks the entity `urn` up.
pub open spec fn lookup_request(document: Seq<char>, urn: Seq<char>) -> GraphQLModel {
    GraphQLModel { query: document, variables: VariablesModel::Urn(urn) }
}

/// The request that completes the name `query` among the entities of `class`.
pub open spec fn autocomplete_request(
    document: Seq<char>,
    class: Seq<char>,
    query: Seq<char>,
    limit: int,
) -> GraphQLModel {
    GraphQLModel {
        query: document,
        variables: VariablesModel::AutoCompleteInput(AutoCompleteInputModel { limit, query, class }),
    }
}

/// The request that searches the entities of `class` for the query text
/// `query`, and asks for `limit` results from `start` on.
pub open spec fn search_request(
    document: Seq<char>,
    class: Seq<char>,
    query: Seq<char>,
    start: int,
    limit: int,
    filters: Option<FilterModel>,
) -> GraphQLModel {
    GraphQLModel {
        query: document,
        variables: VariablesModel::SearchInput(
            SearchInputModel { start, count: limit, query, class, filters },
        ),
    }
}

/// The request that lists what is recommended to `user` on the home page.
pub open spec fn recommendations_request(document: Seq<char>, user: Seq<char>, limit: int) -> GraphQLModel {
    GraphQLModel {
        query: document,
        variables: VariablesModel::ListRecommendationsInput(
            ListRecommendationsInputModel { limit, user, scenario: "HOME"@ },
        ),
    }
}

/// The request that ties the tag to the resource, or unties it.
pub open spec fn association_request(
    document: Seq<char>,
    resource: Seq<char>,
    tag: Seq<char>,
) -> GraphQLModel {
    GraphQLModel {
        query: document,
        variables: VariablesModel::TagAssociationInput(TagAssociationInputModel { tag, resource }),
    }
}

/// What a factory holds for an operation on one kind of entity: the
/// upstream name of the kind, and the document of the operation.
pub struct OperationModel {
    pub class: Seq<char>,
    pub document: Seq<char>,
}

/// Looks one entity up by its URN.
pub struct GetOneFactory<'a> {
    query: String,
    marker: PhantomData<&'a str>,
}

impl<'a> GetOneFactory<'a> {
    /// The document held.
    pub closed spec fn document(&self) -> Seq<char> {
        self.query@
    }

    /// `class` is the upstream field that serves the kind of entity, `values`
    /// the fields selected of it.
    pub fn new(class: &str, values: &str) -> (r: GetOneFactory<'a>)
        ensures
            r.document() == compacted(by_id_template(class@, values@)),
    {
        GetOneFactory { query: queries::by_id(class, values), marker: PhantomData }
    }

    pub fn body(&'a self, id: &'a str) -> (r: GraphQL<'a>)
        ensures
            r@ == lookup_request(self.document(), id@),
    {
        GraphQL::new(self.query.as_str(), Variables::Urn(id))
    }
}

/// Lists all entities of a kind, page by page.
pub struct GetAllFactory<'a> {
    class: &'a str,
    query: String,
}

impl<'a> GetAllFactory<'a> {
    /// The document held.
    pub closed spec fn document(&self) -> Seq<char> {
        self.query@
    }

    /// The upstream name of the kind of entity.
    pub closed spec fn class(&self) -> Seq<char> {
        self.class@
    }

    pub fn new(class: &'a str, values: &str) -> (r: GetAllFactory<'a>)
        ensures
            r.document() == compacted(by_query_template(values@)),
            r.class() == class@,
    {
        GetAllFactory { class, query: queries::by_query(values) }
    }

    pub fn body(&self, params: &QueryParams) -> (r: GraphQL)
        ensures
            r@ == search_request(
                self.document(),
                self.class(),
                "*"@,
                params.start as int,
                params.limit as int,
                None,
            ),
    {
        GraphQL::new(
            self.query.as_str(),
            Variables::SearchInput(
                SearchInput::new(self.class, "*".to_owned(), params.start, params.limit, None),
            ),
        )
    }
}

/// Completes a name: a limit, no offset, no total.
pub struct NameFactory<'a> {
    class: &'a str,
    query: String,
}

impl<'a> NameFactory<'a> {
    /// The document held.
    pub closed spec fn document(&self) -> Seq<char> {
        self.query@
    }

    /// The upstream name of the kind of entity.
    pub closed spec fn class(&self) -> Seq<char> {
        self.class@
    }

    pub fn new(class: &'a str, values: &str) -> (r: NameFactory<'a>)
        ensures
            r.document() == compacted(by_name_template(values@)),
            r.class() == class@,
    {
        NameFactory { class, query: queries::by_name(values) }
    }

    pub fn body(&'a self, query: &'a str, params: &QueryParams) -> (r: GraphQL<'a>)
        ensures
            r@ == autocomplete_request(self.document(), self.class(), query@, params.limit as int),
    {
        GraphQL::new(
            self.query.as_str(),
            Variables::AutoCompleteInput(AutoCompleteInput::new(self.class, query, params.limit)),
        )
    }
}

/// Searches for the entities that carry given tags.
pub struct TagsFactory<'a> {
    class: &'a str,
    query: String,
}

impl<'a> TagsFactory<'a> {
    /// The document held.
    pub closed spec fn document(&self) -> Seq<char> {
        self.query@
    }

    /// The upstream name of the kind of entity.
    pub closed spec fn class(&self) -> Seq<char> {
        self.class@
    }

    pub fn new(class: &'a str, values: &str) -> (r: TagsFactory<'a>)
        ensures
            r.document() == compacted(by_query_template(values@)),
            r.class() == class@,
    {
        TagsFactory { class, query: queries::by_query(values) }
    }

    pub fn body(&'a self, query: &str, params: &QueryParams) -> (r: GraphQL<'a>)
        ensures
            r@ == search_request(
                self.document(),
                self.class(),
                tags_query(query@),
                params.start as int,
                params.limit as int,
                None,
            ),
    {
        let tags = join("tags:", query);
        GraphQL::new(
            self.query.as_str(),
            Variables::SearchInput(SearchInput::new(self.class, tags, params.start, params.limit, None)),
        )
    }
}

/// Searches by free text.
pub struct QueryFactory<'a> {
    class: &'a str,
    query: String,
}

impl<'a> QueryFactory<'a> {
    /// The document held.
    pub closed spec fn document(&self) -> Seq<char> {
        self.query@
    }

    /// The upstream name of the kind of entity.
    pub closed spec fn class(&self) -> Seq<char> {
        self.class@
    }

    pub fn new(class: &'a str, values: &str) -> (r: QueryFactory<'a>)
        ensures
            r.document() == compacted(by_query_template(values@)),
            r.class() == class@,
    {
        QueryFactory { class, query: queries::by_query(values) }
    }

    pub fn body(&'a self, query: &str, params: &QueryParams) -> (r: GraphQL<'a>)
        ensures
            r@ == search_request(
                self.document(),
                self.class(),
                wildcarded(query@),
                params.start as int,
                params.limit as int,
                None,
            ),
    {
        let q = if same_text(query, "*") {
            query.to_owned()
        } else {
            let mut q = join("*", query);
            q.append("*");
            q
        };
        GraphQL::new(
            self.query.as_str(),
            Variables::SearchInput(SearchInput::new(self.class, q, params.start, params.limit, None)),
        )
    }
}

/// Searches for the entities of which one field has a given value.
pub struct FilterFactory<'a> {
    query: String,
    class: &'a str,
    filter: &'a str,
}

impl<'a> FilterFactory<'a> {
    /// The document held.
    pub closed spec fn document(&self) -> Seq<char> {
        self.query@
    }

    /// The upstream name of the kind of entity.
    pub closed spec fn class(&self) -> Seq<char> {
        self.class@
    }

    /// The field that the search constrains.
    pub closed spec fn field(&self) -> Seq<char> {
        self.filter@
    }

    pub fn new(class: &'a str, values: &str, filter: &'a str) -> (r: FilterFactory<'a>)
        ensures
            r.document() == compacted(by_query_template(values@)),
            r.class() == class@,
            r.field() == filter@,
    {
        FilterFactory { class, filter, query: queries::by_query(values) }
    }

    pub fn body(&'a self, value: &'a str, params: &QueryParams) -> (r: GraphQL<'a>)
        ensures
            r@ == search_request(
                self.document(),
                self.class(),
                "*"@,
                params.start as int,
                params.limit as int,
                Some(FilterModel { field: self.field(), value: value@ }),
            ),
    {
        GraphQL::new(
            self.query.as_str(),
            Variables::SearchInput(
                SearchInput::new(
                    self.class,
                    "*".to_owned(),
                    params.start,
                    params.limit,
                    Some(Filter::new(self.filter, value)),
                ),
            ),
        )
    }
}

/// Lists the platforms, which upstream recommends on the home page.
pub struct PlatformsFactory<'a> {
    user: String,
    query: String,
    marker: PhantomData<&'a str>,
}

impl<'a> PlatformsFactory<'a> {
    /// The document held.
    pub closed spec fn document(&self) -> Seq<char> {
        self.query@
    }

    /// The actor for whom the recommendations are asked.
    pub closed spec fn user(&self) -> Seq<char> {
        self.user@
    }

    pub fn new(values: &str) -> (r: PlatformsFactory<'a>)
        ensures
            r.document() == compacted(platforms_template(values@)),
            r.user() == "urn:li:corpuser:datahub"@,
    {
        PlatformsFactory {
            user: "urn:li:corpuser:datahub".to_owned(),
            query: queries::platforms(values),
            marker: PhantomData,
        }
    }

    pub fn body(&'a self, params: &QueryParams) -> (r: GraphQL<'a>)
        ensures
            r@ == recommendations_request(self.document(), self.user(), params.limit as int),
    {
        GraphQL::new(
            self.query.as_str(),
            Variables::ListRecommendationsInput(
                ListRecommendationsInput::new(self.user.as_str(), params.limit),
            ),
        )
    }
}

/// Ties a tag to a resource.
pub struct AddTagFactory {
    query: String,
}

impl AddTagFactory {
    /// The document held.
    pub closed spec fn document(&self) -> Seq<char> {
        self.query@
    }

    pub fn new() -> (r: AddTagFactory)
        ensures
            r.document() == compacted(add_tag_template()),
    {
        AddTagFactory { query: queries::add_tag() }
    }

    pub fn body<'a>(&'a self, resource: &'a str, tag: &'a str) -> (r: GraphQL<'a>)
        ensures
            r@ == association_request(self.document(), resource@, tag@),
    {
        GraphQL::new(
            self.query.as_str(),
            Variables::TagAssociationInput(TagAssociationInput::new(resource, tag)),
        )
    }
}

/// Unties a tag from a resource.
pub struct RemoveTagFactory {
    query: String,
}

impl RemoveTagFactory {
    /// The document held.
    pub closed spec fn document(&self) -> Seq<char> {
        self.query@
    }

    pub fn new() -> (r: RemoveTagFactory)
        ensures
            r.document() == without_char(remove_tag_template(), '\n'),
    {
        RemoveTagFactory { query: queries::remove_tag() }
    }

    pub fn body<'a>(&'a self, resource: &'a str, tag: &'a str) -> (r: GraphQL<'a>)
        ensures
            r@ == association_request(self.document(), resource@, tag@),
    {
        GraphQL::new(
            self.query.as_str(),
            Variables::TagAssociationInput(TagAssociationInput::new(resource, tag)),
        )
    }
}

/// A lookup carries one variable, the URN, and nothing of a page: its
/// variables are the object whose one member `urn` is the URN asked for.
pub proof fn lemma_lookup_carries_one_urn(document: Seq<char>, urn: Seq<char>)
    ensures
        lookup_request(document, urn).variables == VariablesModel::Urn(urn),
        !lookup_request(document, urn).variables.has_paging(),
        lookup_request(document, urn).variables.json() == "{\"urn\":"@ + quoted(urn) + "}"@,
{
}

/// Every search starts at the offset asked for and counts as many results
/// as the limit allows, whatever it searches for.
pub proof fn lemma_search_carries_page(
    document: Seq<char>,
    class: Seq<char>,
    query: Seq<char>,
    offset: int,
    limit: int,
    filters: Option<FilterModel>,
)
    ensures
        search_request(document, class, query, offset, limit, filters).variables
            matches VariablesModel::SearchInput(input) && input.start == offset && input.count
            == limit && input.query == query && input.class == class && input.filters == filters,
        search_request(document, class, query, offset, limit, filters).variables.has_paging(),
{
}

/// A free-text search sends the query between wildcards unless it is the
/// wildcard itself, and says where its page starts and how long it is: so
/// its variables are written.
pub proof fn lemma_free_text_search_is_wildcarded(
    document: Seq<char>,
    class: Seq<char>,
    query: Seq<char>,
    offset: int,
    limit: int,
)
    ensures
        wildcarded("*"@) == "*"@,
        query != "*"@ ==> wildcarded(query) == "*"@ + query + "*"@,
        search_request(document, class, wildcarded(query), offset, limit, None).variables.json()
            == "{\"input\":"@ + ("{\"start\":"@ + decimal(offset) + ",\"count\":"@ + decimal(limit)
            + ",\"query\":"@ + quoted(wildcarded(query)) + ",\"type\":"@ + quoted(class) + "}"@)
            + "}"@,
{
    let input = SearchInputModel {
        start: offset,
        count: limit,
        query: wildcarded(query),
        class,
        filters: None,
    };
    assert(input.filters_json() =~= Seq::<char>::empty());
    assert(input.json() =~= "{\"start\":"@ + decimal(offset) + ",\"count\":"@ + decimal(limit)
        + ",\"query\":"@ + quoted(wildcarded(query)) + ",\"type\":"@ + quoted(class) + "}"@);
}

} // verus!
