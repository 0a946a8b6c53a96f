//! The requests that serve the datasets of the REST surface.

use vstd::prelude::*;
use crate::api::v1::graphql::{
    association_request, autocomplete_request, lookup_request, search_request, tags_query,
    wildcarded, AddTagFactory, GetAllFactory, GetOneFactory, NameFactory, OperationModel,
    QueryFactory, RemoveTagFactory, TagsFactory,
};
use crate::api::v1::params::{QueryParams, QueryType, QueryTypeModel};
use crate::api::v1::queries::{
    add_tag_template, by_id_template, by_name_template, by_query_template, remove_tag_template,
};
use crate::schemas::graphql::GraphQLModel;
use crate::schemas::GraphQL;
use crate::text::{compacted, without_char};

verus! {

/// What is selected of a dataset.
pub const QUERY_VALUES: &'static str = "
    urn
    __typename
    ... on Dataset {
        name
        platform {
            name
            properties {
                name: displayName
                class: type
            }
        }
        properties {
            name
            origin
        }
        schema: schemaMetadata {
            fields {
                path: fieldPath
                class: type
                native: nativeDataType
            }
        }
        sub_types: subTypes {
            names: typeNames
        }
        tags {
            tags {
                tag {
                    urn
                    properties {
                        name
                        description
                    }
                }
            }
        }
    }
";

/// The upstream name of the kind of entity.
pub const CLASS: &'static str = "DATASET";

/// The upstream field that looks a dataset up.
pub const FIELD: &'static str = "dataset";

/// The factories of the requests for datasets, made once.
pub struct Requests {
    add_tag: AddTagFactory,
    remove_tag: RemoveTagFactory,
    get_all: GetAllFactory<'static>,
    get_by_id: GetOneFactory<'static>,
    get_by_name: NameFactory<'static>,
    get_by_tags: TagsFactory<'static>,
    get_by_query: QueryFactory<'static>,
}

/// What the factories hold, as a mathematical value: for each operation its
/// document, and for each operation on a kind of entity that kind.
pub struct RequestsModel {
    pub add_tag: Seq<char>,
    pub remove_tag: Seq<char>,
    pub get_all: OperationModel,
    pub get_by_id: Seq<char>,
    pub get_by_name: OperationModel,
    pub get_by_tags: OperationModel,
    pub get_by_query: OperationModel,
}

impl View for Requests {
    type V = RequestsModel;

    closed spec fn view(&self) -> RequestsModel {
        RequestsModel {
            add_tag: self.add_tag.document(),
            remove_tag: self.remove_tag.document(),
            get_all: OperationModel {
                class: self.get_all.class(),
                document: self.get_all.document(),
            },
            get_by_id: self.get_by_id.document(),
            get_by_name: OperationModel {
                class: self.get_by_name.class(),
                document: self.get_by_name.document(),
            },
            get_by_tags: OperationModel {
                class: self.get_by_tags.class(),
                document: self.get_by_tags.document(),
            },
            get_by_query: OperationModel {
                class: self.get_by_query.class(),
                document: self.get_by_query.document(),
            },
        }
    }
}

/// The factories of the requests for datasets: every operation is on the
/// kind `CLASS`, the lookup goes through the field `FIELD`, and every
/// document that selects anything selects `QUERY_VALUES`.
pub open spec fn made() -> RequestsModel {
    RequestsModel {
        add_tag: compacted(add_tag_template()),
        remove_tag: without_char(remove_tag_template(), '\n'),
        get_all: OperationModel {
            class: CLASS@,
            document: compacted(by_query_template(QUERY_VALUES@)),
        },
        get_by_id: compacted(by_id_template(FIELD@, QUERY_VALUES@)),
        get_by_name: OperationModel {
            class: CLASS@,
            document: compacted(by_name_template(QUERY_VALUES@)),
        },
        get_by_tags: OperationModel {
            class: CLASS@,
            document: compacted(by_query_template(QUERY_VALUES@)),
        },
        get_by_query: OperationModel {
            class: CLASS@,
            document: compacted(by_query_template(QUERY_VALUES@)),
        },
    }
}

/// The request that serves a list request for the entities of `class`:
/// a free-text search where one is asked for, else a completion of the name,
/// else a search by tags, else a search for everything.
pub open spec fn list_request(
    class: Seq<char>,
    values: Seq<char>,
    params: crate::api::v1::params::QueryParamsModel,
) -> GraphQLModel {
    match params.query {
        QueryTypeModel::All => search_request(
            compacted(by_query_template(values)),
            class,
            "*"@,
            params.start,
            params.limit,
            None,
        ),
        QueryTypeModel::Name(name) => autocomplete_request(
            compacted(by_name_template(values)),
            class,
            name,
            params.limit,
        ),
        QueryTypeModel::Tags(tags) => search_request(
            compacted(by_query_template(values)),
            class,
            tags_query(tags),
            params.start,
            params.limit,
            None,
        ),
        QueryTypeModel::Query(query) => search_request(
            compacted(by_query_template(values)),
            class,
            wildcarded(query),
            params.start,
            params.limit,
            None,
        ),
    }
}

impl Requests {
    /// The factories hold what they were made with.
    #[verifier::type_invariant]
    spec fn wf(&self) -> bool {
        self@ == made()
    }

    /// The factories of the requests for datasets, as `made` states them.
    pub fn new() -> (r: Requests)
        ensures
            r@ == made(),
    {
        Requests {
            add_tag: AddTagFactory::new(),
            remove_tag: RemoveTagFactory::new(),
            get_all: GetAllFactory::new(CLASS, QUERY_VALUES),
            get_by_id: GetOneFactory::new(FIELD, QUERY_VALUES),
            get_by_name: NameFactory::new(CLASS, QUERY_VALUES),
            get_by_tags: TagsFactory::new(CLASS, QUERY_VALUES),
            get_by_query: QueryFactory::new(CLASS, QUERY_VALUES),
        }
    }

    /// The request that looks the dataset `id` up.
    pub fn by_id<'a>(&'a self, id: &'a str) -> (r: GraphQL<'a>)
        ensures
            r@ == lookup_request(compacted(by_id_template(FIELD@, QUERY_VALUES@)), id@),
    {
        proof {
            use_type_invariant(self);
        }
        self.get_by_id.body(id)
    }

    /// The request that serves a list request.
    pub fn by_query<'a>(&'a self, params: &'a QueryParams) -> (r: GraphQL<'a>)
        ensures
            r@ == list_request(CLASS@, QUERY_VALUES@, params@),
    {
        proof {
            use_type_invariant(self);
        }
        match &params.query {
            QueryType::All => self.get_all.body(params),
            QueryType::Name(name) => self.get_by_name.body(name.as_str(), params),
            QueryType::Tags(tags) => self.get_by_tags.body(tags.as_str(), params),
            QueryType::Query(query) => self.get_by_query.body(query.as_str(), params),
        }
    }

    /// The request that ties the tag `tag` to the dataset `id`.
    pub fn add_tag<'a>(&'a self, id: &'a str, tag: &'a str) -> (r: GraphQL<'a>)
        ensures
            r@ == association_request(compacted(add_tag_template()), id@, tag@),
    {
        proof {
            use_type_invariant(self);
        }
        self.add_tag.body(id, tag)
    }

    /// The request that unties the tag `tag_id` from the dataset `id`.
    pub fn remove_tag<'a>(&'a self, id: &'a str, tag_id: &'a str) -> (r: GraphQL<'a>)
        ensures
            r@ == association_request(without_char(remove_tag_template(), '\n'), id@, tag_id@),
    {
        proof {
            use_type_invariant(self);
        }
        self.remove_tag.body(id, tag_id)
    }
}

} // verus!
