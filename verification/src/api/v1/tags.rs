//! The requests that serve the tags of the REST surface.

use vstd::prelude::*;
use crate::api::v1::datasets::{list_request, QUERY_VALUES as DATASET_VALUES};
use crate::api::v1::graphql::{
    lookup_request, search_request, FilterFactory, GetAllFactory, GetOneFactory, NameFactory,
    OperationModel, QueryFactory,
};
use crate::api::v1::params::{QueryParams, QueryType};
use crate::api::v1::queries::{by_id_template, by_name_template, by_query_template};
use crate::decode::model_of;
use crate::schemas::datahub::{CreateTagModel, DeleteTag, DeleteTagModel};
use crate::schemas::graphql::FilterModel;
use crate::schemas::requests;
use crate::schemas::tags::TagModel;
use crate::schemas::{GraphQL, Tag};
use crate::tags::create::tag_urn;
use crate::tags::CreateRequest;
use crate::text::{compacted, join};

verus! {

/// What is selected of a tag.
pub const QUERY_VALUES: &'static str = "
    urn
    __typename
    ... on Tag {
        urn
        properties {
            name
            description
        }
    }
";

/// The upstream name of the kind of entity.
pub const CLASS: &'static str = "TAG";

/// The upstream field that looks a tag up.
pub const FIELD: &'static str = "tag";

/// The upstream name of the kind searched for the datasets that carry a tag.
pub const DATASETS_CLASS: &'static str = "DATASETS";

/// The field by which the datasets that carry a tag are found.
pub const DATASETS_FILTER: &'static str = "tags";

/// The factories of the requests for tags, made once.
pub struct Requests {
    get_all: GetAllFactory<'static>,
    get_by_id: GetOneFactory<'static>,
    get_by_name: NameFactory<'static>,
    get_by_query: QueryFactory<'static>,
    datasets_by_tag: FilterFactory<'static>,
}

/// What the factories hold, as a mathematical value: for each operation its
/// document, for each operation on a kind of entity that kind, and for the
/// filtered search the field that it constrains.
pub struct RequestsModel {
    pub get_all: OperationModel,
    pub get_by_id: Seq<char>,
    pub get_by_name: OperationModel,
    pub get_by_query: OperationModel,
    pub datasets_by_tag: OperationModel,
    pub datasets_filter: Seq<char>,
}

impl View for Requests {
    type V = RequestsModel;

    closed spec fn view(&self) -> RequestsModel {
        RequestsModel {
            get_all: OperationModel {
                class: self.get_all.class(),
                document: self.get_all.document(),
            },
            get_by_id: self.get_by_id.document(),
            get_by_name: OperationModel {
                class: self.get_by_name.class(),
                document: self.get_by_name.document(),
            },
            get_by_query: OperationModel {
                class: self.get_by_query.class(),
                document: self.get_by_query.document(),
            },
            datasets_by_tag: OperationModel {
                class: self.datasets_by_tag.class(),
                document: self.datasets_by_tag.document(),
            },
            datasets_filter: self.datasets_by_tag.field(),
        }
    }
}

/// The factories of the requests for tags: the operations on tags are on the
/// kind `CLASS` and select `QUERY_VALUES`, the lookup goes through the field
/// `FIELD`, and the datasets that carry a tag are searched in the kind
/// `DATASETS_CLASS` by the field `DATASETS_FILTER`, with the selection of a
/// dataset.
pub open spec fn made() -> RequestsModel {
    RequestsModel {
        get_all: OperationModel {
            class: CLASS@,
            document: compacted(by_query_template(QUERY_VALUES@)),
        },
        get_by_id: compacted(by_id_template(FIELD@, QUERY_VALUES@)),
        get_by_name: OperationModel {
            class: CLASS@,
            document: compacted(by_name_template(QUERY_VALUES@)),
        },
        get_by_query: OperationModel {
            class: CLASS@,
            document: compacted(by_query_template(QUERY_VALUES@)),
        },
        datasets_by_tag: OperationModel {
            class: DATASETS_CLASS@,
            document: compacted(by_query_template(DATASET_VALUES@)),
        },
        datasets_filter: DATASETS_FILTER@,
    }
}

/// The description given, or the empty text where none is.
pub open spec fn description_of(payload: requests::CreateTagModel) -> Seq<char> {
    match payload.description {
        Some(d) => d,
        None => Seq::empty(),
    }
}

/// The snapshot that creates the tag asked for.
pub open spec fn creation_of(payload: requests::CreateTagModel) -> CreateTagModel {
    CreateTagModel {
        urn: tag_urn(payload.name),
        name: payload.name,
        description: description_of(payload),
    }
}

/// The tag that a request to create one is answered with.
pub open spec fn created_of(payload: requests::CreateTagModel) -> TagModel {
    TagModel {
        id: tag_urn(payload.name),
        name: Some(payload.name),
        description: Some(description_of(payload)),
    }
}

impl Requests {
    /// The factories hold what they were made with.
    #[verifier::type_invariant]
    spec fn wf(&self) -> bool {
        self@ == made()
    }

    /// The factories of the requests for tags, as `made` states them.
    pub fn new() -> (r: Requests)
        ensures
            r@ == made(),
    {
        Requests {
            get_all: GetAllFactory::new(CLASS, QUERY_VALUES),
            get_by_id: GetOneFactory::new(FIELD, QUERY_VALUES),
            get_by_name: NameFactory::new(CLASS, QUERY_VALUES),
            get_by_query: QueryFactory::new(CLASS, QUERY_VALUES),
            datasets_by_tag: FilterFactory::new(DATASETS_CLASS, DATASET_VALUES, DATASETS_FILTER),
        }
    }

    /// The request that looks the tag `id` up.
    pub fn by_id<'a>(&'a self, id: &'a str) -> (r: GraphQL<'a>)
        ensures
            r@ == lookup_request(compacted(by_id_template(FIELD@, QUERY_VALUES@)), id@),
    {
        proof {
            use_type_invariant(self);
        }
        self.get_by_id.body(id)
    }

    /// The request that serves a list request. Tags are not searched by the
    /// tags they carry: for such a request there is none.
    pub fn by_query<'a>(&'a self, params: &'a QueryParams) -> (r: Option<GraphQL<'a>>)
        ensures
            match r {
                Some(g) => !(params@.query is Tags) && g@ == list_request(
                    CLASS@,
                    QUERY_VALUES@,
                    params@,
                ),
                None => params@.query is Tags,
            },
    {
        proof {
            use_type_invariant(self);
        }
        match &params.query {
            QueryType::All => Some(self.get_all.body(params)),
            QueryType::Name(name) => Some(self.get_by_name.body(name.as_str(), params)),
            QueryType::Query(query) => Some(self.get_by_query.body(query.as_str(), params)),
            QueryType::Tags(_) => None,
        }
    }

    /// The request that lists the datasets that carry the tag `id`.
    pub fn datasets_by_tag<'a>(&'a self, id: &'a str, params: &QueryParams) -> (r: GraphQL<'a>)
        ensures
            r@ == search_request(
                compacted(by_query_template(DATASET_VALUES@)),
                DATASETS_CLASS@,
                "*"@,
                params.start as int,
                params.limit as int,
                Some(FilterModel { field: DATASETS_FILTER@, value: id@ }),
            ),
    {
        proof {
            use_type_invariant(self);
        }
        self.datasets_by_tag.body(id, params)
    }
}

/// The URN of the tag of a given name.
pub fn urn_of(name: &str) -> (r: String)
    ensures
        r@ == tag_urn(name@),
{
    join("urn:li:tag:", name)
}

/// The body that asks the ingestion endpoint to create the tag.
pub fn creation_body(payload: &requests::CreateTag) -> (r: String)
    ensures
        r@ == creation_of(payload@).json(),
{
    let description = match &payload.description {
        Some(d) => d.clone(),
        None => String::new(),
    };
    CreateRequest::with(payload.name.clone(), description).to_json()
}

/// The tag that a request to create one is answered with.
pub fn created_tag(payload: &requests::CreateTag) -> (r: Tag)
    ensures
        r@ == created_of(payload@),
{
    let description = match &payload.description {
        Some(d) => d.clone(),
        None => String::new(),
    };
    Tag::new(urn_of(payload.name.as_str()), Some(payload.name.clone()), Some(description))
}

/// The body that asks the ingestion endpoint to delete the tag `id`.
pub fn deletion_body(id: &str) -> (r: String)
    ensures
        r@ == (DeleteTagModel { urn: id@, removed: true }).json(),
{
    DeleteTag::new(id).to_json()
}

} // verus!
