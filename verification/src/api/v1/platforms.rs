//! The requests that serve the platforms of the REST surface.

use vstd::prelude::*;
use crate::api::v1::datasets::QUERY_VALUES as DATASET_VALUES;
use crate::api::v1::graphql::{
    lookup_request, recommendations_request, search_request, FilterFactory, GetOneFactory,
    OperationModel, PlatformsFactory,
};
use crate::api::v1::params::QueryParams;
use crate::api::v1::queries::{by_id_template, by_query_template, platforms_template};
use crate::schemas::graphql::FilterModel;
use crate::schemas::GraphQL;
use crate::text::compacted;

verus! {

/// What is selected of a platform.
pub const QUERY_VALUES: &'static str = "
    urn
    __typename
    ... on DataPlatform {
        name
        properties {
            name: displayName
            class: type
        }
    }
";

/// The upstream field that looks a platform up.
pub const FIELD: &'static str = "dataPlatform";

/// The upstream name of the kind searched for the datasets on a platform.
pub const DATASETS_CLASS: &'static str = "DATASETS";

/// The field by which the datasets on a platform are found.
pub const DATASETS_FILTER: &'static str = "platform";

/// The factories of the requests for platforms, made once.
pub struct Requests {
    get_all: PlatformsFactory<'static>,
    get_by_id: GetOneFactory<'static>,
    datasets_by_platform: FilterFactory<'static>,
}

/// What the factories hold, as a mathematical value: for each operation its
/// document, the actor for whom the platforms are listed, and for the
/// filtered search its kind of entity and the field that it constrains.
pub struct RequestsModel {
    pub get_all: Seq<char>,
    pub user: Seq<char>,
    pub get_by_id: Seq<char>,
    pub datasets_by_platform: OperationModel,
    pub datasets_filter: Seq<char>,
}

impl View for Requests {
    type V = RequestsModel;

    closed spec fn view(&self) -> RequestsModel {
        RequestsModel {
            get_all: self.get_all.document(),
            user: self.get_all.user(),
            get_by_id: self.get_by_id.document(),
            datasets_by_platform: OperationModel {
                class: self.datasets_by_platform.class(),
                document: self.datasets_by_platform.document(),
            },
            datasets_filter: self.datasets_by_platform.field(),
        }
    }
}

/// The factories of the requests for platforms: the documents select
/// `QUERY_VALUES`, the platforms are listed for the fixed actor, the lookup
/// goes through the field `FIELD`, and the datasets on a platform are
/// searched in the kind `DATASETS_CLASS` by the field `DATASETS_FILTER`,
/// with the selection of a dataset.
pub open spec fn made() -> RequestsModel {
    RequestsModel {
        get_all: compacted(platforms_template(QUERY_VALUES@)),
        user: "urn:li:corpuser:datahub"@,
        get_by_id: compacted(by_id_template(FIELD@, QUERY_VALUES@)),
        datasets_by_platform: OperationModel {
            class: DATASETS_CLASS@,
            document: compacted(by_query_template(DATASET_VALUES@)),
        },
        datasets_filter: DATASETS_FILTER@,
    }
}

impl Requests {
    /// The factories hold what they were made with.
    #[verifier::type_invariant]
    spec fn wf(&self) -> bool {
        self@ == made()
    }

    /// The factories of the requests for platforms, as `made` states them.
    pub fn new() -> (r: Requests)
        ensures
            r@ == made(),
    {
        Requests {
            get_all: PlatformsFactory::new(QUERY_VALUES),
            get_by_id: GetOneFactory::new(FIELD, QUERY_VALUES),
            datasets_by_platform: FilterFactory::new(DATASETS_CLASS, DATASET_VALUES, DATASETS_FILTER),
        }
    }

    /// The request that looks the platform `id` up.
    pub fn by_id<'a>(&'a self, id: &'a str) -> (r: GraphQL<'a>)
        ensures
            r@ == lookup_request(compacted(by_id_template(FIELD@, QUERY_VALUES@)), id@),
    {
        proof {
            use_type_invariant(self);
        }
        self.get_by_id.body(id)
    }

    /// The request that lists the platforms: of the parameters only the
    /// limit counts.
    pub fn by_query<'a>(&'a self, params: &QueryParams) -> (r: GraphQL<'a>)
        ensures
            r@ == recommendations_request(
                compacted(platforms_template(QUERY_VALUES@)),
                "urn:li:corpuser:datahub"@,
                params.limit as int,
            ),
    {
        proof {
            use_type_invariant(self);
        }
        self.get_all.body(params)
    }

    /// The request that lists the datasets on the platform `id`.
    pub fn datasets_by_platform<'a>(&'a self, id: &'a str, params: &QueryParams) -> (r: GraphQL<'a>)
        ensures
            r@ == search_request(
                compacted(by_query_template(DATASET_VALUES@)),
                DATASETS_CLASS@,
                "*"@,
                params.start as int,
                params.limit as int,
                Some(FilterModel { field: DATASETS_FILTER@, value: id@ }),
            ),
    {
        proof {
            use_type_invariant(self);
        }
        self.datasets_by_platform.body(id, params)
    }
}

} // verus!
