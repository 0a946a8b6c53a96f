//! Datasets as the REST surface returns them.

use vstd::prelude::*;
use crate::decode::{model_of, models_of};
use crate::schemas::datahub;
use crate::schemas::datahub::{EntityModel, FromEntity};
use vstd::string::StringExecFns;
use crate::decode::agrees;
use crate::json::{push_quoted, quoted, DecodeError};
use crate::render::{array, jsons_of, push_array, push_quoted_or_null, quoted_or_null, ToJson};
use crate::schemas::paging::{paging_or_null, push_paging_or_null, Paging, PagingModel};
use crate::schemas::tags::{tag_envelopes, TagEnvelope, TagEnvelopeModel};

verus! {

/// `Field` as a mathematical value.
pub struct FieldModel {
    pub path: Seq<char>,
    pub class: Seq<char>,
    pub native: Seq<char>,
}

/// `Dataset` as a mathematical value.
pub struct DatasetModel {
    pub id: Seq<char>,
    pub path: Seq<char>,
    pub name: Option<Seq<char>>,
    pub origin: Option<Seq<char>>,
    pub platform: Option<Seq<char>>,
    pub platform_type: Option<Seq<char>>,
    pub platform_name: Option<Seq<char>>,
    pub class: Option<Seq<char>>,
    pub tags: Seq<TagEnvelopeModel>,
    pub fields: Option<Seq<FieldModel>>,
}

/// `DatasetEnvelope` as a mathematical value.
pub struct DatasetEnvelopeModel {
    pub dataset: Option<DatasetModel>,
}

/// `Datasets` as a mathematical value.
pub struct DatasetsModel {
    pub data: Seq<DatasetEnvelopeModel>,
    pub paging: Option<PagingModel>,
}

impl FieldModel {
    /// The value as JSON.
    pub open spec fn json(self) -> Seq<char> {
        "{\"path\":"@ + quoted(self.path) + ",\"type\":"@ + quoted(self.class)
            + ",\"nativeType\":"@ + quoted(self.native) + "}"@
    }
}

impl DatasetModel {
    /// The member `fields`: the columns, or `null` where upstream gave no schema.
    pub open spec fn fields_json(self) -> Seq<char> {
        match self.fields {
            Some(fields) => array(jsons_of::<Field>(fields)),
            None => "null"@,
        }
    }

    /// The value as JSON.
    pub open spec fn json(self) -> Seq<char> {
        "{\"id\":"@ + quoted(self.id) + ",\"path\":"@ + quoted(self.path) + ",\"name\":"@
            + quoted_or_null(self.name) + ",\"origin\":"@ + quoted_or_null(self.origin)
            + ",\"platform\":"@ + quoted_or_null(self.platform) + ",\"platformType\":"@
            + quoted_or_null(self.platform_type) + ",\"platformName\":"@ + quoted_or_null(
            self.platform_name,
        ) + ",\"type\":"@ + quoted_or_null(self.class) + ",\"tags\":"@ + array(
            jsons_of::<TagEnvelope>(self.tags),
        ) + ",\"fields\":"@ + self.fields_json() + "}"@
    }
}

impl DatasetEnvelopeModel {
    /// The value as JSON.
    pub open spec fn json(self) -> Seq<char> {
        "{\"dataset\":"@ + (match self.dataset {
            Some(d) => d.json(),
            None => "null"@,
        }) + "}"@
    }
}

impl DatasetsModel {
    /// The value as JSON.
    pub open spec fn json(self) -> Seq<char> {
        "{\"data\":"@ + array(jsons_of::<DatasetEnvelope>(self.data)) + ",\"paging\":"@
            + paging_or_null(self.paging) + "}"@
    }
}

/// The list of datasets that an answer to a list request is reduced to.
pub open spec fn datasets_of(resp: datahub::QueryResponseModel) -> Result<DatasetsModel, DecodeError> {
    match resp.processed::<DatasetEnvelope>() {
        Ok((data, paging)) => Ok(DatasetsModel { data, paging }),
        Err(e) => Err(e),
    }
}

/// One column of a dataset: where it lies, its class of type, and the type
/// as the platform names it.
#[derive(Debug, PartialEq, Eq)]
pub struct Field {
    path: String,
    class: String,
    native: String,
}

#[derive(Debug, PartialEq, Eq)]
pub struct Dataset {
    id: String,
    path: String,
    name: Option<String>,
    origin: Option<String>,
    platform: Option<String>,
    platform_type: Option<String>,
    platform_name: Option<String>,
    class: Option<String>,
    tags: Vec<TagEnvelope>,
    fields: Option<Vec<Field>>,
}

/// A dataset, or nothing where there is none of the URN asked for.
#[derive(Debug, PartialEq, Eq)]
pub struct DatasetEnvelope {
    pub dataset: Option<Dataset>,
}

/// A list of datasets, with the page where the list comes from a counted
/// search.
#[derive(Debug, PartialEq, Eq)]
pub struct Datasets {
    data: Vec<DatasetEnvelope>,
    paging: Option<Paging>,
}

impl View for Field {
    type V = FieldModel;

    closed spec fn view(&self) -> FieldModel {
        FieldModel { path: self.path@, class: self.class@, native: self.native@ }
    }
}

impl View for Dataset {
    type V = DatasetModel;

    closed spec fn view(&self) -> DatasetModel {
        DatasetModel {
            id: self.id@,
            path: self.path@,
            name: model_of(self.name),
            origin: model_of(self.origin),
            platform: model_of(self.platform),
            platform_type: model_of(self.platform_type),
            platform_name: model_of(self.platform_name),
            class: model_of(self.class),
            tags: models_of(self.tags@),
            fields: match self.fields {
                Some(fields) => Some(models_of(fields@)),
                None => None,
            },
        }
    }
}

impl View for DatasetEnvelope {
    type V = DatasetEnvelopeModel;

    open spec fn view(&self) -> DatasetEnvelopeModel {
        DatasetEnvelopeModel { dataset: model_of(self.dataset) }
    }
}

impl View for Datasets {
    type V = DatasetsModel;

    closed spec fn view(&self) -> DatasetsModel {
        DatasetsModel { data: models_of(self.data@), paging: model_of(self.paging) }
    }
}

pub open spec fn normalized_field(field: datahub::DatasetFieldModel) -> FieldModel {
    FieldModel { path: field.path, class: field.class, native: field.native }
}

pub open spec fn normalized_fields(fields: Seq<datahub::DatasetFieldModel>) -> Seq<FieldModel> {
    Seq::new(fields.len(), |i: int| normalized_field(fields[i]))
}

/// The label of a dataset's subtype: the first of the names, where the list
/// is there and has one.
pub open spec fn subtype_label(sub_types: Option<datahub::DatasetSubTypeModel>) -> Option<Seq<char>> {
    match sub_types {
        Some(st) => if st.names.len() > 0 {
            Some(st.names[0])
        } else {
            None
        },
        None => None,
    }
}

/// What an upstream dataset is reduced to. What comes from an optional part
/// is absent where the part is; a dataset without tags has the empty list.
pub open spec fn normalized_dataset(e: datahub::DatasetModel) -> DatasetModel {
    DatasetModel {
        id: e.urn,
        path: e.name,
        name: match e.properties {
            Some(p) => Some(p.name),
            None => None,
        },
        origin: match e.properties {
            Some(p) => Some(p.origin),
            None => None,
        },
        platform: match e.platform {
            Some(p) => Some(p.name),
            None => None,
        },
        platform_type: match e.platform {
            Some(p) => Some(p.properties.class),
            None => None,
        },
        platform_name: match e.platform {
            Some(p) => Some(p.properties.name),
            None => None,
        },
        class: subtype_label(e.sub_types),
        tags: match e.tags {
            Some(tags) => tag_envelopes(tags.tags),
            None => Seq::empty(),
        },
        fields: match e.schema {
            Some(schema) => Some(normalized_fields(schema.fields)),
            None => None,
        },
    }
}

/// The envelope of a dataset that may be absent.
pub open spec fn dataset_envelope(dataset: Option<datahub::DatasetModel>) -> DatasetEnvelopeModel {
    DatasetEnvelopeModel {
        dataset: match dataset {
            Some(d) => Some(normalized_dataset(d)),
            None => None,
        },
    }
}

impl Field {
    pub fn from_fields(fields: &Vec<datahub::DatasetField>) -> (r: Vec<Field>)
        ensures
            models_of(r@) == normalized_fields(models_of(fields@)),
    {
        let mut out: Vec<Field> = Vec::new();
        let mut i: usize = 0;
        while i < fields.len()
            invariant
                i <= fields@.len(),
                out@.len() == i,
                forall|k: int| 0 <= k < i ==> (#[trigger] out@[k])@ == normalized_field(fields@[k]@),
            decreases fields@.len() - i,
        {
            out.push(Field::from_field(&fields[i]));
            i = i + 1;
        }
        proof {
            assert(models_of(out@) =~= normalized_fields(models_of(fields@)));
        }
        out
    }

    /// The column that an upstream column is reduced to.
    pub fn from_field(field: &datahub::DatasetField) -> (r: Field)
        ensures
            r@ == normalized_field(field@),
    {
        Field {
            path: field.path.to_owned(),
            class: field.class.to_owned(),
            native: field.native.to_owned(),
        }
    }
}

impl ToJson for Field {
    open spec fn json_of(v: FieldModel) -> Seq<char> {
        v.json()
    }

    fn to_json(&self) -> (r: String) {
        let mut out = "{\"path\":".to_owned();
        push_quoted(&mut out, self.path.as_str());
        out.append(",\"type\":");
        push_quoted(&mut out, self.class.as_str());
        out.append(",\"nativeType\":");
        push_quoted(&mut out, self.native.as_str());
        out.append("}");
        out
    }
}

fn label_of(sub_types: &Option<datahub::DatasetSubType>) -> (r: Option<String>)
    ensures
        model_of(r) == subtype_label(model_of(*sub_types)),
{
    match sub_types {
        Some(st) => if st.names.len() > 0 {
            Some(st.names[0].to_owned())
        } else {
            None
        },
        None => None,
    }
}

impl Dataset {
    /// The value as JSON.
    pub fn to_json(&self) -> (r: String)
        ensures
            r@ == self@.json(),
    {
        let mut out = "{\"id\":".to_owned();
        push_quoted(&mut out, self.id.as_str());
        out.append(",\"path\":");
        push_quoted(&mut out, self.path.as_str());
        out.append(",\"name\":");
        push_quoted_or_null(&mut out, &self.name);
        out.append(",\"origin\":");
        push_quoted_or_null(&mut out, &self.origin);
        out.append(",\"platform\":");
        push_quoted_or_null(&mut out, &self.platform);
        out.append(",\"platformType\":");
        push_quoted_or_null(&mut out, &self.platform_type);
        out.append(",\"platformName\":");
        push_quoted_or_null(&mut out, &self.platform_name);
        out.append(",\"type\":");
        push_quoted_or_null(&mut out, &self.class);
        out.append(",\"tags\":");
        push_array::<TagEnvelope>(&mut out, &self.tags);
        out.append(",\"fields\":");
        match &self.fields {
            Some(fields) => push_array::<Field>(&mut out, fields),
            None => out.append("null"),
        }
        out.append("}");
        out
    }

    /// The dataset that an upstream dataset is reduced to.
    pub fn from_dataset(e: &datahub::Dataset) -> (r: Dataset)
        ensures
            r@ == normalized_dataset(e@),
    {
        let (name, origin) = match &e.properties {
            Some(p) => (Some(p.name.to_owned()), Some(p.origin.to_owned())),
            None => (None, None),
        };
        let (platform, platform_name, platform_type) = match &e.platform {
            Some(p) => (
                Some(p.name.to_owned()),
                Some(p.properties.name.to_owned()),
                Some(p.properties.class.to_owned()),
            ),
            None => (None, None, None),
        };
        let tags = match &e.tags {
            Some(tags) => TagEnvelope::from_tags(&tags.tags),
            None => Vec::new(),
        };
        let fields = match &e.schema {
            Some(schema) => Some(Field::from_fields(&schema.fields)),
            None => None,
        };
        let class = label_of(&e.sub_types);
        proof {
            if e.tags is None {
                assert(models_of(tags@) =~= Seq::<TagEnvelopeModel>::empty());
            }
        }
        Dataset {
            id: e.urn.to_owned(),
            path: e.name.to_owned(),
            name,
            origin,
            platform,
            platform_type,
            platform_name,
            class,
            tags,
            fields,
        }
    }
}

impl ToJson for DatasetEnvelope {
    open spec fn json_of(v: DatasetEnvelopeModel) -> Seq<char> {
        v.json()
    }

    fn to_json(&self) -> (r: String) {
        let mut out = "{\"dataset\":".to_owned();
        match &self.dataset {
            Some(d) => {
                let text = d.to_json();
                out.append(text.as_str());
            },
            None => out.append("null"),
        }
        out.append("}");
        out
    }
}

impl Datasets {
    /// The list that an answer to a list request is reduced to. An entity
    /// that is no dataset is a failure.
    pub fn from_response(resp: &datahub::QueryResponse) -> (r: Result<Datasets, DecodeError>)
        ensures
            agrees(r, datasets_of(resp@)),
    {
        match resp.process::<DatasetEnvelope>() {
            Ok((data, paging)) => Ok(Datasets { data, paging }),
            Err(e) => Err(e),
        }
    }

    /// How many datasets the list holds.
    pub fn len(&self) -> (r: usize)
        ensures
            r == self@.data.len(),
    {
        self.data.len()
    }

    /// The page, where the list comes from a counted search.
    pub fn paging(&self) -> (r: Option<Paging>)
        ensures
            model_of(r) == self@.paging,
    {
        self.paging
    }

    /// The value as JSON.
    pub fn to_json(&self) -> (r: String)
        ensures
            r@ == self@.json(),
    {
        let mut out = "{\"data\":".to_owned();
        push_array::<DatasetEnvelope>(&mut out, &self.data);
        out.append(",\"paging\":");
        push_paging_or_null(&mut out, &self.paging);
        out.append("}");
        out
    }
}

impl DatasetEnvelope {
    /// Whether the envelope holds no dataset.
    pub fn is_empty(&self) -> (r: bool)
        ensures
            r == (self@.dataset is None),
    {
        self.dataset.is_none()
    }


    /// The envelope of a dataset.
    pub fn from_dataset(ds: &datahub::Dataset) -> (r: DatasetEnvelope)
        ensures
            r@ == dataset_envelope(Some(ds@)),
    {
        DatasetEnvelope { dataset: Some(Dataset::from_dataset(ds)) }
    }

    /// The envelope of the answer to a lookup among the datasets.
    pub fn from_dataset_entity(e: &datahub::DatasetEntity) -> (r: DatasetEnvelope)
        ensures
            r@ == dataset_envelope(e@.entity),
    {
        match &e.entity {
            Some(ds) => DatasetEnvelope { dataset: Some(Dataset::from_dataset(ds)) },
            None => DatasetEnvelope { dataset: None },
        }
    }
}





impl FromEntity for DatasetEnvelope {
    open spec fn of_entity(e: EntityModel) -> Option<DatasetEnvelopeModel> {
        match e {
            EntityModel::Dataset(d) => Some(dataset_envelope(Some(d))),
            _ => None,
        }
    }

    open spec fn absent() -> DatasetEnvelopeModel {
        DatasetEnvelopeModel { dataset: None }
    }

    fn from_entity(e: &datahub::Entity) -> (r: Option<DatasetEnvelope>) {
        match e {
            datahub::Entity::Dataset(d) => Some(DatasetEnvelope::from_dataset(d)),
            _ => None,
        }
    }

    fn empty() -> (r: DatasetEnvelope) {
        DatasetEnvelope { dataset: None }
    }
}

/// A list of datasets has a page exactly where the answer is that of a
/// search, and as many datasets as the answer has entities.
pub proof fn lemma_datasets_page_iff_search(resp: datahub::QueryResponseModel)
    requires
        datasets_of(resp) is Ok,
    ensures
        datasets_of(resp)->Ok_0.paging is Some <==> resp.data.results is SearchResults,
        datasets_of(resp)->Ok_0.data.len() == resp.data.results.entities().len(),
{
    datahub::lemma_page_iff_search::<DatasetEnvelope>(resp);
}

} // verus!
