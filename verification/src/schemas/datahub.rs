//! What upstream answers: the shapes of its documents, and how each is read
//! from JSON. An entity says of which kind it is in its member `__typename`;
//! a member that a shape marks optional may be absent or null.

use vstd::prelude::*;
use crate::decode::{
    decode_list, decode_optional, decode_optional_list, decode_required, decoded_list,
    decoded_optional, decoded_optional_list, decoded_required, model_of, models_of, Decode,
};
use crate::schemas::paging::{Paging, PagingModel};
use crate::schemas::platforms::{platform_envelopes, PlatformEnvelope, PlatformEnvelopeModel};
use vstd::string::StringExecFns;
use crate::json::{push_quoted, quoted, DecodeError, Json, JsonModel};
use crate::text::same_text;

verus! {

/// `TagProperties` as a mathematical value.
pub struct TagPropertiesModel {
    pub name: Seq<char>,
    pub description: Seq<char>,
}

/// `Tag` as a mathematical value.
pub struct TagModel {
    pub urn: Seq<char>,
    pub properties: Option<TagPropertiesModel>,
}

/// `TagEntity` as a mathematical value.
pub struct TagEntityModel {
    pub tag: Option<TagModel>,
}

/// `Tags` as a mathematical value.
pub struct TagsModel {
    pub tags: Seq<TagEntityModel>,
}

/// `DatasetField` as a mathematical value.
pub struct DatasetFieldModel {
    pub path: Seq<char>,
    pub class: Seq<char>,
    pub native: Seq<char>,
}

/// `DatasetSchema` as a mathematical value.
pub struct DatasetSchemaModel {
    pub fields: Seq<DatasetFieldModel>,
}

/// `DatasetPlatformProperties` as a mathematical value.
pub struct DatasetPlatformPropertiesModel {
    pub name: Seq<char>,
    pub class: Seq<char>,
}

/// `DatasetPlatform` as a mathematical value.
pub struct DatasetPlatformModel {
    pub name: Seq<char>,
    pub properties: DatasetPlatformPropertiesModel,
}

/// `DatasetSubType` as a mathematical value.
pub struct DatasetSubTypeModel {
    pub names: Seq<Seq<char>>,
}

/// `DatasetProperties` as a mathematical value.
pub struct DatasetPropertiesModel {
    pub name: Seq<char>,
    pub origin: Seq<char>,
}

/// `Dataset` as a mathematical value.
pub struct DatasetModel {
    pub urn: Seq<char>,
    pub name: Seq<char>,
    pub tags: Option<TagsModel>,
    pub schema: Option<DatasetSchemaModel>,
    pub platform: Option<DatasetPlatformModel>,
    pub sub_types: Option<DatasetSubTypeModel>,
    pub properties: Option<DatasetPropertiesModel>,
}

/// `PlatformProperties` as a mathematical value.
pub struct PlatformPropertiesModel {
    pub name: Seq<char>,
    pub class: Seq<char>,
}

/// `DataPlatform` as a mathematical value.
pub struct DataPlatformModel {
    pub urn: Seq<char>,
    pub name: Seq<char>,
    pub properties: PlatformPropertiesModel,
}

/// `PlatformEntity` as a mathematical value.
pub struct PlatformEntityModel {
    pub entity: DataPlatformModel,
}

/// `Entity` as a mathematical value.
pub enum EntityModel {
    Tag(TagModel),
    Dataset(DatasetModel),
    Platform(DataPlatformModel),
}

/// The name and the description of a tag.
#[derive(Debug, PartialEq, Eq)]
pub struct TagProperties<'a> {
    pub name: &'a str,
    pub description: &'a str,
}

#[derive(Debug, PartialEq, Eq)]
pub struct Tag<'a> {
    pub urn: &'a str,
    pub properties: Option<TagProperties<'a>>,
}

/// One tag among those that a dataset carries.
#[derive(Debug, PartialEq, Eq)]
pub struct TagEntity<'a> {
    pub tag: Option<Tag<'a>>,
}

/// The tags that a dataset carries.
#[derive(Debug, PartialEq, Eq)]
pub struct Tags<'a> {
    pub tags: Vec<TagEntity<'a>>,
}

/// One column of a dataset.
#[derive(Debug, PartialEq, Eq)]
pub struct DatasetField<'a> {
    pub path: &'a str,
    pub class: &'a str,
    pub native: &'a str,
}

#[derive(Debug, PartialEq, Eq)]
pub struct DatasetSchema<'a> {
    pub fields: Vec<DatasetField<'a>>,
}

#[derive(Debug, PartialEq, Eq)]
pub struct DatasetPlatformProperties<'a> {
    pub name: &'a str,
    pub class: &'a str,
}

/// The platform that a dataset lives on.
#[derive(Debug, PartialEq, Eq)]
pub struct DatasetPlatform<'a> {
    pub name: &'a str,
    pub properties: DatasetPlatformProperties<'a>,
}

#[derive(Debug, PartialEq, Eq)]
pub struct DatasetSubType<'a> {
    pub names: Vec<&'a str>,
}

#[derive(Debug, PartialEq, Eq)]
pub struct DatasetProperties<'a> {
    pub name: &'a str,
    pub origin: &'a str,
}

#[derive(Debug, PartialEq, Eq)]
pub struct Dataset<'a> {
    pub urn: &'a str,
    pub name: &'a str,
    pub tags: Option<Tags<'a>>,
    pub schema: Option<DatasetSchema<'a>>,
    pub platform: Option<DatasetPlatform<'a>>,
    pub sub_types: Option<DatasetSubType<'a>>,
    pub properties: Option<DatasetProperties<'a>>,
}

#[derive(Debug, PartialEq, Eq)]
pub struct PlatformProperties<'a> {
    pub name: &'a str,
    pub class: &'a str,
}

#[derive(Debug, PartialEq, Eq)]
pub struct DataPlatform<'a> {
    pub urn: &'a str,
    pub name: &'a str,
    pub properties: PlatformProperties<'a>,
}

/// One platform among those that a recommendation module lists.
#[derive(Debug, PartialEq, Eq)]
pub struct PlatformEntity<'a> {
    pub entity: DataPlatform<'a>,
}

/// An entity of one of the kinds that upstream knows.
#[derive(Debug, PartialEq, Eq)]
pub enum Entity<'a> {
    Tag(Tag<'a>),
    Dataset(Dataset<'a>),
    Platform(DataPlatform<'a>),
}

impl<'a> View for TagProperties<'a> {
    type V = TagPropertiesModel;

    open spec fn view(&self) -> TagPropertiesModel {
        TagPropertiesModel { name: self.name@, description: self.description@ }
    }
}

impl<'a> View for Tag<'a> {
    type V = TagModel;

    open spec fn view(&self) -> TagModel {
        TagModel { urn: self.urn@, properties: model_of(self.properties) }
    }
}

impl<'a> View for TagEntity<'a> {
    type V = TagEntityModel;

    open spec fn view(&self) -> TagEntityModel {
        TagEntityModel { tag: model_of(self.tag) }
    }
}

impl<'a> View for Tags<'a> {
    type V = TagsModel;

    open spec fn view(&self) -> TagsModel {
        TagsModel { tags: models_of(self.tags@) }
    }
}

impl<'a> View for DatasetField<'a> {
    type V = DatasetFieldModel;

    open spec fn view(&self) -> DatasetFieldModel {
        DatasetFieldModel { path: self.path@, class: self.class@, native: self.native@ }
    }
}

impl<'a> View for DatasetSchema<'a> {
    type V = DatasetSchemaModel;

    open spec fn view(&self) -> DatasetSchemaModel {
        DatasetSchemaModel { fields: models_of(self.fields@) }
    }
}

impl<'a> View for DatasetPlatformProperties<'a> {
    type V = DatasetPlatformPropertiesModel;

    open spec fn view(&self) -> DatasetPlatformPropertiesModel {
        DatasetPlatformPropertiesModel { name: self.name@, class: self.class@ }
    }
}

impl<'a> View for DatasetPlatform<'a> {
    type V = DatasetPlatformModel;

    open spec fn view(&self) -> DatasetPlatformModel {
        DatasetPlatformModel { name: self.name@, properties: self.properties@ }
    }
}

impl<'a> View for DatasetSubType<'a> {
    type V = DatasetSubTypeModel;

    open spec fn view(&self) -> DatasetSubTypeModel {
        DatasetSubTypeModel { names: models_of(self.names@) }
    }
}

impl<'a> View for DatasetProperties<'a> {
    type V = DatasetPropertiesModel;

    open spec fn view(&self) -> DatasetPropertiesModel {
        DatasetPropertiesModel { name: self.name@, origin: self.origin@ }
    }
}

impl<'a> View for Dataset<'a> {
    type V = DatasetModel;

    open spec fn view(&self) -> DatasetModel {
        DatasetModel {
            urn: self.urn@,
            name: self.name@,
            tags: model_of(self.tags),
            schema: model_of(self.schema),
            platform: model_of(self.platform),
            sub_types: model_of(self.sub_types),
            properties: model_of(self.properties),
        }
    }
}

impl<'a> View for PlatformProperties<'a> {
    type V = PlatformPropertiesModel;

    open spec fn view(&self) -> PlatformPropertiesModel {
        PlatformPropertiesModel { name: self.name@, class: self.class@ }
    }
}

impl<'a> View for DataPlatform<'a> {
    type V = DataPlatformModel;

    open spec fn view(&self) -> DataPlatformModel {
        DataPlatformModel { urn: self.urn@, name: self.name@, properties: self.properties@ }
    }
}

impl<'a> View for PlatformEntity<'a> {
    type V = PlatformEntityModel;

    open spec fn view(&self) -> PlatformEntityModel {
        PlatformEntityModel { entity: self.entity@ }
    }
}

impl<'a> View for Entity<'a> {
    type V = EntityModel;

    open spec fn view(&self) -> EntityModel {
        match self {
            Entity::Tag(t) => EntityModel::Tag(t@),
            Entity::Dataset(d) => EntityModel::Dataset(d@),
            Entity::Platform(p) => EntityModel::Platform(p@),
        }
    }
}

impl<'a> Decode<'a> for TagProperties<'a> {
    open spec fn decoded(j: JsonModel) -> Result<TagPropertiesModel, DecodeError> {
        let name = j.text("name"@);
        let description = j.text("description"@);
        if name is Err {
            Err(name->Err_0)
        } else if description is Err {
            Err(description->Err_0)
        } else {
            Ok(TagPropertiesModel { name: name->Ok_0, description: description->Ok_0 })
        }
    }

    fn decode(j: &'a Json) -> (r: Result<TagProperties<'a>, DecodeError>) {
        let name = j.text("name")?;
        let description = j.text("description")?;
        Ok(TagProperties { name, description })
    }
}

impl<'a> Decode<'a> for Tag<'a> {
    open spec fn decoded(j: JsonModel) -> Result<TagModel, DecodeError> {
        let urn = j.text("urn"@);
        let properties = decoded_optional::<TagProperties>(j, "properties"@);
        if urn is Err {
            Err(urn->Err_0)
        } else if properties is Err {
            Err(properties->Err_0)
        } else {
            Ok(TagModel { urn: urn->Ok_0, properties: properties->Ok_0 })
        }
    }

    fn decode(j: &'a Json) -> (r: Result<Tag<'a>, DecodeError>) {
        let urn = j.text("urn")?;
        let properties = decode_optional::<TagProperties>(j, "properties")?;
        Ok(Tag { urn, properties })
    }
}

impl<'a> Decode<'a> for TagEntity<'a> {
    open spec fn decoded(j: JsonModel) -> Result<TagEntityModel, DecodeError> {
        match decoded_optional::<Tag>(j, "tag"@) {
            Ok(tag) => Ok(TagEntityModel { tag }),
            Err(e) => Err(e),
        }
    }

    fn decode(j: &'a Json) -> (r: Result<TagEntity<'a>, DecodeError>) {
        match decode_optional::<Tag>(j, "tag") {
            Ok(tag) => Ok(TagEntity { tag }),
            Err(e) => Err(e),
        }
    }
}

impl<'a> Decode<'a> for Tags<'a> {
    open spec fn decoded(j: JsonModel) -> Result<TagsModel, DecodeError> {
        match decoded_list::<TagEntity>(j, "tags"@) {
            Ok(tags) => Ok(TagsModel { tags }),
            Err(e) => Err(e),
        }
    }

    fn decode(j: &'a Json) -> (r: Result<Tags<'a>, DecodeError>) {
        match decode_list::<TagEntity>(j, "tags") {
            Ok(tags) => Ok(Tags { tags }),
            Err(e) => Err(e),
        }
    }
}

impl<'a> Decode<'a> for DatasetField<'a> {
    open spec fn decoded(j: JsonModel) -> Result<DatasetFieldModel, DecodeError> {
        let path = j.text("path"@);
        let class = j.text("class"@);
        let native = j.text("native"@);
        if path is Err {
            Err(path->Err_0)
        } else if class is Err {
            Err(class->Err_0)
        } else if native is Err {
            Err(native->Err_0)
        } else {
            Ok(DatasetFieldModel { path: path->Ok_0, class: class->Ok_0, native: native->Ok_0 })
        }
    }

    fn decode(j: &'a Json) -> (r: Result<DatasetField<'a>, DecodeError>) {
        let path = j.text("path")?;
        let class = j.text("class")?;
        let native = j.text("native")?;
        Ok(DatasetField { path, class, native })
    }
}

impl<'a> Decode<'a> for DatasetSchema<'a> {
    open spec fn decoded(j: JsonModel) -> Result<DatasetSchemaModel, DecodeError> {
        let fields = decoded_list::<DatasetField>(j, "fields"@);
        if fields is Err {
            Err(fields->Err_0)
        } else {
            Ok(DatasetSchemaModel { fields: fields->Ok_0 })
        }
    }

    fn decode(j: &'a Json) -> (r: Result<DatasetSchema<'a>, DecodeError>) {
        let fields = decode_list::<DatasetField>(j, "fields")?;
        Ok(DatasetSchema { fields })
    }
}

impl<'a> Decode<'a> for DatasetPlatformProperties<'a> {
    open spec fn decoded(j: JsonModel) -> Result<DatasetPlatformPropertiesModel, DecodeError> {
        let name = j.text("name"@);
        let class = j.text("class"@);
        if name is Err {
            Err(name->Err_0)
        } else if class is Err {
            Err(class->Err_0)
        } else {
            Ok(DatasetPlatformPropertiesModel { name: name->Ok_0, class: class->Ok_0 })
        }
    }

    fn decode(j: &'a Json) -> (r: Result<DatasetPlatformProperties<'a>, DecodeError>) {
        let name = j.text("name")?;
        let class = j.text("class")?;
        Ok(DatasetPlatformProperties { name, class })
    }
}

impl<'a> Decode<'a> for DatasetPlatform<'a> {
    open spec fn decoded(j: JsonModel) -> Result<DatasetPlatformModel, DecodeError> {
        let name = j.text("name"@);
        let properties = decoded_required::<DatasetPlatformProperties>(j, "properties"@);
        if name is Err {
            Err(name->Err_0)
        } else if properties is Err {
            Err(properties->Err_0)
        } else {
            Ok(DatasetPlatformModel { name: name->Ok_0, properties: properties->Ok_0 })
        }
    }

    fn decode(j: &'a Json) -> (r: Result<DatasetPlatform<'a>, DecodeError>) {
        let name = j.text("name")?;
        let properties = decode_required::<DatasetPlatformProperties>(j, "properties")?;
        Ok(DatasetPlatform { name, properties })
    }
}

impl<'a> Decode<'a> for DatasetSubType<'a> {
    open spec fn decoded(j: JsonModel) -> Result<DatasetSubTypeModel, DecodeError> {
        let names = decoded_list::<&'a str>(j, "names"@);
        if names is Err {
            Err(names->Err_0)
        } else {
            Ok(DatasetSubTypeModel { names: names->Ok_0 })
        }
    }

    fn decode(j: &'a Json) -> (r: Result<DatasetSubType<'a>, DecodeError>) {
        let names = decode_list::<&'a str>(j, "names")?;
        Ok(DatasetSubType { names })
    }
}

impl<'a> Decode<'a> for DatasetProperties<'a> {
    open spec fn decoded(j: JsonModel) -> Result<DatasetPropertiesModel, DecodeError> {
        let name = j.text("name"@);
        let origin = j.text("origin"@);
        if name is Err {
            Err(name->Err_0)
        } else if origin is Err {
            Err(origin->Err_0)
        } else {
            Ok(DatasetPropertiesModel { name: name->Ok_0, origin: origin->Ok_0 })
        }
    }

    fn decode(j: &'a Json) -> (r: Result<DatasetProperties<'a>, DecodeError>) {
        let name = j.text("name")?;
        let origin = j.text("origin")?;
        Ok(DatasetProperties { name, origin })
    }
}

impl<'a> Decode<'a> for Dataset<'a> {
    open spec fn decoded(j: JsonModel) -> Result<DatasetModel, DecodeError> {
        let urn = j.text("urn"@);
        let name = j.text("name"@);
        let tags = decoded_optional::<Tags>(j, "tags"@);
        let schema = decoded_optional::<DatasetSchema>(j, "schema"@);
        let platform = decoded_optional::<DatasetPlatform>(j, "platform"@);
        let sub_types = decoded_optional::<DatasetSubType>(j, "sub_types"@);
        let properties = decoded_optional::<DatasetProperties>(j, "properties"@);
        if urn is Err {
            Err(urn->Err_0)
        } else if name is Err {
            Err(name->Err_0)
        } else if tags is Err {
            Err(tags->Err_0)
        } else if schema is Err {
            Err(schema->Err_0)
        } else if platform is Err {
            Err(platform->Err_0)
        } else if sub_types is Err {
            Err(sub_types->Err_0)
        } else if properties is Err {
            Err(properties->Err_0)
        } else {
            Ok(
                DatasetModel {
                    urn: urn->Ok_0,
                    name: name->Ok_0,
                    tags: tags->Ok_0,
                    schema: schema->Ok_0,
                    platform: platform->Ok_0,
                    sub_types: sub_types->Ok_0,
                    properties: properties->Ok_0,
                },
            )
        }
    }

    fn decode(j: &'a Json) -> (r: Result<Dataset<'a>, DecodeError>) {
        let urn = j.text("urn")?;
        let name = j.text("name")?;
        let tags = decode_optional::<Tags>(j, "tags")?;
        let schema = decode_optional::<DatasetSchema>(j, "schema")?;
        let platform = decode_optional::<DatasetPlatform>(j, "platform")?;
        let sub_types = decode_optional::<DatasetSubType>(j, "sub_types")?;
        let properties = decode_optional::<DatasetProperties>(j, "properties")?;
        Ok(Dataset { urn, name, tags, schema, platform, sub_types, properties })
    }
}

impl<'a> Decode<'a> for PlatformProperties<'a> {
    open spec fn decoded(j: JsonModel) -> Result<PlatformPropertiesModel, DecodeError> {
        let name = j.text("name"@);
        let class = j.text("class"@);
        if name is Err {
            Err(name->Err_0)
        } else if class is Err {
            Err(class->Err_0)
        } else {
            Ok(PlatformPropertiesModel { name: name->Ok_0, class: class->Ok_0 })
        }
    }

    fn decode(j: &'a Json) -> (r: Result<PlatformProperties<'a>, DecodeError>) {
        let name = j.text("name")?;
        let class = j.text("class")?;
        Ok(PlatformProperties { name, class })
    }
}

impl<'a> Decode<'a> for DataPlatform<'a> {
    open spec fn decoded(j: JsonModel) -> Result<DataPlatformModel, DecodeError> {
        let urn = j.text("urn"@);
        let name = j.text("name"@);
        let properties = decoded_required::<PlatformProperties>(j, "properties"@);
        if urn is Err {
            Err(urn->Err_0)
        } else if name is Err {
            Err(name->Err_0)
        } else if properties is Err {
            Err(properties->Err_0)
        } else {
            Ok(
                DataPlatformModel {
                    urn: urn->Ok_0,
                    name: name->Ok_0,
                    properties: properties->Ok_0,
                },
            )
        }
    }

    fn decode(j: &'a Json) -> (r: Result<DataPlatform<'a>, DecodeError>) {
        let urn = j.text("urn")?;
        let name = j.text("name")?;
        let properties = decode_required::<PlatformProperties>(j, "properties")?;
        Ok(DataPlatform { urn, name, properties })
    }
}

impl<'a> Decode<'a> for PlatformEntity<'a> {
    open spec fn decoded(j: JsonModel) -> Result<PlatformEntityModel, DecodeError> {
        let entity = decoded_required::<DataPlatform>(j, "entity"@);
        if entity is Err {
            Err(entity->Err_0)
        } else {
            Ok(PlatformEntityModel { entity: entity->Ok_0 })
        }
    }

    fn decode(j: &'a Json) -> (r: Result<PlatformEntity<'a>, DecodeError>) {
        let entity = decode_required::<DataPlatform>(j, "entity")?;
        Ok(PlatformEntity { entity })
    }
}

impl<'a> Decode<'a> for Entity<'a> {
    /// The member `__typename` says which kind of entity the document holds:
    /// it must be there, be a text, and name one of the kinds known.
    open spec fn decoded(j: JsonModel) -> Result<EntityModel, DecodeError> {
        match j.text("__typename"@) {
            Err(e) => Err(e),
            Ok(kind) => if kind == "Tag"@ {
                match Tag::decoded(j) {
                    Ok(t) => Ok(EntityModel::Tag(t)),
                    Err(e) => Err(e),
                }
            } else if kind == "Dataset"@ {
                match Dataset::decoded(j) {
                    Ok(d) => Ok(EntityModel::Dataset(d)),
                    Err(e) => Err(e),
                }
            } else if kind == "DataPlatform"@ {
                match DataPlatform::decoded(j) {
                    Ok(p) => Ok(EntityModel::Platform(p)),
                    Err(e) => Err(e),
                }
            } else {
                Err(DecodeError::UnknownType)
            },
        }
    }

    fn decode(j: &'a Json) -> (r: Result<Entity<'a>, DecodeError>) {
        let kind = j.text("__typename")?;
        if same_text(kind, "Tag") {
            match Tag::decode(j) {
                Ok(t) => Ok(Entity::Tag(t)),
                Err(e) => Err(e),
            }
        } else if same_text(kind, "Dataset") {
            match Dataset::decode(j) {
                Ok(d) => Ok(Entity::Dataset(d)),
                Err(e) => Err(e),
            }
        } else if same_text(kind, "DataPlatform") {
            match DataPlatform::decode(j) {
                Ok(p) => Ok(Entity::Platform(p)),
                Err(e) => Err(e),
            }
        } else {
            Err(DecodeError::UnknownType)
        }
    }
}

/// A shape of the REST surface that is made from an upstream entity of one kind.
pub trait FromEntity: Sized + View {
    /// What the entity is reduced to; nothing where it is of another kind.
    spec fn of_entity(e: EntityModel) -> Option<Self::V>;

    /// What stands for an entity that is not there.
    spec fn absent() -> Self::V;

    fn from_entity(e: &Entity) -> (r: Option<Self>)
        ensures
            model_of(r) == Self::of_entity(e@),
    ;

    fn empty() -> (r: Self)
        ensures
            r@ == Self::absent(),
    ;
}

/// `EntityEnvelope` as a mathematical value.
pub struct EntityEnvelopeModel {
    pub entity: EntityModel,
}

/// The two shapes of a list of results. Only a search counts its results.
#[allow(inconsistent_fields)]
pub enum QueryResultsModel {
    AutoCompleteResults { entities: Seq<EntityModel> },
    SearchResults { start: int, count: int, total: int, entities: Seq<EntityEnvelopeModel> },
}

/// `QueryResponseData` as a mathematical value.
pub struct QueryResponseDataModel {
    pub results: QueryResultsModel,
}

/// `QueryResponse` as a mathematical value.
pub struct QueryResponseModel {
    pub data: QueryResponseDataModel,
}

/// `SingleEntity` as a mathematical value.
pub struct SingleEntityModel {
    pub entity: Option<EntityModel>,
}

/// `DatasetEntity` as a mathematical value.
pub struct DatasetEntityModel {
    pub entity: Option<DatasetModel>,
}

/// `ErrorMessage` as a mathematical value.
pub struct ErrorMessageModel {
    pub message: Seq<char>,
}

/// `DatasetAddTagResult` as a mathematical value.
pub struct DatasetAddTagResultModel {
    pub success: bool,
}

/// `DatasetAddTagResponse` as a mathematical value.
pub struct DatasetAddTagResponseModel {
    pub data: Option<DatasetAddTagResultModel>,
    pub errors: Option<Seq<ErrorMessageModel>>,
}

/// A recommendation module: the one that lists the platforms, or another.
pub enum RecommendationsModuleModel {
    Platforms { content: Seq<PlatformEntityModel> },
    Other,
}

/// `RecommendationsModules` as a mathematical value.
pub struct RecommendationsModulesModel {
    pub modules: Seq<RecommendationsModuleModel>,
}

/// `RecommendationsResponseData` as a mathematical value.
pub struct RecommendationsResponseDataModel {
    pub results: RecommendationsModulesModel,
}

/// `ListRecommendationsResponse` as a mathematical value.
pub struct ListRecommendationsResponseModel {
    pub data: RecommendationsResponseDataModel,
}

/// One result of a search.
#[derive(Debug, PartialEq, Eq)]
pub struct EntityEnvelope<'a> {
    pub entity: Entity<'a>,
}

/// A list of results: completions of a name, or one page of a search.
#[derive(Debug, PartialEq, Eq)]
#[allow(inconsistent_fields)]
pub enum QueryResults<'a> {
    AutoCompleteResults { entities: Vec<Entity<'a>> },
    SearchResults { start: i32, count: i32, total: i32, entities: Vec<EntityEnvelope<'a>> },
}

#[derive(Debug, PartialEq, Eq)]
pub struct QueryResponseData<'a> {
    pub results: QueryResults<'a>,
}

/// The answer to a list request.
#[derive(Debug, PartialEq, Eq)]
pub struct QueryResponse<'a> {
    data: QueryResponseData<'a>,
}

/// The answer to a lookup: the entity, or nothing where there is none of the
/// URN asked for.
#[derive(Debug, PartialEq, Eq)]
pub struct SingleEntity<'a> {
    pub entity: Option<Entity<'a>>,
}

/// The answer to a lookup among the datasets.
#[derive(Debug, PartialEq, Eq)]
pub struct DatasetEntity<'a> {
    pub entity: Option<Dataset<'a>>,
}

/// One of the errors that upstream reports beside its answer.
#[derive(Debug, PartialEq, Eq)]
pub struct ErrorMessage<'a> {
    pub message: &'a str,
}

#[derive(Debug, PartialEq, Eq)]
pub struct DatasetAddTagResult {
    pub success: bool,
}

/// The answer to a mutation that ties a tag to a resource or unties it.
#[derive(Debug, PartialEq, Eq)]
pub struct DatasetAddTagResponse<'a> {
    pub data: Option<DatasetAddTagResult>,
    pub errors: Option<Vec<ErrorMessage<'a>>>,
}

#[derive(Debug, PartialEq, Eq)]
pub enum RecommendationsModule<'a> {
    Platforms { content: Vec<PlatformEntity<'a>> },
    Other,
}

#[derive(Debug, PartialEq, Eq)]
pub struct RecommendationsModules<'a> {
    pub modules: Vec<RecommendationsModule<'a>>,
}

#[derive(Debug, PartialEq, Eq)]
pub struct RecommendationsResponseData<'a> {
    pub results: RecommendationsModules<'a>,
}

/// The answer to a request for the recommendation modules.
#[derive(Debug, PartialEq, Eq)]
pub struct ListRecommendationsResponse<'a> {
    data: RecommendationsResponseData<'a>,
}

impl<'a> View for EntityEnvelope<'a> {
    type V = EntityEnvelopeModel;

    open spec fn view(&self) -> EntityEnvelopeModel {
        EntityEnvelopeModel { entity: self.entity@ }
    }
}

impl<'a> View for QueryResults<'a> {
    type V = QueryResultsModel;

    open spec fn view(&self) -> QueryResultsModel {
        match self {
            QueryResults::AutoCompleteResults { entities } => QueryResultsModel::AutoCompleteResults {
                entities: models_of(entities@),
            },
            QueryResults::SearchResults { start, count, total, entities } => QueryResultsModel::SearchResults {
                start: *start as int,
                count: *count as int,
                total: *total as int,
                entities: models_of(entities@),
            },
        }
    }
}

impl<'a> View for QueryResponseData<'a> {
    type V = QueryResponseDataModel;

    open spec fn view(&self) -> QueryResponseDataModel {
        QueryResponseDataModel { results: self.results@ }
    }
}

impl<'a> View for QueryResponse<'a> {
    type V = QueryResponseModel;

    closed spec fn view(&self) -> QueryResponseModel {
        QueryResponseModel { data: self.data@ }
    }
}

impl<'a> View for SingleEntity<'a> {
    type V = SingleEntityModel;

    open spec fn view(&self) -> SingleEntityModel {
        SingleEntityModel { entity: model_of(self.entity) }
    }
}

impl<'a> View for DatasetEntity<'a> {
    type V = DatasetEntityModel;

    open spec fn view(&self) -> DatasetEntityModel {
        DatasetEntityModel { entity: model_of(self.entity) }
    }
}

impl<'a> View for ErrorMessage<'a> {
    type V = ErrorMessageModel;

    open spec fn view(&self) -> ErrorMessageModel {
        ErrorMessageModel { message: self.message@ }
    }
}

impl View for DatasetAddTagResult {
    type V = DatasetAddTagResultModel;

    open spec fn view(&self) -> DatasetAddTagResultModel {
        DatasetAddTagResultModel { success: self.success }
    }
}

impl<'a> View for DatasetAddTagResponse<'a> {
    type V = DatasetAddTagResponseModel;

    open spec fn view(&self) -> DatasetAddTagResponseModel {
        DatasetAddTagResponseModel {
            data: model_of(self.data),
            errors: match self.errors {
                Some(errors) => Some(models_of(errors@)),
                None => None,
            },
        }
    }
}

impl<'a> View for RecommendationsModule<'a> {
    type V = RecommendationsModuleModel;

    open spec fn view(&self) -> RecommendationsModuleModel {
        match self {
            RecommendationsModule::Platforms { content } => RecommendationsModuleModel::Platforms {
                content: models_of(content@),
            },
            RecommendationsModule::Other => RecommendationsModuleModel::Other,
        }
    }
}

impl<'a> View for RecommendationsModules<'a> {
    type V = RecommendationsModulesModel;

    open spec fn view(&self) -> RecommendationsModulesModel {
        RecommendationsModulesModel { modules: models_of(self.modules@) }
    }
}

impl<'a> View for RecommendationsResponseData<'a> {
    type V = RecommendationsResponseDataModel;

    open spec fn view(&self) -> RecommendationsResponseDataModel {
        RecommendationsResponseDataModel { results: self.results@ }
    }
}

impl<'a> View for ListRecommendationsResponse<'a> {
    type V = ListRecommendationsResponseModel;

    closed spec fn view(&self) -> ListRecommendationsResponseModel {
        ListRecommendationsResponseModel { data: self.data@ }
    }
}

impl<'a> Decode<'a> for EntityEnvelope<'a> {
    open spec fn decoded(j: JsonModel) -> Result<EntityEnvelopeModel, DecodeError> {
        match decoded_required::<Entity>(j, "entity"@) {
            Ok(entity) => Ok(EntityEnvelopeModel { entity }),
            Err(e) => Err(e),
        }
    }

    fn decode(j: &'a Json) -> (r: Result<EntityEnvelope<'a>, DecodeError>) {
        match decode_required::<Entity>(j, "entity") {
            Ok(entity) => Ok(EntityEnvelope { entity }),
            Err(e) => Err(e),
        }
    }
}

impl<'a> Decode<'a> for QueryResults<'a> {
    /// The member `__typename` says which of the two shapes the list has.
    open spec fn decoded(j: JsonModel) -> Result<QueryResultsModel, DecodeError> {
        match j.text("__typename"@) {
            Err(e) => Err(e),
            Ok(kind) => if kind == "AutoCompleteResults"@ {
                match decoded_list::<Entity>(j, "entities"@) {
                    Ok(entities) => Ok(QueryResultsModel::AutoCompleteResults { entities }),
                    Err(e) => Err(e),
                }
            } else if kind == "SearchResults"@ {
                let start = j.int32("start"@);
                let count = j.int32("count"@);
                let total = j.int32("total"@);
                let entities = decoded_list::<EntityEnvelope>(j, "entities"@);
                if start is Err {
                    Err(start->Err_0)
                } else if count is Err {
                    Err(count->Err_0)
                } else if total is Err {
                    Err(total->Err_0)
                } else if entities is Err {
                    Err(entities->Err_0)
                } else {
                    Ok(
                        QueryResultsModel::SearchResults {
                            start: start->Ok_0 as int,
                            count: count->Ok_0 as int,
                            total: total->Ok_0 as int,
                            entities: entities->Ok_0,
                        },
                    )
                }
            } else {
                Err(DecodeError::UnknownType)
            },
        }
    }

    fn decode(j: &'a Json) -> (r: Result<QueryResults<'a>, DecodeError>) {
        let kind = j.text("__typename")?;
        if same_text(kind, "AutoCompleteResults") {
            match decode_list::<Entity>(j, "entities") {
                Ok(entities) => Ok(QueryResults::AutoCompleteResults { entities }),
                Err(e) => Err(e),
            }
        } else if same_text(kind, "SearchResults") {
            let start = j.int32("start")?;
            let count = j.int32("count")?;
            let total = j.int32("total")?;
            let entities = decode_list::<EntityEnvelope>(j, "entities")?;
            Ok(QueryResults::SearchResults { start, count, total, entities })
        } else {
            Err(DecodeError::UnknownType)
        }
    }
}

impl<'a> Decode<'a> for QueryResponseData<'a> {
    open spec fn decoded(j: JsonModel) -> Result<QueryResponseDataModel, DecodeError> {
        match decoded_required::<QueryResults>(j, "results"@) {
            Ok(results) => Ok(QueryResponseDataModel { results }),
            Err(e) => Err(e),
        }
    }

    fn decode(j: &'a Json) -> (r: Result<QueryResponseData<'a>, DecodeError>) {
        match decode_required::<QueryResults>(j, "results") {
            Ok(results) => Ok(QueryResponseData { results }),
            Err(e) => Err(e),
        }
    }
}

impl<'a> Decode<'a> for QueryResponse<'a> {
    open spec fn decoded(j: JsonModel) -> Result<QueryResponseModel, DecodeError> {
        match decoded_required::<QueryResponseData>(j, "data"@) {
            Ok(data) => Ok(QueryResponseModel { data }),
            Err(e) => Err(e),
        }
    }

    fn decode(j: &'a Json) -> (r: Result<QueryResponse<'a>, DecodeError>) {
        match decode_required::<QueryResponseData>(j, "data") {
            Ok(data) => Ok(QueryResponse { data }),
            Err(e) => Err(e),
        }
    }
}

impl<'a> Decode<'a> for DatasetEntity<'a> {
    open spec fn decoded(j: JsonModel) -> Result<DatasetEntityModel, DecodeError> {
        match decoded_optional::<Dataset>(j, "entity"@) {
            Ok(entity) => Ok(DatasetEntityModel { entity }),
            Err(e) => Err(e),
        }
    }

    fn decode(j: &'a Json) -> (r: Result<DatasetEntity<'a>, DecodeError>) {
        match decode_optional::<Dataset>(j, "entity") {
            Ok(entity) => Ok(DatasetEntity { entity }),
            Err(e) => Err(e),
        }
    }
}

impl<'a> Decode<'a> for SingleEntity<'a> {
    /// The entity is the member `entity` of the member `data`. Where it is
    /// absent or null there is no such entity, and that is no failure.
    open spec fn decoded(j: JsonModel) -> Result<SingleEntityModel, DecodeError> {
        match j.required("data"@) {
            Err(e) => Err(e),
            Ok(data) => match decoded_optional::<Entity>(data, "entity"@) {
                Ok(entity) => Ok(SingleEntityModel { entity }),
                Err(e) => Err(e),
            },
        }
    }

    fn decode(j: &'a Json) -> (r: Result<SingleEntity<'a>, DecodeError>) {
        match j.required("data") {
            Err(e) => Err(e),
            Ok(data) => match decode_optional::<Entity>(data, "entity") {
                Ok(entity) => Ok(SingleEntity { entity }),
                Err(e) => Err(e),
            },
        }
    }
}

impl<'a> Decode<'a> for ErrorMessage<'a> {
    open spec fn decoded(j: JsonModel) -> Result<ErrorMessageModel, DecodeError> {
        match j.text("message"@) {
            Ok(message) => Ok(ErrorMessageModel { message }),
            Err(e) => Err(e),
        }
    }

    fn decode(j: &'a Json) -> (r: Result<ErrorMessage<'a>, DecodeError>) {
        match j.text("message") {
            Ok(message) => Ok(ErrorMessage { message }),
            Err(e) => Err(e),
        }
    }
}

impl<'a> Decode<'a> for DatasetAddTagResult {
    open spec fn decoded(j: JsonModel) -> Result<DatasetAddTagResultModel, DecodeError> {
        match j.flag("success"@) {
            Ok(success) => Ok(DatasetAddTagResultModel { success }),
            Err(e) => Err(e),
        }
    }

    fn decode(j: &'a Json) -> (r: Result<DatasetAddTagResult, DecodeError>) {
        match j.flag("success") {
            Ok(success) => Ok(DatasetAddTagResult { success }),
            Err(e) => Err(e),
        }
    }
}

impl<'a> Decode<'a> for DatasetAddTagResponse<'a> {
    open spec fn decoded(j: JsonModel) -> Result<DatasetAddTagResponseModel, DecodeError> {
        let data = decoded_optional::<DatasetAddTagResult>(j, "data"@);
        let errors = decoded_optional_list::<ErrorMessage>(j, "errors"@);
        if data is Err {
            Err(data->Err_0)
        } else if errors is Err {
            Err(errors->Err_0)
        } else {
            Ok(DatasetAddTagResponseModel { data: data->Ok_0, errors: errors->Ok_0 })
        }
    }

    fn decode(j: &'a Json) -> (r: Result<DatasetAddTagResponse<'a>, DecodeError>) {
        let data = decode_optional::<DatasetAddTagResult>(j, "data")?;
        let errors = decode_optional_list::<ErrorMessage>(j, "errors")?;
        Ok(DatasetAddTagResponse { data, errors })
    }
}

impl<'a> Decode<'a> for RecommendationsModule<'a> {
    /// The member `id` names the module. Only the module `Platforms` is
    /// read; of any other nothing but its name is looked at.
    open spec fn decoded(j: JsonModel) -> Result<RecommendationsModuleModel, DecodeError> {
        match j.text("id"@) {
            Err(e) => Err(e),
            Ok(id) => if id == "Platforms"@ {
                match decoded_list::<PlatformEntity>(j, "content"@) {
                    Ok(content) => Ok(RecommendationsModuleModel::Platforms { content }),
                    Err(e) => Err(e),
                }
            } else {
                Ok(RecommendationsModuleModel::Other)
            },
        }
    }

    fn decode(j: &'a Json) -> (r: Result<RecommendationsModule<'a>, DecodeError>) {
        let id = j.text("id")?;
        if same_text(id, "Platforms") {
            match decode_list::<PlatformEntity>(j, "content") {
                Ok(content) => Ok(RecommendationsModule::Platforms { content }),
                Err(e) => Err(e),
            }
        } else {
            Ok(RecommendationsModule::Other)
        }
    }
}

impl<'a> Decode<'a> for RecommendationsModules<'a> {
    open spec fn decoded(j: JsonModel) -> Result<RecommendationsModulesModel, DecodeError> {
        match decoded_list::<RecommendationsModule>(j, "modules"@) {
            Ok(modules) => Ok(RecommendationsModulesModel { modules }),
            Err(e) => Err(e),
        }
    }

    fn decode(j: &'a Json) -> (r: Result<RecommendationsModules<'a>, DecodeError>) {
        match decode_list::<RecommendationsModule>(j, "modules") {
            Ok(modules) => Ok(RecommendationsModules { modules }),
            Err(e) => Err(e),
        }
    }
}

impl<'a> Decode<'a> for RecommendationsResponseData<'a> {
    open spec fn decoded(j: JsonModel) -> Result<RecommendationsResponseDataModel, DecodeError> {
        match decoded_required::<RecommendationsModules>(j, "results"@) {
            Ok(results) => Ok(RecommendationsResponseDataModel { results }),
            Err(e) => Err(e),
        }
    }

    fn decode(j: &'a Json) -> (r: Result<RecommendationsResponseData<'a>, DecodeError>) {
        match decode_required::<RecommendationsModules>(j, "results") {
            Ok(results) => Ok(RecommendationsResponseData { results }),
            Err(e) => Err(e),
        }
    }
}

impl<'a> Decode<'a> for ListRecommendationsResponse<'a> {
    open spec fn decoded(j: JsonModel) -> Result<ListRecommendationsResponseModel, DecodeError> {
        match decoded_required::<RecommendationsResponseData>(j, "data"@) {
            Ok(data) => Ok(ListRecommendationsResponseModel { data }),
            Err(e) => Err(e),
        }
    }

    fn decode(j: &'a Json) -> (r: Result<ListRecommendationsResponse<'a>, DecodeError>) {
        match decode_required::<RecommendationsResponseData>(j, "data") {
            Ok(data) => Ok(ListRecommendationsResponse { data }),
            Err(e) => Err(e),
        }
    }
}

/// What a run of entities is reduced to: each in turn. An entity of another
/// kind than `T` is made from is a failure.
pub open spec fn reduced<T: FromEntity>(entities: Seq<EntityModel>) -> Result<Seq<T::V>, DecodeError>
    decreases entities.len(),
{
    if entities.len() == 0 {
        Ok(Seq::empty())
    } else {
        match reduced::<T>(entities.drop_last()) {
            Err(e) => Err(e),
            Ok(before) => match T::of_entity(entities.last()) {
                None => Err(DecodeError::UnexpectedKind),
                Some(t) => Ok(before.push(t)),
            },
        }
    }
}

/// Where the first `n` entities of a run cannot be reduced, the run cannot.
pub proof fn lemma_unexpected_kind_stays<T: FromEntity>(entities: Seq<EntityModel>, n: int)
    requires
        0 <= n <= entities.len(),
        reduced::<T>(entities.take(n)) is Err,
    ensures
        reduced::<T>(entities) == reduced::<T>(entities.take(n)),
    decreases entities.len() - n,
{
    if n < entities.len() {
        assert(entities.take(n + 1).drop_last() =~= entities.take(n));
        lemma_unexpected_kind_stays::<T>(entities, n + 1);
    } else {
        assert(entities.take(n) =~= entities);
    }
}

impl QueryResultsModel {
    /// The entities of the list, in order.
    pub open spec fn entities(self) -> Seq<EntityModel> {
        match self {
            QueryResultsModel::AutoCompleteResults { entities } => entities,
            QueryResultsModel::SearchResults { entities, .. } => Seq::new(
                entities.len(),
                |i: int| entities[i].entity,
            ),
        }
    }

    /// The page of the list: a search has one, a completion has none.
    pub open spec fn paging(self) -> Option<PagingModel> {
        match self {
            QueryResultsModel::AutoCompleteResults { .. } => None,
            QueryResultsModel::SearchResults { start, count, total, .. } => Some(
                PagingModel { total, limit: count, offset: start },
            ),
        }
    }

    /// The entities reduced to `T`, and the page.
    pub open spec fn processed<T: FromEntity>(self) -> Result<(Seq<T::V>, Option<PagingModel>), DecodeError> {
        match reduced::<T>(self.entities()) {
            Ok(data) => Ok((data, self.paging())),
            Err(e) => Err(e),
        }
    }
}

impl QueryResponseModel {
    pub open spec fn processed<T: FromEntity>(self) -> Result<(Seq<T::V>, Option<PagingModel>), DecodeError> {
        self.data.results.processed::<T>()
    }
}

impl SingleEntityModel {
    /// The entity reduced to `T`; where there is none, what stands for none.
    pub open spec fn processed<T: FromEntity>(self) -> Result<T::V, DecodeError> {
        match self.entity {
            None => Ok(T::absent()),
            Some(e) => match T::of_entity(e) {
                Some(t) => Ok(t),
                None => Err(DecodeError::UnexpectedKind),
            },
        }
    }
}

impl RecommendationsModuleModel {
    /// What a module gives to the list of platforms: its platforms where it
    /// is the module that lists them, nothing where it is another.
    pub open spec fn platforms(self) -> Seq<PlatformEnvelopeModel> {
        match self {
            RecommendationsModuleModel::Platforms { content } => platform_envelopes(content),
            RecommendationsModuleModel::Other => Seq::empty(),
        }
    }
}

/// What a run of modules gives to the list of platforms, module after module.
pub open spec fn listed(modules: Seq<RecommendationsModuleModel>) -> Seq<PlatformEnvelopeModel>
    decreases modules.len(),
{
    if modules.len() == 0 {
        Seq::empty()
    } else {
        listed(modules.drop_last()) + modules.last().platforms()
    }
}

impl ListRecommendationsResponseModel {
    pub open spec fn processed(self) -> (Seq<PlatformEnvelopeModel>, Option<PagingModel>) {
        (listed(self.data.results.modules), None)
    }
}

fn reduce_entities<T: FromEntity>(entities: &Vec<Entity>) -> (r: Result<Vec<T>, DecodeError>)
    ensures
        match r {
            Ok(v) => reduced::<T>(models_of(entities@)) == Ok::<Seq<T::V>, DecodeError>(models_of(v@)),
            Err(e) => reduced::<T>(models_of(entities@)) == Err::<Seq<T::V>, DecodeError>(e),
        },
{
    let ghost all = models_of(entities@);
    let mut out: Vec<T> = Vec::new();
    let mut i: usize = 0;
    proof {
        assert(all.take(0) =~= Seq::<EntityModel>::empty());
        assert(models_of(out@) =~= Seq::<T::V>::empty());
    }
    while i < entities.len()
        invariant
            i <= entities@.len(),
            all == models_of(entities@),
            reduced::<T>(all.take(i as int)) == Ok::<Seq<T::V>, DecodeError>(models_of(out@)),
        decreases entities@.len() - i,
    {
        let ghost before = models_of(out@);
        proof {
            assert(all.take(i + 1).drop_last() =~= all.take(i as int));
            assert(all.take(i + 1).last() == entities@[i as int]@);
        }
        match T::from_entity(&entities[i]) {
            Some(t) => {
                out.push(t);
                proof {
                    assert(models_of(out@) =~= before.push(t@));
                }
            },
            None => {
                proof {
                    lemma_unexpected_kind_stays::<T>(all, i + 1);
                }
                return Err(DecodeError::UnexpectedKind);
            },
        }
        i = i + 1;
    }
    proof {
        assert(all.take(i as int) =~= all);
    }
    Ok(out)
}

fn reduce_envelopes<T: FromEntity>(envelopes: &Vec<EntityEnvelope>) -> (r: Result<Vec<T>, DecodeError>)
    ensures
        match r {
            Ok(v) => reduced::<T>(
                Seq::new(envelopes@.len(), |i: int| envelopes@[i]@.entity),
            ) == Ok::<Seq<T::V>, DecodeError>(models_of(v@)),
            Err(e) => reduced::<T>(
                Seq::new(envelopes@.len(), |i: int| envelopes@[i]@.entity),
            ) == Err::<Seq<T::V>, DecodeError>(e),
        },
{
    let ghost all = Seq::new(envelopes@.len(), |i: int| envelopes@[i]@.entity);
    let mut out: Vec<T> = Vec::new();
    let mut i: usize = 0;
    proof {
        assert(all.take(0) =~= Seq::<EntityModel>::empty());
        assert(models_of(out@) =~= Seq::<T::V>::empty());
    }
    while i < envelopes.len()
        invariant
            i <= envelopes@.len(),
            all == Seq::new(envelopes@.len(), |i: int| envelopes@[i]@.entity),
            reduced::<T>(all.take(i as int)) == Ok::<Seq<T::V>, DecodeError>(models_of(out@)),
        decreases envelopes@.len() - i,
    {
        let ghost before = models_of(out@);
        proof {
            assert(all.take(i + 1).drop_last() =~= all.take(i as int));
            assert(all.take(i + 1).last() == envelopes@[i as int]@.entity);
        }
        match T::from_entity(&envelopes[i].entity) {
            Some(t) => {
                out.push(t);
                proof {
                    assert(models_of(out@) =~= before.push(t@));
                }
            },
            None => {
                proof {
                    lemma_unexpected_kind_stays::<T>(all, i + 1);
                }
                return Err(DecodeError::UnexpectedKind);
            },
        }
        i = i + 1;
    }
    proof {
        assert(all.take(i as int) =~= all);
    }
    Ok(out)
}

impl<'a> QueryResults<'a> {
    /// The page of the list: a search has one, a completion has none.
    pub fn paging(&self) -> (r: Option<Paging>)
        ensures
            model_of(r) == self@.paging(),
    {
        match self {
            QueryResults::AutoCompleteResults { .. } => None,
            QueryResults::SearchResults { start, count, total, .. } => Some(
                Paging::new(*start, *count, *total),
            ),
        }
    }

    /// The entities of the list, each reduced to `T`.
    pub fn process<T: FromEntity>(&self) -> (r: Result<Vec<T>, DecodeError>)
        ensures
            match r {
                Ok(v) => reduced::<T>(self@.entities()) == Ok::<Seq<T::V>, DecodeError>(models_of(v@)),
                Err(e) => reduced::<T>(self@.entities()) == Err::<Seq<T::V>, DecodeError>(e),
            },
    {
        match self {
            QueryResults::AutoCompleteResults { entities } => reduce_entities::<T>(entities),
            QueryResults::SearchResults { entities, .. } => {
                proof {
                    assert(self@.entities() =~= Seq::new(
                        entities@.len(),
                        |i: int| entities@[i]@.entity,
                    ));
                }
                reduce_envelopes::<T>(entities)
            },
        }
    }
}

impl<'a> QueryResponse<'a> {
    /// The entities of the answer, each reduced to `T`, and the page where
    /// the answer is that of a search.
    pub fn process<T: FromEntity>(&self) -> (r: Result<(Vec<T>, Option<Paging>), DecodeError>)
        ensures
            match r {
                Ok((data, paging)) => self@.processed::<T>() == Ok::<
                    (Seq<T::V>, Option<PagingModel>),
                    DecodeError,
                >((models_of(data@), model_of(paging))),
                Err(e) => self@.processed::<T>() == Err::<(Seq<T::V>, Option<PagingModel>), DecodeError>(e),
            },
    {
        match self.data.results.process::<T>() {
            Ok(data) => Ok((data, self.data.results.paging())),
            Err(e) => Err(e),
        }
    }
}

impl<'a> SingleEntity<'a> {
    /// The entity reduced to `T`; where there is none, what stands for none.
    pub fn process<T: FromEntity>(&self) -> (r: Result<T, DecodeError>)
        ensures
            match r {
                Ok(t) => self@.processed::<T>() == Ok::<T::V, DecodeError>(t@),
                Err(e) => self@.processed::<T>() == Err::<T::V, DecodeError>(e),
            },
    {
        match &self.entity {
            None => Ok(T::empty()),
            Some(e) => match T::from_entity(e) {
                Some(t) => Ok(t),
                None => Err(DecodeError::UnexpectedKind),
            },
        }
    }
}

impl<'a> RecommendationsModule<'a> {
    /// What the module gives to the list of platforms.
    pub fn process(&self) -> (r: Vec<PlatformEnvelope>)
        ensures
            models_of(r@) == self@.platforms(),
    {
        match self {
            RecommendationsModule::Platforms { content } => PlatformEnvelope::from_content(content),
            RecommendationsModule::Other => {
                let out: Vec<PlatformEnvelope> = Vec::new();
                proof {
                    assert(models_of(out@) =~= Seq::<PlatformEnvelopeModel>::empty());
                }
                out
            },
        }
    }
}

impl<'a> ListRecommendationsResponse<'a> {
    /// The platforms that the modules list, module after module. There is
    /// never a page: upstream counts no total of them.
    pub fn process(&self) -> (r: (Vec<PlatformEnvelope>, Option<Paging>))
        ensures
            (models_of(r.0@), model_of(r.1)) == self@.processed(),
    {
        let modules = &self.data.results.modules;
        let ghost all = models_of(modules@);
        let mut out: Vec<PlatformEnvelope> = Vec::new();
        let mut i: usize = 0;
        proof {
            assert(all.take(0) =~= Seq::<RecommendationsModuleModel>::empty());
            assert(models_of(out@) =~= Seq::<PlatformEnvelopeModel>::empty());
        }
        while i < modules.len()
            invariant
                i <= modules@.len(),
                all == models_of(modules@),
                models_of(out@) == listed(all.take(i as int)),
            decreases modules@.len() - i,
        {
            let ghost before = models_of(out@);
            proof {
                assert(all.take(i + 1).drop_last() =~= all.take(i as int));
                assert(all.take(i + 1).last() == modules@[i as int]@);
            }
            let mut part = modules[i].process();
            let ghost added = models_of(part@);
            out.append(&mut part);
            proof {
                assert(models_of(out@) =~= before + added);
            }
            i = i + 1;
        }
        proof {
            assert(all.take(i as int) =~= all);
        }
        (out, None)
    }
}

/// The snapshot that creates a tag, as a mathematical value.
pub struct CreateTagModel {
    pub urn: Seq<char>,
    pub name: Seq<char>,
    pub description: Seq<char>,
}

/// The snapshot that marks a tag as removed or as not removed, as a
/// mathematical value.
pub struct DeleteTagModel {
    pub urn: Seq<char>,
    pub removed: bool,
}

/// A truth value as JSON.
pub open spec fn flag_json(b: bool) -> Seq<char> {
    if b {
        "true"@
    } else {
        "false"@
    }
}

impl CreateTagModel {
    /// The body sent to the ingestion endpoint: the snapshot of the tag, with
    /// its properties as the one aspect.
    pub open spec fn json(self) -> Seq<char> {
        "{\"entity\":{\"value\":{\"com.linkedin.metadata.snapshot.TagSnapshot\":{\"urn\":"@
            + quoted(self.urn) + ",\"aspects\":[{\"com.linkedin.tag.TagProperties\":{\"name\":"@
            + quoted(self.name) + ",\"description\":"@ + quoted(self.description) + "}}]}}}}"@
    }
}

impl DeleteTagModel {
    /// The body sent to the ingestion endpoint: the snapshot of the tag, with
    /// its status as the one aspect.
    pub open spec fn json(self) -> Seq<char> {
        "{\"entity\":{\"value\":{\"com.linkedin.metadata.snapshot.TagSnapshot\":{\"urn\":"@
            + quoted(self.urn) + ",\"aspects\":[{\"com.linkedin.common.Status\":{\"removed\":"@
            + flag_json(self.removed) + "}}]}}}}"@
    }
}

/// The snapshot that creates a tag.
#[derive(Debug, PartialEq, Eq)]
pub struct CreateTag<'a> {
    urn: &'a str,
    name: &'a str,
    description: &'a str,
}

/// The snapshot that deletes a tag.
#[derive(Debug, PartialEq, Eq)]
pub struct DeleteTag<'a> {
    urn: &'a str,
    removed: bool,
}

impl<'a> View for CreateTag<'a> {
    type V = CreateTagModel;

    closed spec fn view(&self) -> CreateTagModel {
        CreateTagModel { urn: self.urn@, name: self.name@, description: self.description@ }
    }
}

impl<'a> View for DeleteTag<'a> {
    type V = DeleteTagModel;

    closed spec fn view(&self) -> DeleteTagModel {
        DeleteTagModel { urn: self.urn@, removed: self.removed }
    }
}

impl<'a> CreateTag<'a> {
    pub fn new(urn: &'a str, name: &'a str, description: &'a str) -> (r: CreateTag<'a>)
        ensures
            r@ == (CreateTagModel { urn: urn@, name: name@, description: description@ }),
    {
        CreateTag { urn, name, description }
    }

    /// The body sent to the ingestion endpoint.
    pub fn to_json(&self) -> (r: String)
        ensures
            r@ == self@.json(),
    {
        let mut out =
            "{\"entity\":{\"value\":{\"com.linkedin.metadata.snapshot.TagSnapshot\":{\"urn\":".to_owned();
        push_quoted(&mut out, self.urn);
        out.append(",\"aspects\":[{\"com.linkedin.tag.TagProperties\":{\"name\":");
        push_quoted(&mut out, self.name);
        out.append(",\"description\":");
        push_quoted(&mut out, self.description);
        out.append("}}]}}}}");
        out
    }
}

impl<'a> DeleteTag<'a> {
    /// The snapshot that marks the tag `urn` as removed.
    pub fn new(urn: &'a str) -> (r: DeleteTag<'a>)
        ensures
            r@ == (DeleteTagModel { urn: urn@, removed: true }),
    {
        DeleteTag { urn, removed: true }
    }

    /// The snapshot that marks the tag `urn` as removed, or as not removed.
    pub fn with_status(urn: &'a str, removed: bool) -> (r: DeleteTag<'a>)
        ensures
            r@ == (DeleteTagModel { urn: urn@, removed }),
    {
        DeleteTag { urn, removed }
    }

    /// The body sent to the ingestion endpoint.
    pub fn to_json(&self) -> (r: String)
        ensures
            r@ == self@.json(),
    {
        let mut out =
            "{\"entity\":{\"value\":{\"com.linkedin.metadata.snapshot.TagSnapshot\":{\"urn\":".to_owned();
        push_quoted(&mut out, self.urn);
        out.append(",\"aspects\":[{\"com.linkedin.common.Status\":{\"removed\":");
        if self.removed {
            out.append("true");
        } else {
            out.append("false");
        }
        out.append("}}]}}}}");
        out
    }
}

/// An entity that does not say of which kind it is cannot be decoded.
pub proof fn lemma_entity_needs_discriminator(j: JsonModel)
    requires
        j.member("__typename"@) is None,
    ensures
        Entity::decoded(j) is Err,
        j is Object ==> Entity::decoded(j) == Err::<EntityModel, DecodeError>(DecodeError::MissingField),
{
}

/// An entity whose discriminator names none of the kinds known cannot be
/// decoded.
pub proof fn lemma_entity_needs_known_kind(j: JsonModel, kind: Seq<char>)
    requires
        j.text("__typename"@) == Ok::<Seq<char>, DecodeError>(kind),
        kind != "Tag"@,
        kind != "Dataset"@,
        kind != "DataPlatform"@,
    ensures
        Entity::decoded(j) == Err::<EntityModel, DecodeError>(DecodeError::UnknownType),
{
}

/// The members that a dataset is read from have seven different names.
proof fn lemma_dataset_keys_differ()
    ensures
        "urn"@ != "name"@,
        "urn"@ != "tags"@,
        "urn"@ != "schema"@,
        "urn"@ != "platform"@,
        "urn"@ != "sub_types"@,
        "urn"@ != "properties"@,
        "name"@ != "tags"@,
        "name"@ != "schema"@,
        "name"@ != "platform"@,
        "name"@ != "sub_types"@,
        "name"@ != "properties"@,
        "tags"@ != "schema"@,
        "tags"@ != "platform"@,
        "tags"@ != "sub_types"@,
        "tags"@ != "properties"@,
        "schema"@ != "platform"@,
        "schema"@ != "sub_types"@,
        "schema"@ != "properties"@,
        "platform"@ != "sub_types"@,
        "platform"@ != "properties"@,
        "sub_types"@ != "properties"@,
{
    reveal_strlit("urn");
    reveal_strlit("name");
    reveal_strlit("tags");
    reveal_strlit("schema");
    reveal_strlit("platform");
    reveal_strlit("sub_types");
    reveal_strlit("properties");
    assert("urn"@.len() == 3);
    assert("name"@.len() == 4);
    assert("tags"@.len() == 4);
    assert("schema"@.len() == 6);
    assert("platform"@.len() == 8);
    assert("sub_types"@.len() == 9);
    assert("properties"@.len() == 10);
    assert("name"@[0] != "tags"@[0]);
}

/// How the parts of a dataset are read from a document of which the member
/// `key` was taken out: that part is absent, every other is read as before.
proof fn lemma_parts_without(j: JsonModel, key: Seq<char>)
    ensures
        j.without(key).text("urn"@) == (if key == "urn"@ && j is Object {
            Err::<Seq<char>, DecodeError>(DecodeError::MissingField)
        } else {
            j.text("urn"@)
        }),
        j.without(key).text("name"@) == (if key == "name"@ && j is Object {
            Err::<Seq<char>, DecodeError>(DecodeError::MissingField)
        } else {
            j.text("name"@)
        }),
        decoded_optional::<Tags>(j.without(key), "tags"@) == (if key == "tags"@ && j is Object {
            Ok::<Option<TagsModel>, DecodeError>(None)
        } else {
            decoded_optional::<Tags>(j, "tags"@)
        }),
        decoded_optional::<DatasetSchema>(j.without(key), "schema"@) == (if key == "schema"@ && j
            is Object {
            Ok::<Option<DatasetSchemaModel>, DecodeError>(None)
        } else {
            decoded_optional::<DatasetSchema>(j, "schema"@)
        }),
        decoded_optional::<DatasetPlatform>(j.without(key), "platform"@) == (if key == "platform"@
            && j is Object {
            Ok::<Option<DatasetPlatformModel>, DecodeError>(None)
        } else {
            decoded_optional::<DatasetPlatform>(j, "platform"@)
        }),
        decoded_optional::<DatasetSubType>(j.without(key), "sub_types"@) == (if key
            == "sub_types"@ && j is Object {
            Ok::<Option<DatasetSubTypeModel>, DecodeError>(None)
        } else {
            decoded_optional::<DatasetSubType>(j, "sub_types"@)
        }),
        decoded_optional::<DatasetProperties>(j.without(key), "properties"@) == (if key
            == "properties"@ && j is Object {
            Ok::<Option<DatasetPropertiesModel>, DecodeError>(None)
        } else {
            decoded_optional::<DatasetProperties>(j, "properties"@)
        }),
{
    j.lemma_without(key, "urn"@);
    j.lemma_without(key, "name"@);
    j.lemma_without(key, "tags"@);
    j.lemma_without(key, "schema"@);
    j.lemma_without(key, "platform"@);
    j.lemma_without(key, "sub_types"@);
    j.lemma_without(key, "properties"@);
}

/// A dataset is decoded with or without its optional parts. Where a document
/// decodes to a dataset, so does the document without its schema; the
/// dataset then has no schema and is otherwise the same. The same holds of
/// its tags, its platform, its subtypes and its properties.
pub proof fn lemma_dataset_without_optional_part(j: JsonModel)
    requires
        Dataset::decoded(j) is Ok,
    ensures
        Dataset::decoded(j.without("schema"@)) == Ok::<DatasetModel, DecodeError>(
            DatasetModel { schema: None, ..Dataset::decoded(j)->Ok_0 },
        ),
        Dataset::decoded(j.without("tags"@)) == Ok::<DatasetModel, DecodeError>(
            DatasetModel { tags: None, ..Dataset::decoded(j)->Ok_0 },
        ),
        Dataset::decoded(j.without("platform"@)) == Ok::<DatasetModel, DecodeError>(
            DatasetModel { platform: None, ..Dataset::decoded(j)->Ok_0 },
        ),
        Dataset::decoded(j.without("sub_types"@)) == Ok::<DatasetModel, DecodeError>(
            DatasetModel { sub_types: None, ..Dataset::decoded(j)->Ok_0 },
        ),
        Dataset::decoded(j.without("properties"@)) == Ok::<DatasetModel, DecodeError>(
            DatasetModel { properties: None, ..Dataset::decoded(j)->Ok_0 },
        ),
{
    lemma_dataset_keys_differ();
    lemma_parts_without(j, "schema"@);
    lemma_parts_without(j, "tags"@);
    lemma_parts_without(j, "platform"@);
    lemma_parts_without(j, "sub_types"@);
    lemma_parts_without(j, "properties"@);
}

/// A tag is decoded with or without its properties: where a document decodes
/// to a tag, so does the document without them, to the same tag but for them.
pub proof fn lemma_tag_without_properties(j: JsonModel)
    requires
        Tag::decoded(j) is Ok,
    ensures
        Tag::decoded(j.without("properties"@)) == Ok::<TagModel, DecodeError>(
            TagModel { properties: None, ..Tag::decoded(j)->Ok_0 },
        ),
{
    lemma_dataset_keys_differ();
    j.lemma_without("properties"@, "urn"@);
    j.lemma_without("properties"@, "properties"@);
}

/// A dataset without its URN cannot be decoded: the URN is required.
pub proof fn lemma_dataset_needs_urn(j: JsonModel)
    requires
        j.member("urn"@) is None,
    ensures
        Dataset::decoded(j) is Err,
{
}

/// Reducing an entity is a function of the entity: what is made of one
/// entity twice is the same both times.
pub proof fn lemma_reducing_twice_agrees<T: FromEntity>(e: Entity, first: Option<T>, second: Option<T>)
    requires
        model_of(first) == T::of_entity(e@),
        model_of(second) == T::of_entity(e@),
    ensures
        model_of(first) == model_of(second),
{
}

/// A list has a page exactly where the answer is that of a search: a
/// completion of a name has none.
pub proof fn lemma_page_iff_search<T: FromEntity>(resp: QueryResponseModel)
    requires
        resp.processed::<T>() is Ok,
    ensures
        resp.processed::<T>()->Ok_0.1 is Some <==> resp.data.results is SearchResults,
        resp.data.results matches QueryResultsModel::SearchResults { start, count, total, .. }
            ==> resp.processed::<T>()->Ok_0.1 == Some(
            PagingModel { total, limit: count, offset: start },
        ),
        resp.processed::<T>()->Ok_0.0.len() == resp.data.results.entities().len(),
{
    lemma_reduced_keeps_length::<T>(resp.data.results.entities());
}

/// A run of entities is reduced to as many values as it has entities.
pub proof fn lemma_reduced_keeps_length<T: FromEntity>(entities: Seq<EntityModel>)
    ensures
        reduced::<T>(entities) matches Ok(values) ==> values.len() == entities.len(),
    decreases entities.len(),
{
    if entities.len() > 0 {
        lemma_reduced_keeps_length::<T>(entities.drop_last());
    }
}

/// A lookup that finds no entity is no failure: it is reduced to what stands
/// for an absent entity.
pub proof fn lemma_absent_entity_is_no_failure<T: FromEntity>(j: JsonModel)
    requires
        j.required("data"@) matches Ok(data) && data is Object && data.present("entity"@) is None,
    ensures
        SingleEntity::decoded(j) == Ok::<SingleEntityModel, DecodeError>(
            SingleEntityModel { entity: None },
        ),
        SingleEntity::decoded(j)->Ok_0.processed::<T>() == Ok::<T::V, DecodeError>(T::absent()),
{
}

} // verus!
