use data_service::decode::Decode;
use data_service::json::{DecodeError, Json};
use data_service::schemas::datahub::{
    DataPlatform, Dataset, DatasetAddTagResponse, DatasetEntity, Entity, PlatformEntity,
    QueryResults, RecommendationsModule, SingleEntity, Tag, TagEntity, Tags,
};
use data_service::render::ToJson;
use data_service::schemas::requests;
use data_service::schemas::DatasetEnvelope;

const DATASET: &str = r#"{
    "urn": "urn:li:dataset:(urn:li:dataPlatform:hive,sales.orders,PROD)",
    "__typename": "Dataset",
    "name": "sales.orders",
    "platform": {"name": "hive", "properties": {"name": "Hive", "class": "OTHERS"}},
    "properties": {"name": "orders", "origin": "PROD"},
    "schema": {"fields": [
        {"path": "id", "class": "NUMBER", "native": "bigint"},
        {"path": "note", "class": "STRING", "native": "varchar(20)"}
    ]},
    "sub_types": {"names": ["table", "view"]},
    "tags": {"tags": [
        {"tag": {"urn": "urn:li:tag:finance", "properties": {"name": "finance", "description": "money"}}},
        {"tag": {"urn": "urn:li:tag:pii", "properties": null}}
    ]}
}"#;

fn parse(s: &str) -> Json {
    Json::parse(s.as_bytes()).unwrap()
}

fn without(j: &Json, key: &str) -> Json {
    match j {
        Json::Object(members) => Json::Object(
            members
                .iter()
                .filter(|(k, _)| k != key)
                .map(|(k, v)| (k.clone(), copy(v)))
                .collect(),
        ),
        other => copy(other),
    }
}

fn copy(j: &Json) -> Json {
    match j {
        Json::Null => Json::Null,
        Json::Bool(b) => Json::Bool(*b),
        Json::Int(n) => Json::Int(*n),
        Json::Number => Json::Number,
        Json::Text(s) => Json::Text(s.clone()),
        Json::List(items) => Json::List(items.iter().map(copy).collect()),
        Json::Object(members) => {
            Json::Object(members.iter().map(|(k, v)| (k.clone(), copy(v))).collect())
        }
    }
}

fn error_of<T>(r: Result<T, DecodeError>) -> DecodeError {
    match r {
        Ok(_) => panic!("decoded"),
        Err(e) => e,
    }
}

#[test]
fn tag_with_properties() {
    let j = parse(r#"{"urn":"urn:li:tag:a","properties":{"name":"a","description":"first"}}"#);
    let tag = Tag::decode(&j).unwrap();
    assert_eq!(tag.urn, "urn:li:tag:a");
    let p = tag.properties.unwrap();
    assert_eq!(p.name, "a");
    assert_eq!(p.description, "first");
}

#[test]
fn tag_without_properties() {
    for doc in [r#"{"urn":"u"}"#, r#"{"urn":"u","properties":null}"#] {
        let j = parse(doc);
        let tag = Tag::decode(&j).unwrap();
        assert_eq!(tag.urn, "u");
        assert!(tag.properties.is_none());
    }
}

#[test]
fn tag_needs_its_urn() {
    assert_eq!(
        error_of(Tag::decode(&parse(r#"{"properties":null}"#))),
        DecodeError::MissingField
    );
    assert_eq!(error_of(Tag::decode(&parse(r#"{"urn":5}"#))), DecodeError::WrongShape);
    assert_eq!(error_of(Tag::decode(&parse(r#"{"urn":null}"#))), DecodeError::WrongShape);
    assert_eq!(error_of(Tag::decode(&parse(r#"["urn"]"#))), DecodeError::WrongShape);
    assert_eq!(error_of(Tag::decode(&parse("null"))), DecodeError::WrongShape);
}

#[test]
fn tag_properties_are_complete_where_present() {
    assert_eq!(
        error_of(Tag::decode(&parse(r#"{"urn":"u","properties":{"name":"a"}}"#))),
        DecodeError::MissingField
    );
    assert_eq!(
        error_of(Tag::decode(&parse(
            r#"{"urn":"u","properties":{"name":"a","description":null}}"#
        ))),
        DecodeError::WrongShape
    );
    assert_eq!(
        error_of(Tag::decode(&parse(r#"{"urn":"u","properties":"none"}"#))),
        DecodeError::WrongShape
    );
}

#[test]
fn tag_entity_may_hold_no_tag() {
    assert!(TagEntity::decode(&parse("{}")).unwrap().tag.is_none());
    assert!(TagEntity::decode(&parse(r#"{"tag":null}"#)).unwrap().tag.is_none());
    let j = parse(r#"{"tag":{"urn":"u"}}"#);
    assert_eq!(TagEntity::decode(&j).unwrap().tag.unwrap().urn, "u");
    assert_eq!(error_of(TagEntity::decode(&parse("[]"))), DecodeError::WrongShape);
}

#[test]
fn tags_need_their_list() {
    assert_eq!(error_of(Tags::decode(&parse("{}"))), DecodeError::MissingField);
    assert_eq!(error_of(Tags::decode(&parse(r#"{"tags":{}}"#))), DecodeError::WrongShape);
    assert_eq!(Tags::decode(&parse(r#"{"tags":[]}"#)).unwrap().tags.len(), 0);
    assert_eq!(
        error_of(Tags::decode(&parse(r#"{"tags":[{"tag":{"urn":"a"}},{"tag":{}}]}"#))),
        DecodeError::MissingField
    );
}

#[test]
fn dataset_with_every_part() {
    let j = parse(DATASET);
    let d = Dataset::decode(&j).unwrap();
    assert_eq!(d.urn, "urn:li:dataset:(urn:li:dataPlatform:hive,sales.orders,PROD)");
    assert_eq!(d.name, "sales.orders");
    let platform = d.platform.unwrap();
    assert_eq!(platform.name, "hive");
    assert_eq!(platform.properties.name, "Hive");
    assert_eq!(platform.properties.class, "OTHERS");
    let properties = d.properties.unwrap();
    assert_eq!(properties.name, "orders");
    assert_eq!(properties.origin, "PROD");
    let schema = d.schema.unwrap();
    assert_eq!(schema.fields.len(), 2);
    assert_eq!(schema.fields[1].path, "note");
    assert_eq!(schema.fields[1].class, "STRING");
    assert_eq!(schema.fields[1].native, "varchar(20)");
    assert_eq!(d.sub_types.unwrap().names, vec!["table", "view"]);
    let tags = d.tags.unwrap().tags;
    assert_eq!(tags.len(), 2);
    assert_eq!(tags[0].tag.as_ref().unwrap().urn, "urn:li:tag:finance");
    assert!(tags[1].tag.as_ref().unwrap().properties.is_none());
}

#[test]
fn dataset_without_its_schema() {
    let j = without(&parse(DATASET), "schema");
    let d = Dataset::decode(&j).unwrap();
    assert!(d.schema.is_none());
    assert_eq!(d.name, "sales.orders");
    assert!(d.tags.is_some());
    assert!(d.platform.is_some());
    assert!(d.sub_types.is_some());
    assert!(d.properties.is_some());
}

#[test]
fn dataset_without_any_optional_part() {
    for key in ["tags", "schema", "platform", "sub_types", "properties"] {
        let j = without(&parse(DATASET), key);
        let d = Dataset::decode(&j).unwrap();
        assert_eq!(d.tags.is_none(), key == "tags");
        assert_eq!(d.schema.is_none(), key == "schema");
        assert_eq!(d.platform.is_none(), key == "platform");
        assert_eq!(d.sub_types.is_none(), key == "sub_types");
        assert_eq!(d.properties.is_none(), key == "properties");
    }
    let j = parse(r#"{"urn":"u","name":"n"}"#);
    let d = Dataset::decode(&j).unwrap();
    assert!(d.tags.is_none() && d.schema.is_none() && d.platform.is_none());
    assert!(d.sub_types.is_none() && d.properties.is_none());
}

#[test]
fn dataset_needs_urn_and_name() {
    assert_eq!(
        error_of(Dataset::decode(&without(&parse(DATASET), "urn"))),
        DecodeError::MissingField
    );
    assert_eq!(
        error_of(Dataset::decode(&without(&parse(DATASET), "name"))),
        DecodeError::MissingField
    );
}

#[test]
fn dataset_with_an_incomplete_platform_fails() {
    let j = parse(r#"{"urn":"u","name":"n","platform":{"name":"hive"}}"#);
    assert_eq!(error_of(Dataset::decode(&j)), DecodeError::MissingField);
    let j = parse(r#"{"urn":"u","name":"n","platform":{"name":"hive","properties":{"name":"Hive"}}}"#);
    assert_eq!(error_of(Dataset::decode(&j)), DecodeError::MissingField);
    let j = parse(r#"{"urn":"u","name":"n","platform":{"name":"hive","properties":null}}"#);
    assert_eq!(error_of(Dataset::decode(&j)), DecodeError::WrongShape);
}

#[test]
fn data_platform_needs_its_properties() {
    let j = parse(r#"{"urn":"u","name":"hive","properties":{"name":"Hive","class":"OTHERS"}}"#);
    let p = DataPlatform::decode(&j).unwrap();
    assert_eq!((p.urn, p.name, p.properties.name, p.properties.class), ("u", "hive", "Hive", "OTHERS"));
    let j = parse(r#"{"urn":"u","name":"hive"}"#);
    assert_eq!(error_of(DataPlatform::decode(&j)), DecodeError::MissingField);
    let j = parse(r#"{"entity":{"urn":"u","name":"hive","properties":{"name":"Hive","class":"c"}}}"#);
    assert_eq!(PlatformEntity::decode(&j).unwrap().entity.name, "hive");
    assert_eq!(error_of(PlatformEntity::decode(&parse("{}"))), DecodeError::MissingField);
}

#[test]
fn entity_is_told_by_its_type_name() {
    let j = parse(r#"{"__typename":"Tag","urn":"t"}"#);
    assert!(matches!(Entity::decode(&j), Ok(Entity::Tag(t)) if t.urn == "t"));
    let j = parse(DATASET);
    assert!(matches!(Entity::decode(&j), Ok(Entity::Dataset(d)) if d.name == "sales.orders"));
    let j = parse(
        r#"{"__typename":"DataPlatform","urn":"p","name":"hive","properties":{"name":"Hive","class":"c"}}"#,
    );
    assert!(matches!(Entity::decode(&j), Ok(Entity::Platform(p)) if p.urn == "p"));
}

#[test]
fn entity_without_type_name_fails() {
    let j = without(&parse(DATASET), "__typename");
    assert_eq!(error_of(Entity::decode(&j)), DecodeError::MissingField);
    assert_eq!(
        error_of(Entity::decode(&parse(r#"{"urn":"t"}"#))),
        DecodeError::MissingField
    );
}

#[test]
fn entity_of_an_unknown_kind_fails() {
    assert_eq!(
        error_of(Entity::decode(&parse(r#"{"__typename":"Chart","urn":"c"}"#))),
        DecodeError::UnknownType
    );
    assert_eq!(
        error_of(Entity::decode(&parse(r#"{"__typename":"tag","urn":"c"}"#))),
        DecodeError::UnknownType
    );
    assert_eq!(
        error_of(Entity::decode(&parse(r#"{"__typename":7,"urn":"c"}"#))),
        DecodeError::WrongShape
    );
}

#[test]
fn entity_follows_its_type_name_not_its_members() {
    let j = parse(r#"{"__typename":"Dataset","urn":"t","properties":{"name":"a","description":"b"}}"#);
    assert_eq!(error_of(Entity::decode(&j)), DecodeError::MissingField);
}

#[test]
fn results_of_a_completion() {
    let j = parse(
        r#"{"__typename":"AutoCompleteResults","entities":[{"__typename":"Tag","urn":"a"},{"__typename":"Tag","urn":"b"}]}"#,
    );
    match QueryResults::decode(&j).unwrap() {
        QueryResults::AutoCompleteResults { entities } => assert_eq!(entities.len(), 2),
        _ => panic!("a search"),
    }
}

#[test]
fn results_of_a_search() {
    let j = parse(
        r#"{"__typename":"SearchResults","start":5,"count":10,"total":42,"entities":[{"entity":{"__typename":"Tag","urn":"a"}}]}"#,
    );
    let results = QueryResults::decode(&j).unwrap();
    let paging = results.paging().unwrap();
    assert_eq!((paging.offset(), paging.limit(), paging.total()), (5, 10, 42));
    match results {
        QueryResults::SearchResults { start, count, total, entities } => {
            assert_eq!((start, count, total), (5, 10, 42));
            assert_eq!(entities.len(), 1);
        }
        _ => panic!("a completion"),
    }
}

#[test]
fn results_of_a_search_need_their_page() {
    let j = parse(r#"{"__typename":"SearchResults","start":5,"count":10,"entities":[]}"#);
    assert_eq!(error_of(QueryResults::decode(&j)), DecodeError::MissingField);
    let j = parse(r#"{"__typename":"SearchResults","start":5,"count":1.5,"total":1,"entities":[]}"#);
    assert_eq!(error_of(QueryResults::decode(&j)), DecodeError::WrongShape);
    let j = parse(r#"{"__typename":"SearchResults","start":5,"count":1,"total":3000000000,"entities":[]}"#);
    assert_eq!(error_of(QueryResults::decode(&j)), DecodeError::WrongShape);
    let j = parse(r#"{"__typename":"SearchResults","start":5,"count":1,"total":1,"entities":[{"__typename":"Tag","urn":"a"}]}"#);
    assert_eq!(error_of(QueryResults::decode(&j)), DecodeError::MissingField);
}

#[test]
fn results_of_an_unknown_shape_fail() {
    let j = parse(r#"{"__typename":"BrowseResults","entities":[]}"#);
    assert_eq!(error_of(QueryResults::decode(&j)), DecodeError::UnknownType);
    let j = parse(r#"{"entities":[]}"#);
    assert_eq!(error_of(QueryResults::decode(&j)), DecodeError::MissingField);
}

#[test]
fn single_entity_may_be_absent() {
    for doc in [r#"{"data":{"entity":null}}"#, r#"{"data":{}}"#] {
        assert!(SingleEntity::decode(&parse(doc)).unwrap().entity.is_none());
    }
    let j = parse(r#"{"data":{"entity":{"__typename":"Tag","urn":"t"}}}"#);
    assert!(matches!(SingleEntity::decode(&j).unwrap().entity, Some(Entity::Tag(_))));
    assert_eq!(error_of(SingleEntity::decode(&parse("{}"))), DecodeError::MissingField);
    assert_eq!(
        error_of(SingleEntity::decode(&parse(r#"{"data":null}"#))),
        DecodeError::WrongShape
    );
    assert_eq!(
        error_of(SingleEntity::decode(&parse(r#"{"data":{"entity":{"urn":"t"}}}"#))),
        DecodeError::MissingField
    );
}

#[test]
fn dataset_entity_reads_a_dataset_of_a_known_kind() {
    let j = parse(r#"{"entity":{"urn":"u","name":"n"}}"#);
    let e = DatasetEntity::decode(&j).unwrap();
    assert_eq!(e.entity.as_ref().unwrap().urn, "u");
    assert!(!DatasetEnvelope::from_dataset_entity(&e).is_empty());
    let j = parse(r#"{"entity":null}"#);
    let e = DatasetEntity::decode(&j).unwrap();
    assert!(e.entity.is_none());
    assert_eq!(DatasetEnvelope::from_dataset_entity(&e).to_json(), "{\"dataset\":null}");
}

#[test]
fn module_of_platforms_is_read_and_others_are_named_only() {
    let j = parse(
        r#"{"id":"Platforms","content":[{"entity":{"urn":"p","name":"hive","properties":{"name":"Hive","class":"c"}}}]}"#,
    );
    match RecommendationsModule::decode(&j).unwrap() {
        RecommendationsModule::Platforms { content } => assert_eq!(content.len(), 1),
        RecommendationsModule::Other => panic!("another module"),
    }
    for doc in [
        r#"{"id":"TopTags","content":[{"entity":{"urn":"t"}}]}"#,
        r#"{"id":"RecentlyViewedEntities"}"#,
        r#"{"id":"HighUsageEntities","content":7}"#,
        r#"{"id":"SomethingNew"}"#,
    ] {
        assert!(matches!(
            RecommendationsModule::decode(&parse(doc)),
            Ok(RecommendationsModule::Other)
        ));
    }
    assert_eq!(
        error_of(RecommendationsModule::decode(&parse(r#"{"content":[]}"#))),
        DecodeError::MissingField
    );
    assert_eq!(
        error_of(RecommendationsModule::decode(&parse(r#"{"id":"Platforms"}"#))),
        DecodeError::MissingField
    );
}

#[test]
fn answer_to_a_mutation() {
    let j = parse(r#"{"data":{"success":true}}"#);
    let a = DatasetAddTagResponse::decode(&j).unwrap();
    assert!(a.data.unwrap().success);
    assert!(a.errors.is_none());
    let j = parse(r#"{"data":null,"errors":[{"message":"no such tag"},{"message":"x","path":[]}]}"#);
    let a = DatasetAddTagResponse::decode(&j).unwrap();
    assert!(a.data.is_none());
    let errors = a.errors.unwrap();
    assert_eq!(errors.len(), 2);
    assert_eq!(errors[0].message, "no such tag");
    let j = parse("{}");
    let a = DatasetAddTagResponse::decode(&j).unwrap();
    assert!(a.data.is_none() && a.errors.is_none());
    assert_eq!(
        error_of(DatasetAddTagResponse::decode(&parse(r#"{"data":{"success":"yes"}}"#))),
        DecodeError::WrongShape
    );
    assert_eq!(
        error_of(DatasetAddTagResponse::decode(&parse(r#"{"data":{}}"#))),
        DecodeError::MissingField
    );
    assert_eq!(
        error_of(DatasetAddTagResponse::decode(&parse(r#"{"errors":{}}"#))),
        DecodeError::WrongShape
    );
    assert_eq!(
        error_of(DatasetAddTagResponse::decode(&parse(r#"{"errors":[{}]}"#))),
        DecodeError::MissingField
    );
}

#[test]
fn request_to_create_a_tag() {
    let j = parse(r#"{"name":"finance","description":"money"}"#);
    let c = requests::CreateTag::decode(&j).unwrap();
    assert_eq!(c.name, "finance");
    assert_eq!(c.description.as_deref(), Some("money"));
    let c = requests::CreateTag::decode(&parse(r#"{"name":"finance"}"#)).unwrap();
    assert_eq!(c.description, None);
    let c = requests::CreateTag::decode(&parse(r#"{"name":"x","description":null}"#)).unwrap();
    assert_eq!(c.description, None);
    assert_eq!(
        error_of(requests::CreateTag::decode(&parse(r#"{"description":"d"}"#))),
        DecodeError::MissingField
    );
    assert_eq!(
        error_of(requests::CreateTag::decode(&parse(r#"{"name":"x","description":1}"#))),
        DecodeError::WrongShape
    );
}

#[test]
fn request_to_tie_a_tag() {
    let a = requests::AddTag::decode(&parse(r#"{"tag":"urn:li:tag:x"}"#)).unwrap();
    assert_eq!(a.tag, "urn:li:tag:x");
    assert_eq!(
        error_of(requests::AddTag::decode(&parse("{}"))),
        DecodeError::MissingField
    );
}
