use data_service::api::v1::params::QueryParams;
use data_service::api::v1::pipeline::{
    association_outcome, datasets_list, lookup, platforms_list, tags_list,
};
use data_service::api::v1::status::{
    association_status, creation_status, deletion_status, failure_status, lookup_status, succeeded,
    Failure,
};
use data_service::api::v1::{datasets, platforms, tags};
use data_service::decode::Decode;
use data_service::json::{DecodeError, Json};
use data_service::render::ToJson;
use data_service::schemas::datahub::{DatasetAddTagResponse, Entity, FromEntity};
use data_service::schemas::requests;
use data_service::schemas::{DatasetEnvelope, PlatformEnvelope, Tag, TagEnvelope};

const DATASET: &str = r#"{
    "urn": "urn:li:dataset:1",
    "__typename": "Dataset",
    "name": "sales.orders",
    "platform": {"name": "hive", "properties": {"name": "Hive", "class": "OTHERS"}},
    "properties": {"name": "orders", "origin": "PROD"},
    "schema": {"fields": [{"path": "id", "class": "NUMBER", "native": "bigint"}]},
    "sub_types": {"names": ["table", "view"]},
    "tags": {"tags": [
        {"tag": {"urn": "urn:li:tag:finance", "properties": {"name": "finance", "description": "money"}}},
        {"tag": null}
    ]}
}"#;

fn answer(status_and_body: (u16, &str)) -> Result<u16, DecodeError> {
    association_outcome(status_and_body.0, status_and_body.1.as_bytes()).map(|o| o.status)
}

fn recorded(status: u16, body: &str) -> Vec<String> {
    association_outcome(status, body.as_bytes()).unwrap().messages
}

fn decided(status: u16, body: &str) -> u16 {
    let json = Json::parse(body.as_bytes()).unwrap();
    let answer = DatasetAddTagResponse::decode(&json).unwrap();
    association_status(status, &answer)
}

fn error_of<T>(r: Result<T, Failure>) -> DecodeError {
    match r {
        Ok(_) => panic!("decoded"),
        Err(Failure::Decode(e)) => e,
        Err(Failure::Transport(status)) => panic!("transport failed with {status}"),
    }
}

fn handed_on<T>(r: Result<T, Failure>) -> u16 {
    match r {
        Err(Failure::Transport(status)) => status,
        _ => panic!("the answer was read"),
    }
}

#[test]
fn mutation_that_succeeded_has_no_content() {
    assert_eq!(decided(200, r#"{"data":{"success":true}}"#), 204);
    assert_eq!(answer((200, r#"{"data":{"success":true}}"#)), Ok(204));
}

#[test]
fn mutation_that_upstream_denies_cannot_be_processed() {
    assert_eq!(decided(200, r#"{"data":{"success":false}}"#), 422);
    assert_eq!(answer((200, r#"{"data":{"success":false}}"#)), Ok(422));
}

#[test]
fn mutation_without_data_cannot_be_processed() {
    assert_eq!(decided(200, r#"{"data":null}"#), 422);
    assert_eq!(decided(200, "{}"), 422);
    assert_eq!(answer((200, "{}")), Ok(422));
}

#[test]
fn transport_status_is_handed_on() {
    assert_eq!(decided(503, r#"{"data":{"success":true}}"#), 503);
    assert_eq!(decided(503, r#"{"data":{"success":false}}"#), 503);
    assert_eq!(decided(503, "{}"), 503);
    assert_eq!(decided(404, "{}"), 404);
    assert_eq!(decided(201, r#"{"data":{"success":true}}"#), 201);
    assert_eq!(answer((503, "Service Unavailable")), Ok(503));
    assert_eq!(answer((500, "")), Ok(500));
}

#[test]
fn errors_beside_the_answer_change_nothing() {
    assert_eq!(
        decided(200, r#"{"data":{"success":true},"errors":[{"message":"late"}]}"#),
        204
    );
    assert_eq!(
        decided(200, r#"{"data":{"success":false},"errors":[{"message":"late"}]}"#),
        422
    );
    assert_eq!(decided(200, r#"{"errors":[{"message":"late"}]}"#), 422);
}

#[test]
fn errors_beside_the_answer_are_handed_out() {
    assert_eq!(
        recorded(200, r#"{"data":{"success":true},"errors":[{"message":"late"},{"message":"again"}]}"#),
        vec!["late".to_string(), "again".to_string()]
    );
    assert_eq!(recorded(200, r#"{"data":{"success":true}}"#), Vec::<String>::new());
    assert_eq!(recorded(200, r#"{"errors":[]}"#), Vec::<String>::new());
    assert_eq!(recorded(503, r#"{"errors":[{"message":"unread"}]}"#), Vec::<String>::new());
}

#[test]
fn answer_that_is_no_document_is_a_failure() {
    assert_eq!(answer((200, "<html>")), Err(DecodeError::Malformed));
    assert_eq!(answer((200, r#"{"data":{"success":1}}"#)), Err(DecodeError::WrongShape));
}

#[test]
fn statuses_of_creation_deletion_and_lookup() {
    assert_eq!(creation_status(200), 201);
    assert_eq!(creation_status(500), 500);
    assert_eq!(creation_status(404), 404);
    assert_eq!(deletion_status(200), 204);
    assert_eq!(deletion_status(503), 503);
    assert_eq!(lookup_status(true), 200);
    assert_eq!(lookup_status(false), 404);
    assert_eq!(failure_status(Failure::Decode(DecodeError::Malformed)), 500);
    assert_eq!(failure_status(Failure::Decode(DecodeError::MissingField)), 500);
    assert_eq!(failure_status(Failure::Decode(DecodeError::UnexpectedKind)), 500);
    assert_eq!(failure_status(Failure::Transport(503)), 503);
    assert_eq!(failure_status(Failure::Transport(404)), 404);
}

#[test]
fn only_statuses_of_the_two_hundreds_are_successes() {
    assert!(succeeded(200));
    assert!(succeeded(204));
    assert!(succeeded(299));
    assert!(!succeeded(199));
    assert!(!succeeded(300));
    assert!(!succeeded(404));
    assert!(!succeeded(503));
    assert!(!succeeded(0));
}

#[test]
fn read_hands_a_failed_transport_on_and_reads_nothing() {
    let body = r#"{"data":{"entity":{"__typename":"Tag","urn":"t"}}}"#;
    assert_eq!(handed_on(lookup::<TagEnvelope>(503, body.as_bytes())), 503);
    assert_eq!(handed_on(lookup::<TagEnvelope>(404, b"not json")), 404);
    assert_eq!(handed_on(tags_list(500, b"")), 500);
    assert_eq!(handed_on(datasets_list(302, b"{}")), 302);
    assert_eq!(handed_on(platforms_list(401, b"{}")), 401);
    let envelope: TagEnvelope = lookup(201, body.as_bytes()).unwrap();
    assert!(!envelope.is_empty());
}

#[test]
fn lookup_of_a_dataset() {
    let body = format!("{{\"data\":{{\"entity\":{DATASET}}}}}");
    let envelope: DatasetEnvelope = lookup(200, body.as_bytes()).unwrap();
    assert!(!envelope.is_empty());
    assert_eq!(
        envelope.to_json(),
        "{\"dataset\":{\"id\":\"urn:li:dataset:1\",\"path\":\"sales.orders\",\"name\":\"orders\",\"origin\":\"PROD\",\"platform\":\"hive\",\"platformType\":\"OTHERS\",\"platformName\":\"Hive\",\"type\":\"table\",\"tags\":[{\"tag\":{\"id\":\"urn:li:tag:finance\",\"name\":\"finance\",\"description\":\"money\"}},{\"tag\":null}],\"fields\":[{\"path\":\"id\",\"type\":\"NUMBER\",\"nativeType\":\"bigint\"}]}}"
    );
}

#[test]
fn lookup_of_a_bare_dataset() {
    let body = r#"{"data":{"entity":{"__typename":"Dataset","urn":"u","name":"n"}}}"#;
    let envelope: DatasetEnvelope = lookup(200, body.as_bytes()).unwrap();
    assert_eq!(
        envelope.to_json(),
        "{\"dataset\":{\"id\":\"u\",\"path\":\"n\",\"name\":null,\"origin\":null,\"platform\":null,\"platformType\":null,\"platformName\":null,\"type\":null,\"tags\":[],\"fields\":null}}"
    );
}

#[test]
fn subtype_label_is_the_first_name_or_absent() {
    let body = r#"{"data":{"entity":{"__typename":"Dataset","urn":"u","name":"n","sub_types":{"names":[]}}}}"#;
    let envelope: DatasetEnvelope = lookup(200, body.as_bytes()).unwrap();
    assert!(envelope.to_json().contains("\"type\":null"));
    let body = r#"{"data":{"entity":{"__typename":"Dataset","urn":"u","name":"n","sub_types":{"names":["view"]}}}}"#;
    let envelope: DatasetEnvelope = lookup(200, body.as_bytes()).unwrap();
    assert!(envelope.to_json().contains("\"type\":\"view\""));
}

#[test]
fn lookup_that_finds_nothing_is_no_failure() {
    for body in [r#"{"data":{"entity":null}}"#, r#"{"data":{}}"#] {
        let envelope: DatasetEnvelope = lookup(200, body.as_bytes()).unwrap();
        assert!(envelope.is_empty());
        assert_eq!(envelope.to_json(), "{\"dataset\":null}");
        assert_eq!(lookup_status(!envelope.is_empty()), 404);
        let envelope: TagEnvelope = lookup(200, body.as_bytes()).unwrap();
        assert!(envelope.is_empty());
        assert_eq!(envelope.to_json(), "{\"tag\":null}");
        let envelope: PlatformEnvelope = lookup(200, body.as_bytes()).unwrap();
        assert!(envelope.is_empty());
        assert_eq!(envelope.to_json(), "{\"platform\":null}");
    }
}

#[test]
fn lookup_of_a_tag_and_of_a_platform() {
    let body = r#"{"data":{"entity":{"__typename":"Tag","urn":"urn:li:tag:a","properties":{"name":"a","description":"d"}}}}"#;
    let envelope: TagEnvelope = lookup(200, body.as_bytes()).unwrap();
    assert_eq!(
        envelope.to_json(),
        "{\"tag\":{\"id\":\"urn:li:tag:a\",\"name\":\"a\",\"description\":\"d\"}}"
    );
    assert_eq!(lookup_status(!envelope.is_empty()), 200);
    let body = r#"{"data":{"entity":{"__typename":"DataPlatform","urn":"p","name":"hive","properties":{"name":"Hive","class":"OTHERS"}}}}"#;
    let envelope: PlatformEnvelope = lookup(200, body.as_bytes()).unwrap();
    assert_eq!(
        envelope.to_json(),
        "{\"platform\":{\"id\":\"p\",\"name\":\"hive\",\"title\":\"Hive\",\"type\":\"OTHERS\"}}"
    );
}

#[test]
fn lookup_of_another_kind_is_a_failure() {
    let body = r#"{"data":{"entity":{"__typename":"Tag","urn":"t"}}}"#;
    assert_eq!(
        error_of(lookup::<DatasetEnvelope>(200, body.as_bytes())),
        DecodeError::UnexpectedKind
    );
    assert_eq!(
        error_of(lookup::<PlatformEnvelope>(200, body.as_bytes())),
        DecodeError::UnexpectedKind
    );
    assert_eq!(error_of(lookup::<TagEnvelope>(200, b"not json")), DecodeError::Malformed);
    assert_eq!(
        error_of(lookup::<TagEnvelope>(200, br#"{"data":{"entity":{"urn":"t"}}}"#)),
        DecodeError::MissingField
    );
}

#[test]
fn normalizing_twice_gives_the_same() {
    let json = Json::parse(DATASET.as_bytes()).unwrap();
    let entity = Entity::decode(&json).unwrap();
    let first = DatasetEnvelope::from_entity(&entity).unwrap();
    let second = DatasetEnvelope::from_entity(&entity).unwrap();
    assert_eq!(first.to_json(), second.to_json());
    assert!(TagEnvelope::from_entity(&entity).is_none());
}

#[test]
fn list_of_a_search_has_its_page() {
    let body = r#"{"data":{"results":{"__typename":"SearchResults","start":10,"count":5,"total":12,"entities":[
        {"entity":{"__typename":"Tag","urn":"urn:li:tag:a"}},
        {"entity":{"__typename":"Tag","urn":"urn:li:tag:b","properties":{"name":"b","description":""}}}
    ]}}}"#;
    let tags = tags_list(200, body.as_bytes()).unwrap();
    assert_eq!(tags.len(), 2);
    let paging = tags.paging().unwrap();
    assert_eq!((paging.offset(), paging.limit(), paging.total()), (10, 5, 12));
    assert_eq!(
        tags.to_json(),
        "{\"data\":[{\"tag\":{\"id\":\"urn:li:tag:a\",\"name\":null,\"description\":null}},{\"tag\":{\"id\":\"urn:li:tag:b\",\"name\":\"b\",\"description\":\"\"}}],\"paging\":{\"total\":12,\"limit\":5,\"offset\":10}}"
    );
}

#[test]
fn list_of_a_completion_has_no_page() {
    let body = r#"{"data":{"results":{"__typename":"AutoCompleteResults","entities":[{"__typename":"Tag","urn":"a"}]}}}"#;
    let tags = tags_list(200, body.as_bytes()).unwrap();
    assert_eq!(tags.len(), 1);
    assert!(tags.paging().is_none());
    assert_eq!(
        tags.to_json(),
        "{\"data\":[{\"tag\":{\"id\":\"a\",\"name\":null,\"description\":null}}],\"paging\":null}"
    );
}

#[test]
fn empty_list_is_no_failure() {
    let body = r#"{"data":{"results":{"__typename":"SearchResults","start":0,"count":10,"total":0,"entities":[]}}}"#;
    let datasets = datasets_list(200, body.as_bytes()).unwrap();
    assert_eq!(datasets.len(), 0);
    assert_eq!(
        datasets.to_json(),
        "{\"data\":[],\"paging\":{\"total\":0,\"limit\":10,\"offset\":0}}"
    );
}

#[test]
fn list_with_an_entity_of_another_kind_is_a_failure() {
    let body = r#"{"data":{"results":{"__typename":"AutoCompleteResults","entities":[{"__typename":"Tag","urn":"a"},{"__typename":"Dataset","urn":"d","name":"n"}]}}}"#;
    assert_eq!(error_of(tags_list(200, body.as_bytes())), DecodeError::UnexpectedKind);
    assert_eq!(error_of(datasets_list(200, body.as_bytes())), DecodeError::UnexpectedKind);
    assert_eq!(error_of(tags_list(200, b"{}")), DecodeError::MissingField);
    assert_eq!(error_of(tags_list(200, b"[")), DecodeError::Malformed);
    assert_eq!(
        error_of(tags_list(200, br#"{"data":{"results":{"entities":[]}}}"#)),
        DecodeError::MissingField
    );
}

#[test]
fn platforms_come_from_the_module_that_lists_them() {
    let body = r#"{"data":{"results":{"modules":[
        {"id":"TopTags","content":[{"entity":{"urn":"t"}}]},
        {"id":"Platforms","content":[
            {"entity":{"urn":"p1","name":"hive","properties":{"name":"Hive","class":"OTHERS"}}},
            {"entity":{"urn":"p2","name":"kafka","properties":{"name":"Kafka","class":"MESSAGE_BROKER"}}}
        ]},
        {"id":"RecentlyViewedEntities"},
        {"id":"Platforms","content":[
            {"entity":{"urn":"p3","name":"s3","properties":{"name":"S3","class":"FILE_SYSTEM"}}}
        ]}
    ]}}}"#;
    let platforms = platforms_list(200, body.as_bytes()).unwrap();
    assert_eq!(platforms.len(), 3);
    assert!(platforms.paging().is_none());
    assert_eq!(
        platforms.to_json(),
        "{\"data\":[{\"platform\":{\"id\":\"p1\",\"name\":\"hive\",\"title\":\"Hive\",\"type\":\"OTHERS\"}},{\"platform\":{\"id\":\"p2\",\"name\":\"kafka\",\"title\":\"Kafka\",\"type\":\"MESSAGE_BROKER\"}},{\"platform\":{\"id\":\"p3\",\"name\":\"s3\",\"title\":\"S3\",\"type\":\"FILE_SYSTEM\"}}],\"paging\":null}"
    );
}

#[test]
fn platforms_of_no_module_are_none() {
    let platforms = platforms_list(200, br#"{"data":{"results":{"modules":[]}}}"#).unwrap();
    assert_eq!(platforms.len(), 0);
    assert_eq!(platforms.to_json(), "{\"data\":[],\"paging\":null}");
    let platforms =
        platforms_list(200, br#"{"data":{"results":{"modules":[{"id":"TopTags"}]}}}"#).unwrap();
    assert_eq!(platforms.len(), 0);
    assert_eq!(
        error_of(platforms_list(200, br#"{"data":{"results":{"modules":[{"id":"Platforms","content":[{"entity":{"urn":"p"}}]}]}}}"#)),
        DecodeError::MissingField
    );
}

#[test]
fn datasets_by_tags_from_request_to_envelope() {
    let requests = datasets::Requests::new();
    let params = QueryParams::from_query(Some("tags=finance&offset=0&limit=5")).unwrap();
    let body = requests.by_query(&params).to_json();
    let sent = Json::parse(body.as_bytes()).unwrap();
    let input = sent.member("variables").unwrap().member("input").unwrap();
    assert_eq!(input.text("query"), Ok("tags:finance"));
    assert!(input.text("query").unwrap().contains("tags:finance"));
    assert_eq!(input.int32("start"), Ok(0));
    assert_eq!(input.int32("count"), Ok(5));
    assert_eq!(input.text("type"), Ok("DATASET"));
    assert!(sent.text("query").unwrap().contains("query by_query($input: SearchInput!)"));

    let entity = r#"{"entity":{"__typename":"Dataset","urn":"u","name":"n"}}"#;
    let answer = format!(
        "{{\"data\":{{\"results\":{{\"__typename\":\"SearchResults\",\"start\":0,\"count\":5,\"total\":12,\"entities\":[{entity},{entity},{entity},{entity},{entity}]}}}}}}"
    );
    let datasets = datasets_list(200, answer.as_bytes()).unwrap();
    assert_eq!(datasets.len(), 5);
    let paging = datasets.paging().unwrap();
    assert_eq!((paging.offset(), paging.limit(), paging.total()), (0, 5, 12));
    assert!(datasets.to_json().ends_with("\"paging\":{\"total\":12,\"limit\":5,\"offset\":0}}"));
}

#[test]
fn requests_for_datasets() {
    let requests = datasets::Requests::new();
    let body = requests.by_id("urn:li:dataset:1").to_json();
    let sent = Json::parse(body.as_bytes()).unwrap();
    assert!(sent.text("query").unwrap().contains("entity: dataset(urn: $urn)"));
    assert!(sent.text("query").unwrap().contains("schema: schemaMetadata"));
    assert_eq!(sent.member("variables").unwrap().text("urn"), Ok("urn:li:dataset:1"));

    let params = QueryParams::from_query(Some("name=ord&limit=3")).unwrap();
    let body = requests.by_query(&params).to_json();
    assert!(body.contains("autoComplete(input: $input)"));
    assert!(body.ends_with("\"variables\":{\"input\":{\"limit\":3,\"query\":\"ord\",\"type\":\"DATASET\"}}}"));

    let params = QueryParams::from_query(Some("query=ord&limit=3&offset=6")).unwrap();
    let body = requests.by_query(&params).to_json();
    assert!(body.ends_with("\"variables\":{\"input\":{\"start\":6,\"count\":3,\"query\":\"*ord*\",\"type\":\"DATASET\"}}}"));

    let params = QueryParams::from_query(None).unwrap();
    let body = requests.by_query(&params).to_json();
    assert!(body.ends_with("\"variables\":{\"input\":{\"start\":0,\"count\":10,\"query\":\"*\",\"type\":\"DATASET\"}}}"));

    let body = requests.add_tag("urn:li:dataset:1", "urn:li:tag:x").to_json();
    assert!(body.contains("addTag(input: $input)"));
    assert!(body.ends_with("{\"tagUrn\":\"urn:li:tag:x\",\"resourceUrn\":\"urn:li:dataset:1\"}}}"));
    let body = requests.remove_tag("urn:li:dataset:1", "urn:li:tag:x").to_json();
    assert!(body.contains("removeTag(input: $input)"));
}

#[test]
fn requests_for_tags() {
    let requests = tags::Requests::new();
    let body = requests.by_id("urn:li:tag:x").to_json();
    assert!(body.contains("entity: tag(urn: $urn)"));
    let params = QueryParams::from_query(Some("query=fin")).unwrap();
    let body = requests.by_query(&params).unwrap().to_json();
    assert!(body.ends_with("\"variables\":{\"input\":{\"start\":0,\"count\":10,\"query\":\"*fin*\",\"type\":\"TAG\"}}}"));
    let params = QueryParams::from_query(Some("tags=fin")).unwrap();
    assert!(requests.by_query(&params).is_none());
    let params = QueryParams::from_query(Some("limit=2")).unwrap();
    let body = requests.datasets_by_tag("urn:li:tag:x", &params).to_json();
    assert!(body.ends_with("\"variables\":{\"input\":{\"start\":0,\"count\":2,\"query\":\"*\",\"type\":\"DATASETS\",\"filters\":{\"field\":\"tags\",\"value\":\"urn:li:tag:x\"}}}}"));
    assert!(body.contains("... on Dataset {"));
}

#[test]
fn requests_for_platforms() {
    let requests = platforms::Requests::new();
    let body = requests.by_id("urn:li:dataPlatform:hive").to_json();
    assert!(body.contains("entity: dataPlatform(urn: $urn)"));
    let params = QueryParams::from_query(Some("limit=4&offset=9")).unwrap();
    let body = requests.by_query(&params).to_json();
    assert!(body.ends_with("\"variables\":{\"input\":{\"limit\":4,\"userUrn\":\"urn:li:corpuser:datahub\",\"requestContext\":{\"scenario\":\"HOME\"}}}}"));
    let body = requests.datasets_by_platform("urn:li:dataPlatform:hive", &params).to_json();
    assert!(body.ends_with("\"variables\":{\"input\":{\"start\":9,\"count\":4,\"query\":\"*\",\"type\":\"DATASETS\",\"filters\":{\"field\":\"platform\",\"value\":\"urn:li:dataPlatform:hive\"}}}}"));
}

#[test]
fn creation_of_a_tag() {
    let payload = requests::CreateTag { name: "finance".to_string(), description: Some("money \"matters\"".to_string()) };
    assert_eq!(tags::urn_of("finance"), "urn:li:tag:finance");
    assert_eq!(
        tags::creation_body(&payload),
        "{\"entity\":{\"value\":{\"com.linkedin.metadata.snapshot.TagSnapshot\":{\"urn\":\"urn:li:tag:finance\",\"aspects\":[{\"com.linkedin.tag.TagProperties\":{\"name\":\"finance\",\"description\":\"money \\\"matters\\\"\"}}]}}}}"
    );
    assert_eq!(
        tags::created_tag(&payload).to_json(),
        "{\"id\":\"urn:li:tag:finance\",\"name\":\"finance\",\"description\":\"money \\\"matters\\\"\"}"
    );
    let payload = requests::CreateTag { name: "x".to_string(), description: None };
    assert_eq!(
        tags::creation_body(&payload),
        "{\"entity\":{\"value\":{\"com.linkedin.metadata.snapshot.TagSnapshot\":{\"urn\":\"urn:li:tag:x\",\"aspects\":[{\"com.linkedin.tag.TagProperties\":{\"name\":\"x\",\"description\":\"\"}}]}}}}"
    );
    assert_eq!(
        tags::created_tag(&payload).to_json(),
        "{\"id\":\"urn:li:tag:x\",\"name\":\"x\",\"description\":\"\"}"
    );
}

#[test]
fn deletion_of_a_tag() {
    assert_eq!(
        tags::deletion_body("urn:li:tag:x"),
        "{\"entity\":{\"value\":{\"com.linkedin.metadata.snapshot.TagSnapshot\":{\"urn\":\"urn:li:tag:x\",\"aspects\":[{\"com.linkedin.common.Status\":{\"removed\":true}}]}}}}"
    );
}

#[test]
fn tag_is_made_of_its_parts() {
    let tag = Tag::new("urn:li:tag:x".to_string(), None, Some("d".to_string()));
    assert_eq!(tag.to_json(), "{\"id\":\"urn:li:tag:x\",\"name\":null,\"description\":\"d\"}");
}
