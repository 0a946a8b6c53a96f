use data_service::api::v1::{datasets, platforms, queries, tags};
use data_service::datahub;
use data_service::json::Json;

#[test]
fn selection_of_a_dataset() {
    assert_eq!(
        datasets::QUERY_VALUES,
        "\n    urn\n    __typename\n    ... on Dataset {\n        name\n        platform {\n            name\n            properties {\n                name: displayName\n                class: type\n            }\n        }\n        properties {\n            name\n            origin\n        }\n        schema: schemaMetadata {\n            fields {\n                path: fieldPath\n                class: type\n                native: nativeDataType\n            }\n        }\n        sub_types: subTypes {\n            names: typeNames\n        }\n        tags {\n            tags {\n                tag {\n                    urn\n                    properties {\n                        name\n                        description\n                    }\n                }\n            }\n        }\n    }\n"
    );
    assert_eq!(datasets::CLASS, "DATASET");
    assert_eq!(datasets::FIELD, "dataset");
}

#[test]
fn selection_of_a_tag() {
    assert_eq!(
        tags::QUERY_VALUES,
        "\n    urn\n    __typename\n    ... on Tag {\n        urn\n        properties {\n            name\n            description\n        }\n    }\n"
    );
    assert_eq!(tags::CLASS, "TAG");
    assert_eq!(tags::FIELD, "tag");
    assert_eq!(tags::DATASETS_CLASS, "DATASETS");
    assert_eq!(tags::DATASETS_FILTER, "tags");
}

#[test]
fn selection_of_a_platform() {
    assert_eq!(
        platforms::QUERY_VALUES,
        "\n    urn\n    __typename\n    ... on DataPlatform {\n        name\n        properties {\n            name: displayName\n            class: type\n        }\n    }\n"
    );
    assert_eq!(platforms::FIELD, "dataPlatform");
    assert_eq!(platforms::DATASETS_CLASS, "DATASETS");
    assert_eq!(platforms::DATASETS_FILTER, "platform");
}

#[test]
fn lookup_of_a_tag_sends_the_document_of_the_tag() {
    let requests = tags::Requests::new();
    let body = requests.by_id("urn:li:tag:x").to_json();
    let sent = Json::parse(body.as_bytes()).unwrap();
    assert_eq!(
        sent.text("query"),
        Ok("    query by_id($urn: String!) {      entity: tag(urn: $urn) {   urn  __typename  ... on Tag {    urn    properties {      name      description    }  } }    }  ")
    );
    assert_eq!(sent.text("query"), Ok(queries::by_id("tag", tags::QUERY_VALUES).as_str()));
}

#[test]
fn documents_are_made_of_the_selections() {
    let requests = datasets::Requests::new();
    let sent = Json::parse(requests.by_id("u").to_json().as_bytes()).unwrap();
    assert_eq!(
        sent.text("query"),
        Ok(queries::by_id("dataset", datasets::QUERY_VALUES).as_str())
    );
    let requests = platforms::Requests::new();
    let sent = Json::parse(requests.by_id("u").to_json().as_bytes()).unwrap();
    assert_eq!(
        sent.text("query"),
        Ok(queries::by_id("dataPlatform", platforms::QUERY_VALUES).as_str())
    );
}

#[test]
fn upstream_is_where_it_is() {
    assert_eq!(datahub::INGEST_ENDPOINT, "http://localhost:8080/entities?action=ingest");
    assert_eq!(datahub::GRAPHQL_ENDPOINT, "http://localhost:8080/api/graphql");
    assert_eq!(datahub::ACTOR_HEADER, "X-DataHub-Actor");
    assert_eq!(datahub::ACTOR, "urn:li:corpuser:datahub");
}
