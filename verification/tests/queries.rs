use data_service::api::v1::queries;

#[test]
fn add_tag_is_on_one_line() {
    assert_eq!(
        queries::add_tag(),
        "mutation add_tag($input: TagAssociationInput!) {    success: addTag(input: $input)  }"
    );
}

#[test]
fn remove_tag_keeps_its_spaces() {
    assert_eq!(
        queries::remove_tag(),
        "mutation remove_tag($input: TagAssociationInput!) {        success: removeTag(input: $input)    }"
    );
}

#[test]
fn by_id_names_the_field_and_the_selection() {
    assert_eq!(
        queries::by_id("tag", "urn"),
        "    query by_id($urn: String!) {      entity: tag(urn: $urn) { urn }    }  "
    );
}

#[test]
fn by_id_is_the_template_on_one_line() {
    let values = "\n    urn\n    __typename\n    ... on Tag {\n        urn\n    }\n";
    for entity in ["tag", "dataset", "dataPlatform"] {
        let expected = format!(
            "\n        query by_id($urn: String!) {{\n            entity: {entity}(urn: $urn) {{ {values} }}\n        }}\n    "
        )
        .replace('\n', "")
        .replace("  ", " ");
        assert_eq!(queries::by_id(entity, values), expected);
    }
}

#[test]
fn by_name_is_the_template_on_one_line() {
    let values = "urn __typename";
    let expected = format!(
        "\n        query by_name($input: AutoCompleteInput!) {{\n            results: autoComplete(input: $input) {{\n                __typename\n                entities {{ {values} }}\n            }}\n        }}\n    "
    )
    .replace('\n', "")
    .replace("  ", " ");
    assert_eq!(queries::by_name(values), expected);
    assert_eq!(
        queries::by_name(values),
        "    query by_name($input: AutoCompleteInput!) {      results: autoComplete(input: $input) {        __typename        entities { urn __typename }      }    }  "
    );
}

#[test]
fn by_query_asks_for_the_page() {
    let values = "urn";
    let expected = format!(
        "\n        query by_query($input: SearchInput!) {{\n            results: search(input: $input) {{\n                __typename start count total\n                entities: searchResults {{ entity {{ {values} }} }}\n            }}\n        }}\n    "
    )
    .replace('\n', "")
    .replace("  ", " ");
    let text = queries::by_query(values);
    assert_eq!(text, expected);
    assert!(text.contains("__typename start count total"));
    assert!(text.contains("entities: searchResults { entity { urn } }"));
    assert!(!text.contains('\n'));
}

#[test]
fn platforms_lists_the_modules() {
    let values = "urn";
    let expected = format!(
        "\n        query platforms($input: ListRecommendationsInput!) {{ \n            results: listRecommendations(input: $input) {{\n                modules {{\n                    id: moduleId\n                    content {{ entity {{ {values} }} }}\n                }}\n            }}\n        }}\n    "
    )
    .replace('\n', "")
    .replace("  ", " ");
    let text = queries::platforms(values);
    assert_eq!(text, expected);
    assert!(text.contains("id: moduleId"));
}
