use data_service::api::v1::graphql::{
    AddTagFactory, FilterFactory, GetAllFactory, GetOneFactory, NameFactory, PlatformsFactory,
    QueryFactory, RemoveTagFactory, TagsFactory,
};
use data_service::api::v1::params::{QueryParams, QueryType};
use data_service::api::v1::queries;
use data_service::json::Json;
use data_service::schemas::{
    AutoCompleteInput, Filter, GraphQL, ListRecommendationsInput, SearchInput,
    TagAssociationInput, Variables,
};

fn page(start: i32, limit: i32) -> QueryParams {
    QueryParams { query: QueryType::All, limit, start }
}

fn variables_of(body: &str) -> String {
    let start = body.find(",\"variables\":").unwrap() + ",\"variables\":".len();
    body[start..body.len() - 1].to_string()
}

#[test]
fn filter_is_an_object_of_field_and_value() {
    assert_eq!(
        Filter::new("tags", "urn:li:tag:x").to_json(),
        "{\"field\":\"tags\",\"value\":\"urn:li:tag:x\"}"
    );
}

#[test]
fn autocomplete_input_has_a_limit_and_no_page() {
    assert_eq!(
        AutoCompleteInput::new("TAG", "fin", 10).to_json(),
        "{\"limit\":10,\"query\":\"fin\",\"type\":\"TAG\"}"
    );
}

#[test]
fn search_input_leaves_an_absent_filter_out() {
    assert_eq!(
        SearchInput::new("DATASET", "*".to_string(), 0, 10, None).to_json(),
        "{\"start\":0,\"count\":10,\"query\":\"*\",\"type\":\"DATASET\"}"
    );
    assert_eq!(
        SearchInput::new("DATASET", "*".to_string(), 20, 5, Some(Filter::new("platform", "p")))
            .to_json(),
        "{\"start\":20,\"count\":5,\"query\":\"*\",\"type\":\"DATASET\",\"filters\":{\"field\":\"platform\",\"value\":\"p\"}}"
    );
}

#[test]
fn search_input_writes_negative_numbers() {
    assert_eq!(
        SearchInput::new("TAG", "q".to_string(), -1, i32::MIN, None).to_json(),
        "{\"start\":-1,\"count\":-2147483648,\"query\":\"q\",\"type\":\"TAG\"}"
    );
}

#[test]
fn tag_association_input_names_both_urns() {
    assert_eq!(
        TagAssociationInput::new("urn:li:dataset:d", "urn:li:tag:t").to_json(),
        "{\"tagUrn\":\"urn:li:tag:t\",\"resourceUrn\":\"urn:li:dataset:d\"}"
    );
}

#[test]
fn recommendations_input_asks_for_the_home_page() {
    assert_eq!(
        ListRecommendationsInput::new("urn:li:corpuser:datahub", 3).to_json(),
        "{\"limit\":3,\"userUrn\":\"urn:li:corpuser:datahub\",\"requestContext\":{\"scenario\":\"HOME\"}}"
    );
}

#[test]
fn variables_are_an_object_of_one_member() {
    assert_eq!(Variables::Urn("u").to_json(), "{\"urn\":\"u\"}");
    assert_eq!(
        Variables::AutoCompleteInput(AutoCompleteInput::new("TAG", "a", 1)).to_json(),
        "{\"input\":{\"limit\":1,\"query\":\"a\",\"type\":\"TAG\"}}"
    );
    assert_eq!(
        Variables::TagAssociationInput(TagAssociationInput::new("r", "t")).to_json(),
        "{\"input\":{\"tagUrn\":\"t\",\"resourceUrn\":\"r\"}}"
    );
    assert_eq!(
        Variables::ListRecommendationsInput(ListRecommendationsInput::new("u", 2)).to_json(),
        "{\"input\":{\"limit\":2,\"userUrn\":\"u\",\"requestContext\":{\"scenario\":\"HOME\"}}}"
    );
    assert_eq!(
        Variables::SearchInput(SearchInput::new("TAG", "*".to_string(), 1, 2, None)).to_json(),
        "{\"input\":{\"start\":1,\"count\":2,\"query\":\"*\",\"type\":\"TAG\"}}"
    );
}

#[test]
fn body_is_query_and_variables() {
    let g = GraphQL::new("query q($urn: String!) { x }", Variables::Urn("urn:li:tag:\"odd\""));
    assert_eq!(
        g.to_json(),
        "{\"query\":\"query q($urn: String!) { x }\",\"variables\":{\"urn\":\"urn:li:tag:\\\"odd\\\"\"}}"
    );
}

#[test]
fn body_is_a_json_document() {
    let factory = GetOneFactory::new("dataset", "\n    urn\n    \"quoted\"\n");
    let body = factory.body("urn:li:dataset:(a,b,PROD)").to_json();
    let json = Json::parse(body.as_bytes()).unwrap();
    assert_eq!(json.text("query"), Ok(queries::by_id("dataset", "\n    urn\n    \"quoted\"\n").as_str()));
    let variables = json.member("variables").unwrap();
    assert_eq!(variables.text("urn"), Ok("urn:li:dataset:(a,b,PROD)"));
}

#[test]
fn lookup_carries_one_urn_and_no_page() {
    let factory = GetOneFactory::new("tag", "urn");
    for urn in ["urn:li:tag:a", "", "x y"] {
        let body = factory.body(urn).to_json();
        let json = Json::parse(body.as_bytes()).unwrap();
        match json.member("variables").unwrap() {
            Json::Object(members) => {
                assert_eq!(members.len(), 1);
                assert_eq!(members[0].0, "urn");
            }
            _ => panic!("variables are no object"),
        }
        assert_eq!(variables_of(&body), format!("{{\"urn\":\"{urn}\"}}"));
        assert!(!body.contains("\"start\""));
        assert!(!body.contains("\"count\""));
        assert!(!body.contains("\"limit\""));
    }
}

#[test]
fn get_all_searches_for_everything() {
    let factory = GetAllFactory::new("DATASET", "urn");
    let params = page(30, 15);
    assert_eq!(
        variables_of(&factory.body(&params).to_json()),
        "{\"input\":{\"start\":30,\"count\":15,\"query\":\"*\",\"type\":\"DATASET\"}}"
    );
}

#[test]
fn name_completes_with_a_limit_only() {
    let factory = NameFactory::new("TAG", "urn");
    let params = page(30, 15);
    assert_eq!(
        variables_of(&factory.body("fin", &params).to_json()),
        "{\"input\":{\"limit\":15,\"query\":\"fin\",\"type\":\"TAG\"}}"
    );
}

#[test]
fn tags_search_by_a_qualified_token() {
    let factory = TagsFactory::new("DATASET", "urn");
    let params = page(0, 5);
    assert_eq!(
        variables_of(&factory.body("finance", &params).to_json()),
        "{\"input\":{\"start\":0,\"count\":5,\"query\":\"tags:finance\",\"type\":\"DATASET\"}}"
    );
}

#[test]
fn query_is_wrapped_in_wildcards() {
    let factory = QueryFactory::new("DATASET", "urn");
    let params = page(2, 7);
    assert_eq!(
        variables_of(&factory.body("sales", &params).to_json()),
        "{\"input\":{\"start\":2,\"count\":7,\"query\":\"*sales*\",\"type\":\"DATASET\"}}"
    );
    assert_eq!(
        variables_of(&factory.body("", &params).to_json()),
        "{\"input\":{\"start\":2,\"count\":7,\"query\":\"**\",\"type\":\"DATASET\"}}"
    );
    assert_eq!(
        variables_of(&factory.body("**", &params).to_json()),
        "{\"input\":{\"start\":2,\"count\":7,\"query\":\"****\",\"type\":\"DATASET\"}}"
    );
}

#[test]
fn the_wildcard_is_sent_as_it_is() {
    let factory = QueryFactory::new("DATASET", "urn");
    let params = page(2, 7);
    assert_eq!(
        variables_of(&factory.body("*", &params).to_json()),
        "{\"input\":{\"start\":2,\"count\":7,\"query\":\"*\",\"type\":\"DATASET\"}}"
    );
}

#[test]
fn filter_constrains_one_field() {
    let factory = FilterFactory::new("DATASETS", "urn", "tags");
    let params = page(0, 10);
    assert_eq!(
        variables_of(&factory.body("urn:li:tag:pii", &params).to_json()),
        "{\"input\":{\"start\":0,\"count\":10,\"query\":\"*\",\"type\":\"DATASETS\",\"filters\":{\"field\":\"tags\",\"value\":\"urn:li:tag:pii\"}}}"
    );
}

#[test]
fn platforms_are_asked_in_the_name_of_the_actor() {
    let factory = PlatformsFactory::new("urn");
    let params = page(4, 9);
    let body = factory.body(&params).to_json();
    assert_eq!(
        variables_of(&body),
        "{\"input\":{\"limit\":9,\"userUrn\":\"urn:li:corpuser:datahub\",\"requestContext\":{\"scenario\":\"HOME\"}}}"
    );
    let json = Json::parse(body.as_bytes()).unwrap();
    assert_eq!(json.text("query"), Ok(queries::platforms("urn").as_str()));
}

#[test]
fn associations_carry_resource_and_tag() {
    let add = AddTagFactory::new();
    let body = add.body("urn:li:dataset:d", "urn:li:tag:t").to_json();
    assert_eq!(
        body,
        "{\"query\":\"mutation add_tag($input: TagAssociationInput!) {    success: addTag(input: $input)  }\",\"variables\":{\"input\":{\"tagUrn\":\"urn:li:tag:t\",\"resourceUrn\":\"urn:li:dataset:d\"}}}"
    );
    let remove = RemoveTagFactory::new();
    let body = remove.body("urn:li:dataset:d", "urn:li:tag:t").to_json();
    assert_eq!(
        variables_of(&body),
        "{\"input\":{\"tagUrn\":\"urn:li:tag:t\",\"resourceUrn\":\"urn:li:dataset:d\"}}"
    );
    let json = Json::parse(body.as_bytes()).unwrap();
    assert_eq!(json.text("query"), Ok(queries::remove_tag().as_str()));
}
