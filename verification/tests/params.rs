use data_service::api::v1::params::{find_param, parse_query, ParamError, QueryParams, QueryType};

fn pairs(items: &[(&str, &str)]) -> Vec<(String, String)> {
    items.iter().map(|(k, v)| (k.to_string(), v.to_string())).collect()
}

fn kind(q: &QueryType) -> (&'static str, String) {
    match q {
        QueryType::All => ("all", String::new()),
        QueryType::Name(s) => ("name", s.clone()),
        QueryType::Tags(s) => ("tags", s.clone()),
        QueryType::Query(s) => ("query", s.clone()),
    }
}

fn read(query: Option<&str>) -> (&'static str, String, i32, i32) {
    match QueryParams::from_query(query) {
        Ok(p) => {
            let (k, v) = kind(&p.query);
            (k, v, p.limit, p.start)
        }
        Err(e) => panic!("refused: {:?}", e),
    }
}

fn refused(query: &str) -> ParamError {
    match QueryParams::from_query(Some(query)) {
        Ok(_) => panic!("read {:?}", query),
        Err(e) => e,
    }
}

#[test]
fn parse_query_splits_runs_and_pairs() {
    assert_eq!(
        parse_query("limit=5&offset=2"),
        pairs(&[("limit", "5"), ("offset", "2")])
    );
    assert_eq!(parse_query("a=b=c"), pairs(&[("a", "b")]));
    assert_eq!(parse_query("a="), pairs(&[("a", "")]));
    assert_eq!(parse_query("=b"), pairs(&[("", "b")]));
}

#[test]
fn parse_query_takes_a_bare_run_for_the_query() {
    assert_eq!(parse_query("sales"), pairs(&[("query", "sales")]));
    assert_eq!(parse_query(""), pairs(&[("query", "")]));
    assert_eq!(
        parse_query("a=1&&b"),
        pairs(&[("a", "1"), ("query", ""), ("query", "b")])
    );
}

#[test]
fn find_param_takes_the_last_of_a_name() {
    let p = pairs(&[("limit", "1"), ("x", "y"), ("limit", "2")]);
    assert_eq!(find_param(&p, "limit").map(|s| s.as_str()), Some("2"));
    assert_eq!(find_param(&p, "x").map(|s| s.as_str()), Some("y"));
    assert_eq!(find_param(&p, "offset"), None);
    assert_eq!(find_param(&Vec::new(), "limit"), None);
}

#[test]
fn no_query_string_asks_for_the_first_page_of_everything() {
    assert_eq!(read(None), ("all", String::new(), 10, 0));
}

#[test]
fn limit_and_offset_are_read() {
    assert_eq!(read(Some("limit=5&offset=20")), ("all", String::new(), 5, 20));
    assert_eq!(read(Some("offset=-3")), ("all", String::new(), 10, -3));
    assert_eq!(read(Some("limit=1&limit=2")), ("all", String::new(), 2, 0));
}

#[test]
fn each_kind_of_search_is_recognised() {
    assert_eq!(read(Some("query=sales")), ("query", "sales".to_string(), 10, 0));
    assert_eq!(read(Some("name=ord")), ("name", "ord".to_string(), 10, 0));
    assert_eq!(
        read(Some("tags=finance&offset=0&limit=5")),
        ("tags", "finance".to_string(), 5, 0)
    );
    assert_eq!(read(Some("sales")), ("query", "sales".to_string(), 10, 0));
    assert_eq!(read(Some("")), ("query", String::new(), 10, 0));
}

#[test]
fn query_goes_before_name_and_name_before_tags() {
    assert_eq!(
        read(Some("tags=t&name=n&query=q")),
        ("query", "q".to_string(), 10, 0)
    );
    assert_eq!(read(Some("tags=t&name=n")), ("name", "n".to_string(), 10, 0));
    assert_eq!(read(Some("name=n&tags=t")), ("name", "n".to_string(), 10, 0));
    assert_eq!(read(Some("query=q&tags=t")), ("query", "q".to_string(), 10, 0));
}

#[test]
fn a_number_that_is_none_is_refused() {
    assert_eq!(refused("limit=ten"), ParamError::Limit);
    assert_eq!(refused("limit="), ParamError::Limit);
    assert_eq!(refused("limit=2147483648"), ParamError::Limit);
    assert_eq!(refused("offset=1.5"), ParamError::Offset);
    assert_eq!(refused("offset=x&limit=y"), ParamError::Limit);
    assert_eq!(refused("limit=1&offset="), ParamError::Offset);
}
