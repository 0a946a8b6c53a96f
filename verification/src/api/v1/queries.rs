//! The GraphQL documents, one per upstream operation. Each is written over
//! several lines and sent on one: see `compacted`.

use vstd::prelude::*;
use vstd::string::StringExecFns;
use crate::text::{compact, compacted, remove_char, without_char};

verus! {

/// The document that looks one entity up by its URN, before it is put on one
/// line. `entity` is the upstream field that serves the kind of entity,
/// `values` the fields selected of it.
pub open spec fn by_id_template(entity: Seq<char>, values: Seq<char>) -> Seq<char> {
    "\n        query by_id($urn: String!) {\n            entity: "@ + entity
        + "(urn: $urn) { "@ + values + " }\n        }\n    "@
}

/// The document that completes a name, before it is put on one line.
pub open spec fn by_name_template(values: Seq<char>) -> Seq<char> {
    "\n        query by_name($input: AutoCompleteInput!) {\n            results: autoComplete(input: $input) {\n                __typename\n                entities { "@
        + values + " }\n            }\n        }\n    "@
}

/// The document that searches, before it is put on one line.
pub open spec fn by_query_template(values: Seq<char>) -> Seq<char> {
    "\n        query by_query($input: SearchInput!) {\n            results: search(input: $input) {\n                __typename start count total\n                entities: searchResults { entity { "@
        + values + " } }\n            }\n        }\n    "@
}

/// The document that lists the recommendation modules, before it is put on
/// one line.
pub open spec fn platforms_template(values: Seq<char>) -> Seq<char> {
    "\n        query platforms($input: ListRecommendationsInput!) { \n            results: listRecommendations(input: $input) {\n                modules {\n                    id: moduleId\n                    content { entity { "@
        + values + " } }\n                }\n            }\n        }\n    "@
}

/// The mutation that ties a tag to a resource, before it is put on one line.
pub open spec fn add_tag_template() -> Seq<char> {
    "mutation add_tag($input: TagAssociationInput!) {\n        success: addTag(input: $input)\n    }"@
}

/// The mutation that unties a tag from a resource, before it is put on one line.
pub open spec fn remove_tag_template() -> Seq<char> {
    "mutation remove_tag($input: TagAssociationInput!) {\n        success: removeTag(input: $input)\n    }"@
}

/// The query that looks one entity up by the variable `urn`.
pub fn by_id(entity: &str, values: &str) -> (r: String)
    ensures
        r@ == compacted(by_id_template(entity@, values@)),
{
    let mut text = "\n        query by_id($urn: String!) {\n            entity: ".to_owned();
    text.append(entity);
    text.append("(urn: $urn) { ");
    text.append(values);
    text.append(" }\n        }\n    ");
    compact(text.as_str())
}

/// The query that completes a name from the variable `input`.
pub fn by_name(values: &str) -> (r: String)
    ensures
        r@ == compacted(by_name_template(values@)),
{
    let mut text = "\n        query by_name($input: AutoCompleteInput!) {\n            results: autoComplete(input: $input) {\n                __typename\n                entities { ".to_owned();
    text.append(values);
    text.append(" }\n            }\n        }\n    ");
    compact(text.as_str())
}

/// The query that searches by the variable `input`; it asks for the page and
/// the total beside the entities.
pub fn by_query(values: &str) -> (r: String)
    ensures
        r@ == compacted(by_query_template(values@)),
{
    let mut text = "\n        query by_query($input: SearchInput!) {\n            results: search(input: $input) {\n                __typename start count total\n                entities: searchResults { entity { ".to_owned();
    text.append(values);
    text.append(" } }\n            }\n        }\n    ");
    compact(text.as_str())
}

/// The mutation that ties a tag to a resource.
pub fn add_tag() -> (r: String)
    ensures
        r@ == compacted(add_tag_template()),
{
    compact("mutation add_tag($input: TagAssociationInput!) {\n        success: addTag(input: $input)\n    }")
}

/// The mutation that unties a tag from a resource. Its line feeds are taken
/// out; its spaces stay as they are.
pub fn remove_tag() -> (r: String)
    ensures
        r@ == without_char(remove_tag_template(), '\n'),
{
    remove_char("mutation remove_tag($input: TagAssociationInput!) {\n        success: removeTag(input: $input)\n    }", '\n')
}

/// The query that lists the recommendation modules with what each holds.
pub fn platforms(values: &str) -> (r: String)
    ensures
        r@ == compacted(platforms_template(values@)),
{
    let mut text = "\n        query platforms($input: ListRecommendationsInput!) { \n            results: listRecommendations(input: $input) {\n                modules {\n                    id: moduleId\n                    content { entity { ".to_owned();
    text.append(values);
    text.append(" } }\n                }\n            }\n        }\n    ");
    compact(text.as_str())
}

} // verus!
