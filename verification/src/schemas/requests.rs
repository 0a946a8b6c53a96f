//! What the REST surface is asked with: the bodies of its requests.

use vstd::prelude::*;
use crate::decode::{model_of, Decode};
use crate::json::{DecodeError, Json, JsonModel};

verus! {

/// `CreateTag` as a mathematical value.
pub struct CreateTagModel {
    pub name: Seq<char>,
    pub description: Option<Seq<char>>,
}

/// `AddTag` as a mathematical value.
pub struct AddTagModel {
    pub tag: Seq<char>,
}

/// The tag to create: its name, and a description where one is given.
#[derive(Debug, PartialEq, Eq)]
pub struct CreateTag {
    pub name: String,
    pub description: Option<String>,
}

/// The tag to tie to a resource, by its URN.
#[derive(Debug, PartialEq, Eq)]
pub struct AddTag {
    pub tag: String,
}

impl View for CreateTag {
    type V = CreateTagModel;

    open spec fn view(&self) -> CreateTagModel {
        CreateTagModel { name: self.name@, description: model_of(self.description) }
    }
}

impl View for AddTag {
    type V = AddTagModel;

    open spec fn view(&self) -> AddTagModel {
        AddTagModel { tag: self.tag@ }
    }
}

/// The text under `key`, where it is there and not null.
pub open spec fn optional_text(j: JsonModel, key: Seq<char>) -> Result<Option<Seq<char>>, DecodeError> {
    match j.optional(key) {
        Ok(Some(JsonModel::Text(s))) => Ok(Some(s)),
        Ok(Some(_)) => Err(DecodeError::WrongShape),
        Ok(None) => Ok(None),
        Err(e) => Err(e),
    }
}

impl<'a> Decode<'a> for CreateTag {
    open spec fn decoded(j: JsonModel) -> Result<CreateTagModel, DecodeError> {
        let name = j.text("name"@);
        let description = optional_text(j, "description"@);
        if name is Err {
            Err(name->Err_0)
        } else if description is Err {
            Err(description->Err_0)
        } else {
            Ok(CreateTagModel { name: name->Ok_0, description: description->Ok_0 })
        }
    }

    fn decode(j: &'a Json) -> (r: Result<CreateTag, DecodeError>) {
        let name = j.text("name")?;
        let description = match j.optional("description") {
            Ok(Some(Json::Text(s))) => Some(s.clone()),
            Ok(Some(_)) => {
                return Err(DecodeError::WrongShape);
            },
            Ok(None) => None,
            Err(e) => {
                return Err(e);
            },
        };
        Ok(CreateTag { name: name.to_owned(), description })
    }
}

impl<'a> Decode<'a> for AddTag {
    open spec fn decoded(j: JsonModel) -> Result<AddTagModel, DecodeError> {
        match j.text("tag"@) {
            Ok(tag) => Ok(AddTagModel { tag }),
            Err(e) => Err(e),
        }
    }

    fn decode(j: &'a Json) -> (r: Result<AddTag, DecodeError>) {
        match j.text("tag") {
            Ok(tag) => Ok(AddTag { tag: tag.to_owned() }),
            Err(e) => Err(e),
        }
    }
}

} // verus!
