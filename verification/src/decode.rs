//! Reading the members of a JSON object into the shapes a document is
//! expected to have.

use vstd::prelude::*;
use crate::json::{DecodeError, Json, JsonModel};

verus! {

/// The models of a run of values.
pub open spec fn models_of<T: View>(items: Seq<T>) -> Seq<T::V> {
    Seq::new(items.len(), |i: int| items[i]@)
}

/// The model of a value that may be absent.
pub open spec fn model_of<T: View>(item: Option<T>) -> Option<T::V> {
    match item {
        Some(t) => Some(t@),
        None => None,
    }
}

/// Whether an outcome is the one expected: the value whose model is expected,
/// or the error expected.
pub open spec fn agrees<T: View>(r: Result<T, DecodeError>, expected: Result<T::V, DecodeError>) -> bool {
    match r {
        Ok(t) => expected == Ok::<T::V, DecodeError>(t@),
        Err(e) => expected == Err::<T::V, DecodeError>(e),
    }
}

/// As `agrees`, of a value that may be absent.
pub open spec fn agrees_optional<T: View>(
    r: Result<Option<T>, DecodeError>,
    expected: Result<Option<T::V>, DecodeError>,
) -> bool {
    match r {
        Ok(t) => expected == Ok::<Option<T::V>, DecodeError>(model_of(t)),
        Err(e) => expected == Err::<Option<T::V>, DecodeError>(e),
    }
}

/// As `agrees`, of a run of values.
pub open spec fn agrees_list<T: View>(
    r: Result<Vec<T>, DecodeError>,
    expected: Result<Seq<T::V>, DecodeError>,
) -> bool {
    match r {
        Ok(t) => expected == Ok::<Seq<T::V>, DecodeError>(models_of(t@)),
        Err(e) => expected == Err::<Seq<T::V>, DecodeError>(e),
    }
}

impl JsonModel {
    /// The member `key` of an object, which must be there.
    pub open spec fn required(self, key: Seq<char>) -> Result<JsonModel, DecodeError> {
        if !(self is Object) {
            Err(DecodeError::WrongShape)
        } else {
            match self.member(key) {
                Some(m) => Ok(m),
                None => Err(DecodeError::MissingField),
            }
        }
    }

    /// The member `key` of an object, where it is there and not null.
    pub open spec fn optional(self, key: Seq<char>) -> Result<Option<JsonModel>, DecodeError> {
        if !(self is Object) {
            Err(DecodeError::WrongShape)
        } else {
            Ok(self.present(key))
        }
    }

    /// The text under `key`, which must be there.
    pub open spec fn text(self, key: Seq<char>) -> Result<Seq<char>, DecodeError> {
        match self.required(key) {
            Ok(JsonModel::Text(s)) => Ok(s),
            Ok(_) => Err(DecodeError::WrongShape),
            Err(e) => Err(e),
        }
    }

    /// The truth value under `key`, which must be there.
    pub open spec fn flag(self, key: Seq<char>) -> Result<bool, DecodeError> {
        match self.required(key) {
            Ok(JsonModel::Bool(b)) => Ok(b),
            Ok(_) => Err(DecodeError::WrongShape),
            Err(e) => Err(e),
        }
    }

    /// The number under `key`, which must be there and fit in 32 signed bits.
    pub open spec fn int32(self, key: Seq<char>) -> Result<i32, DecodeError> {
        match self.required(key) {
            Ok(JsonModel::Int(n)) => if -2147483648 <= n <= 2147483647 {
                Ok(n as i32)
            } else {
                Err(DecodeError::WrongShape)
            },
            Ok(_) => Err(DecodeError::WrongShape),
            Err(e) => Err(e),
        }
    }

    /// The list under `key`, which must be there.
    pub open spec fn list(self, key: Seq<char>) -> Result<Seq<JsonModel>, DecodeError> {
        match self.required(key) {
            Ok(JsonModel::List(items)) => Ok(items),
            Ok(_) => Err(DecodeError::WrongShape),
            Err(e) => Err(e),
        }
    }

    /// The list under `key`, where it is there and not null.
    pub open spec fn optional_list(self, key: Seq<char>) -> Result<Option<Seq<JsonModel>>, DecodeError> {
        match self.optional(key) {
            Ok(Some(JsonModel::List(items))) => Ok(Some(items)),
            Ok(Some(_)) => Err(DecodeError::WrongShape),
            Ok(None) => Ok(None),
            Err(e) => Err(e),
        }
    }
}

impl Json {
    /// The member `key` of an object, which must be there.
    pub fn required(&self, key: &str) -> (r: Result<&Json, DecodeError>)
        ensures
            agrees(r, self@.required(key@)),
    {
        match self {
            Json::Object(_) => match self.member(key) {
                Some(m) => Ok(m),
                None => Err(DecodeError::MissingField),
            },
            _ => Err(DecodeError::WrongShape),
        }
    }

    /// The member `key` of an object, where it is there and not null.
    pub fn optional(&self, key: &str) -> (r: Result<Option<&Json>, DecodeError>)
        ensures
            agrees_optional(r, self@.optional(key@)),
    {
        match self {
            Json::Object(_) => Ok(self.present(key)),
            _ => Err(DecodeError::WrongShape),
        }
    }

    /// The text under `key`, which must be there.
    pub fn text(&self, key: &str) -> (r: Result<&str, DecodeError>)
        ensures
            agrees(r, self@.text(key@)),
    {
        match self.required(key) {
            Ok(Json::Text(s)) => Ok(s.as_str()),
            Ok(_) => Err(DecodeError::WrongShape),
            Err(e) => Err(e),
        }
    }

    /// The truth value under `key`, which must be there.
    pub fn flag(&self, key: &str) -> (r: Result<bool, DecodeError>)
        ensures
            r == self@.flag(key@),
    {
        match self.required(key) {
            Ok(Json::Bool(b)) => Ok(*b),
            Ok(_) => Err(DecodeError::WrongShape),
            Err(e) => Err(e),
        }
    }

    /// The number under `key`, which must be there and fit in 32 signed bits.
    pub fn int32(&self, key: &str) -> (r: Result<i32, DecodeError>)
        ensures
            r == self@.int32(key@),
    {
        match self.required(key) {
            Ok(Json::Int(n)) => if -2147483648 <= *n && *n <= 2147483647 {
                Ok(*n as i32)
            } else {
                Err(DecodeError::WrongShape)
            },
            Ok(_) => Err(DecodeError::WrongShape),
            Err(e) => Err(e),
        }
    }

    /// The list under `key`, which must be there.
    pub fn list(&self, key: &str) -> (r: Result<&Vec<Json>, DecodeError>)
        ensures
            match r {
                Ok(items) => self@.list(key@) == Ok::<Seq<JsonModel>, DecodeError>(models_of(items@)),
                Err(e) => self@.list(key@) == Err::<Seq<JsonModel>, DecodeError>(e),
            },
    {
        match self.required(key) {
            Ok(Json::List(items)) => {
                proof {
                    assert(Json::List(*items)@->List_0 =~= models_of(items@));
                }
                Ok(items)
            },
            Ok(_) => Err(DecodeError::WrongShape),
            Err(e) => Err(e),
        }
    }
}

/// A shape that a JSON document can be decoded to.
pub trait Decode<'a>: Sized + View {
    /// What the document `j` decodes to, or why it does not.
    spec fn decoded(j: JsonModel) -> Result<Self::V, DecodeError>;

    /// Decodes the document `j`, or says why it cannot be.
    fn decode(j: &'a Json) -> (r: Result<Self, DecodeError>)
        ensures
            agrees(r, Self::decoded(j@)),
    ;
}

/// What a run of documents decodes to: each in turn, up to the first that
/// does not.
pub open spec fn decoded_items<'a, T: Decode<'a>>(items: Seq<JsonModel>) -> Result<Seq<T::V>, DecodeError>
    decreases items.len(),
{
    if items.len() == 0 {
        Ok(Seq::empty())
    } else {
        match decoded_items::<T>(items.drop_last()) {
            Err(e) => Err(e),
            Ok(before) => match T::decoded(items.last()) {
                Err(e) => Err(e),
                Ok(t) => Ok(before.push(t)),
            },
        }
    }
}

/// What the member `key` decodes to, which must be there.
pub open spec fn decoded_required<'a, T: Decode<'a>>(j: JsonModel, key: Seq<char>) -> Result<
    T::V,
    DecodeError,
> {
    match j.required(key) {
        Err(e) => Err(e),
        Ok(m) => T::decoded(m),
    }
}

/// What the member `key` decodes to, where it is there and not null.
pub open spec fn decoded_optional<'a, T: Decode<'a>>(j: JsonModel, key: Seq<char>) -> Result<
    Option<T::V>,
    DecodeError,
> {
    match j.optional(key) {
        Err(e) => Err(e),
        Ok(None) => Ok(None),
        Ok(Some(m)) => match T::decoded(m) {
            Err(e) => Err(e),
            Ok(t) => Ok(Some(t)),
        },
    }
}

/// What the list under `key` decodes to, which must be there.
pub open spec fn decoded_list<'a, T: Decode<'a>>(j: JsonModel, key: Seq<char>) -> Result<
    Seq<T::V>,
    DecodeError,
> {
    match j.list(key) {
        Err(e) => Err(e),
        Ok(items) => decoded_items::<T>(items),
    }
}

/// What the list under `key` decodes to, where it is there and not null.
pub open spec fn decoded_optional_list<'a, T: Decode<'a>>(j: JsonModel, key: Seq<char>) -> Result<
    Option<Seq<T::V>>,
    DecodeError,
> {
    match j.optional_list(key) {
        Err(e) => Err(e),
        Ok(None) => Ok(None),
        Ok(Some(items)) => match decoded_items::<T>(items) {
            Err(e) => Err(e),
            Ok(ts) => Ok(Some(ts)),
        },
    }
}

/// Decodes a run of documents, each in turn, up to the first that fails.
pub fn decode_items<'a, T: Decode<'a>>(items: &'a Vec<Json>) -> (r: Result<Vec<T>, DecodeError>)
    ensures
        agrees_list(r, decoded_items::<T>(models_of(items@))),
{
    let ghost all = models_of(items@);
    let mut out: Vec<T> = Vec::new();
    let mut i: usize = 0;
    proof {
        assert(all.take(0) =~= Seq::<JsonModel>::empty());
        assert(models_of(out@) =~= Seq::<T::V>::empty());
    }
    while i < items.len()
        invariant
            i <= items@.len(),
            all == models_of(items@),
            decoded_items::<T>(all.take(i as int)) == Ok::<Seq<T::V>, DecodeError>(models_of(out@)),
        decreases items@.len() - i,
    {
        let ghost before = models_of(out@);
        proof {
            assert(all.take(i + 1).drop_last() =~= all.take(i as int));
            assert(all.take(i + 1).last() == items@[i as int]@);
        }
        match T::decode(&items[i]) {
            Ok(t) => {
                out.push(t);
                proof {
                    assert(models_of(out@) =~= before.push(t@));
                }
            },
            Err(e) => {
                proof {
                    lemma_first_failure_stays::<T>(all, i + 1);
                }
                return Err(e);
            },
        }
        i = i + 1;
    }
    proof {
        assert(all.take(i as int) =~= all);
    }
    Ok(out)
}

/// Where the first `n` documents of a run do not decode, the run does not,
/// and for the same reason.
pub proof fn lemma_first_failure_stays<'a, T: Decode<'a>>(items: Seq<JsonModel>, n: int)
    requires
        0 <= n <= items.len(),
        decoded_items::<T>(items.take(n)) is Err,
    ensures
        decoded_items::<T>(items) == decoded_items::<T>(items.take(n)),
    decreases items.len() - n,
{
    if n < items.len() {
        assert(items.take(n + 1).drop_last() =~= items.take(n));
        lemma_first_failure_stays::<T>(items, n + 1);
    } else {
        assert(items.take(n) =~= items);
    }
}

/// Decodes the member `key`, which must be there.
pub fn decode_required<'a, T: Decode<'a>>(j: &'a Json, key: &str) -> (r: Result<T, DecodeError>)
    ensures
        agrees(r, decoded_required::<T>(j@, key@)),
{
    match j.required(key) {
        Err(e) => Err(e),
        Ok(m) => T::decode(m),
    }
}

/// Decodes the member `key`, where it is there and not null.
pub fn decode_optional<'a, T: Decode<'a>>(j: &'a Json, key: &str) -> (r: Result<Option<T>, DecodeError>)
    ensures
        agrees_optional(r, decoded_optional::<T>(j@, key@)),
{
    match j.optional(key) {
        Err(e) => Err(e),
        Ok(None) => Ok(None),
        Ok(Some(m)) => match T::decode(m) {
            Err(e) => Err(e),
            Ok(t) => Ok(Some(t)),
        },
    }
}

/// Decodes the list under `key`, which must be there.
pub fn decode_list<'a, T: Decode<'a>>(j: &'a Json, key: &str) -> (r: Result<Vec<T>, DecodeError>)
    ensures
        agrees_list(r, decoded_list::<T>(j@, key@)),
{
    match j.list(key) {
        Err(e) => Err(e),
        Ok(items) => decode_items::<T>(items),
    }
}

/// Decodes the list under `key`, where it is there and not null.
pub fn decode_optional_list<'a, T: Decode<'a>>(j: &'a Json, key: &str) -> (r: Result<
    Option<Vec<T>>,
    DecodeError,
>)
    ensures
        match r {
            Ok(Some(ts)) => decoded_optional_list::<T>(j@, key@) == Ok::<Option<Seq<T::V>>, DecodeError>(
                Some(models_of(ts@)),
            ),
            Ok(None) => decoded_optional_list::<T>(j@, key@) == Ok::<Option<Seq<T::V>>, DecodeError>(None),
            Err(e) => decoded_optional_list::<T>(j@, key@) == Err::<Option<Seq<T::V>>, DecodeError>(e),
        },
{
    match j.optional(key) {
        Err(e) => Err(e),
        Ok(None) => Ok(None),
        Ok(Some(Json::List(items))) => {
            proof {
                assert(Json::List(*items)@->List_0 =~= models_of(items@));
            }
            match decode_items::<T>(items) {
                Err(e) => Err(e),
                Ok(ts) => Ok(Some(ts)),
            }
        },
        Ok(Some(_)) => Err(DecodeError::WrongShape),
    }
}

impl<'a> Decode<'a> for &'a str {
    open spec fn decoded(j: JsonModel) -> Result<Seq<char>, DecodeError> {
        match j {
            JsonModel::Text(s) => Ok(s),
            _ => Err(DecodeError::WrongShape),
        }
    }

    fn decode(j: &'a Json) -> (r: Result<&'a str, DecodeError>) {
        match j {
            Json::Text(s) => Ok(s.as_str()),
            _ => Err(DecodeError::WrongShape),
        }
    }
}

} // verus!
