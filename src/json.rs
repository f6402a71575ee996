//! The calls into `serde_json` that the classifier makes, and the plain values
//! that it reads out of a JSON document.
use serde_json::Error as JsonError;
use serde_json::Value;
use vstd::prelude::*;

use crate::{io_kind_of, Error};

verus! {

#[verifier::external_type_specification]
#[verifier::external_body]
pub struct ExValue(serde_json::Value);

#[verifier::external_type_specification]
#[verifier::external_body]
pub struct ExJsonError(JsonError);

/// Whether `serde_json` reads the bytes `b` as a JSON document.
pub uninterp spec fn parses_as_json(b: Seq<u8>) -> bool;

/// The JSON document that `serde_json` reads out of the bytes `b`.
pub uninterp spec fn json_of(b: Seq<u8>) -> Value;

/// The error that `serde_json` reports on the bytes `b`.
pub uninterp spec fn json_error_of(b: Seq<u8>) -> JsonError;

/// Relies on `serde_json::from_slice::<Value>`: it succeeds exactly when the
/// bytes are a JSON document; the document, or the error, depends on the
/// bytes alone.
#[verifier::external_body]
pub(crate) fn from_slice(b: &[u8]) -> (r: Result<Value, JsonError>)
    ensures
        r is Ok <==> parses_as_json(b@),
        r matches Ok(v) ==> v == json_of(b@),
        r matches Err(e) ==> e == json_error_of(b@),
{
    serde_json::from_slice(b)
}

/// Why `serde_json` failed; the same four cases as its own `Category`.
pub enum Category {
    Io,
    Syntax,
    Data,
    Eof,
}

/// Which of the four cases of `serde_json::error::Category` an error falls
/// under.
pub uninterp spec fn category_of(e: JsonError) -> Category;

/// Relies on `serde_json::Error::classify`.
#[verifier::external_body]
fn classify(e: &JsonError) -> (r: Category)
    ensures
        r == category_of(*e),
{
    match e.classify() {
        serde_json::error::Category::Io => Category::Io,
        serde_json::error::Category::Syntax => Category::Syntax,
        serde_json::error::Category::Data => Category::Data,
        serde_json::error::Category::Eof => Category::Eof,
    }
}

/// Relies on `std::io::Error::new`: the error has the kind it is made with,
/// here `Other`.
#[verifier::external_body]
fn other_io_error(e: JsonError) -> (r: std::io::Error)
    ensures
        io_kind_of(r) is Other,
{
    std::io::Error::new(std::io::ErrorKind::Other, e)
}

/// The member of an object under a key, as `serde_json::Value::get` finds it.
pub uninterp spec fn member_of(v: Value, key: Seq<char>) -> Option<Value>;

/// Relies on `serde_json::Value::get` with a string key: the member of an
/// object under that key, if there is one.
#[verifier::external_body]
fn get<'a>(v: &'a Value, key: &str) -> (r: Option<&'a Value>)
    ensures
        match member_of(*v, key@) {
            Some(m) => r is Some && *r->Some_0 == m,
            None => r is None,
        },
{
    v.get(key)
}

/// What `serde_json::Value::as_u64` returns on a value.
pub uninterp spec fn u64_of(v: Value) -> Option<u64>;

/// Relies on `serde_json::Value::as_u64`.
#[verifier::external_body]
fn as_u64(v: &Value) -> (r: Option<u64>)
    ensures
        r == u64_of(*v),
{
    v.as_u64()
}

/// What `serde_json::Value::as_str` returns on a value.
pub uninterp spec fn str_of(v: Value) -> Option<Seq<char>>;

/// Relies on `serde_json::Value::as_str`.
#[verifier::external_body]
fn as_str(v: &Value) -> (r: Option<&str>)
    ensures
        match str_of(*v) {
            Some(s) => r is Some && r->Some_0@ == s,
            None => r is None,
        },
{
    v.as_str()
}

/// What `serde_json::Value::as_bool` returns on a value.
pub uninterp spec fn bool_of(v: Value) -> Option<bool>;

/// Relies on `serde_json::Value::as_bool`.
#[verifier::external_body]
fn as_bool(v: &Value) -> (r: Option<bool>)
    ensures
        r == bool_of(*v),
{
    v.as_bool()
}

/// What `serde_json::Value::is_null` returns on a value.
pub uninterp spec fn null_of(v: Value) -> bool;

/// Relies on `serde_json::Value::is_null`.
#[verifier::external_body]
fn is_null(v: &Value) -> (r: bool)
    ensures
        r == null_of(*v),
{
    v.is_null()
}

/// Relies on `Clone` for `serde_json::Value`, which is derived: the copy is
/// the same value.
#[verifier::external_body]
fn clone_value(v: &Value) -> (r: Value)
    ensures
        r == *v,
{
    v.clone()
}

/// The error that a failure of `serde_json` of the given category stands
/// for: a body that is not JSON is a bad message, one that does not have the
/// expected shape is an invalid message.
pub open spec fn error_for(category: Category, r: Error) -> bool {
    match category {
        Category::Io => r is Io && io_kind_of(r->Io_0) is Other,
        Category::Syntax => r is BadMessage,
        Category::Data => r is InvalidMessage,
        Category::Eof => r is BadMessage,
    }
}

impl Error {
    /// The error that a failure of `serde_json` of the given category stands
    /// for; a failure to read bytes becomes an I/O error of kind `Other`.
    pub fn from_category(category: Category, err: JsonError) -> (r: Error)
        ensures
            error_for(category, r),
    {
        match category {
            Category::Io => Error::Io(other_io_error(err)),
            Category::Syntax => Error::BadMessage,
            Category::Data => Error::InvalidMessage,
            Category::Eof => Error::BadMessage,
        }
    }

    /// The error that a failure of `serde_json` stands for.
    pub fn from_json(err: JsonError) -> (r: Error)
        ensures
            error_for(category_of(err), r),
    {
        let category = classify(&err);
        Error::from_category(category, err)
    }
}

impl From<JsonError> for Error {
    fn from(err: JsonError) -> (r: Error)
        ensures
            error_for(category_of(err), r),
    {
        Error::from_json(err)
    }
}

impl vstd::std_specs::convert::FromSpecImpl<JsonError> for Error {
    open spec fn obeys_from_spec() -> bool {
        false
    }

    open spec fn from_spec(err: JsonError) -> Error {
        arbitrary()
    }
}

/// What a JSON object holds under a key, as the classifier reads it.
pub enum Slot<T> {
    /// There is no such member (or the value is not an object).
    Absent,
    /// The member is `null`.
    Null,
    /// The member has the expected type.
    Found(T),
    /// The member has another type.
    Mismatch,
}

/// The value of a member that must be there, with the expected type.
pub fn required<T>(s: Slot<T>) -> (r: Result<T, Error>)
    ensures
        match s {
            Slot::Found(x) => r == Ok::<T, Error>(x),
            _ => r matches Err(Error::InvalidMessage),
        },
{
    match s {
        Slot::Found(x) => Ok(x),
        _ => Err(Error::InvalidMessage),
    }
}

/// The value of a member that may be missing or `null`.
pub fn optional<T>(s: Slot<T>) -> (r: Result<Option<T>, Error>)
    ensures
        match s {
            Slot::Found(x) => r == Ok::<Option<T>, Error>(Some(x)),
            Slot::Absent | Slot::Null => r == Ok::<Option<T>, Error>(None),
            Slot::Mismatch => r matches Err(Error::InvalidMessage),
        },
{
    match s {
        Slot::Found(x) => Ok(Some(x)),
        Slot::Absent | Slot::Null => Ok(None),
        Slot::Mismatch => Err(Error::InvalidMessage),
    }
}

/// A count or an identifier, which must fit in a `usize`.
pub fn to_usize(n: u64) -> (r: Result<usize, Error>)
    ensures
        n <= usize::MAX ==> r == Ok::<usize, Error>(n as usize),
        n > usize::MAX ==> r matches Err(Error::InvalidMessage),
{
    if n <= usize::MAX as u64 {
        Ok(n as usize)
    } else {
        Err(Error::InvalidMessage)
    }
}

/// The member `key` of `v` as an unsigned integer.
pub open spec fn slot_u64(v: Value, key: Seq<char>) -> Slot<u64> {
    match member_of(v, key) {
        None => Slot::Absent,
        Some(m) => if null_of(m) {
            Slot::Null
        } else {
            match u64_of(m) {
                Some(x) => Slot::Found(x),
                None => Slot::Mismatch,
            }
        },
    }
}

/// The member `key` of `v` as a string.
pub open spec fn slot_str(v: Value, key: Seq<char>) -> Slot<Seq<char>> {
    match member_of(v, key) {
        None => Slot::Absent,
        Some(m) => if null_of(m) {
            Slot::Null
        } else {
            match str_of(m) {
                Some(x) => Slot::Found(x),
                None => Slot::Mismatch,
            }
        },
    }
}

/// The member `key` of `v` as a boolean.
pub open spec fn slot_bool(v: Value, key: Seq<char>) -> Slot<bool> {
    match member_of(v, key) {
        None => Slot::Absent,
        Some(m) => if null_of(m) {
            Slot::Null
        } else {
            match bool_of(m) {
                Some(x) => Slot::Found(x),
                None => Slot::Mismatch,
            }
        },
    }
}

/// The member `key` of `v`, of any type.
pub open spec fn slot_value(v: Value, key: Seq<char>) -> Slot<Value> {
    match member_of(v, key) {
        None => Slot::Absent,
        Some(m) => if null_of(m) {
            Slot::Null
        } else {
            Slot::Found(m)
        },
    }
}

/// A slot of strings, as plain values.
pub open spec fn string_slot_view(s: Slot<String>) -> Slot<Seq<char>> {
    match s {
        Slot::Absent => Slot::Absent,
        Slot::Null => Slot::Null,
        Slot::Found(x) => Slot::Found(x@),
        Slot::Mismatch => Slot::Mismatch,
    }
}

/// The value of a member that may be missing or `null`.
pub open spec fn found_or_none<T>(s: Slot<T>) -> Option<T> {
    match s {
        Slot::Found(x) => Some(x),
        _ => None,
    }
}

/// Whether a member that may be missing or `null` has an acceptable type.
pub open spec fn optional_ok<T>(s: Slot<T>) -> bool {
    !(s is Mismatch)
}

/// The member `key` of `v` as an unsigned integer.
pub fn read_u64(v: &Value, key: &str) -> (r: Slot<u64>)
    ensures
        r == slot_u64(*v, key@),
{
    match get(v, key) {
        None => Slot::Absent,
        Some(m) => if is_null(m) {
            Slot::Null
        } else {
            match as_u64(m) {
                Some(n) => Slot::Found(n),
                None => Slot::Mismatch,
            }
        },
    }
}

/// The member `key` of `v` as a string.
pub fn read_string(v: &Value, key: &str) -> (r: Slot<String>)
    ensures
        string_slot_view(r) == slot_str(*v, key@),
{
    match get(v, key) {
        None => Slot::Absent,
        Some(m) => if is_null(m) {
            Slot::Null
        } else {
            match as_str(m) {
                Some(s) => Slot::Found(s.to_owned()),
                None => Slot::Mismatch,
            }
        },
    }
}

/// The member `key` of `v` as a boolean.
pub fn read_bool(v: &Value, key: &str) -> (r: Slot<bool>)
    ensures
        r == slot_bool(*v, key@),
{
    match get(v, key) {
        None => Slot::Absent,
        Some(m) => if is_null(m) {
            Slot::Null
        } else {
            match as_bool(m) {
                Some(b) => Slot::Found(b),
                None => Slot::Mismatch,
            }
        },
    }
}

/// The member `key` of `v`, of any type.
pub fn read_value(v: &Value, key: &str) -> (r: Slot<Value>)
    ensures
        r == slot_value(*v, key@),
{
    match get(v, key) {
        None => Slot::Absent,
        Some(m) => if is_null(m) {
            Slot::Null
        } else {
            Slot::Found(clone_value(m))
        },
    }
}

} // verus!
