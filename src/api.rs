//! Checks on API requests: resource ids, and the errors of bodiless requests.

use vstd::prelude::*;

verus! {

/// HTTP request methods the API accepts.
#[derive(Clone, Copy, Debug, PartialEq, Eq, Structural)]
pub enum Method {
    /// `GET`.
    Get,
    /// `PUT`.
    Put,
    /// `PATCH`.
    Patch,
}

/// HTTP status codes the API answers with.
#[derive(Clone, Copy, Debug, PartialEq, Eq, Structural)]
pub enum StatusCode {
    /// 200.
    OK,
    /// 204.
    NoContent,
    /// 400.
    BadRequest,
    /// 404.
    NotFound,
    /// 500.
    InternalServerError,
}

/// Errors of API request parsing.
#[derive(Clone, Debug, PartialEq, Eq)]
pub enum Error {
    /// A status code and a message for the fault response.
    Generic(StatusCode, String),
    /// The resource id is empty.
    EmptyID,
    /// The resource id holds a character other than alphanumerics and `_`.
    InvalidID,
    /// The method and path do not name an operation.
    InvalidPathMethod(String, Method),
    /// The JSON body does not deserialize; the message says why.
    SerdeJson(String),
}

/// Whether a character is alphanumeric in the Unicode sense (alphabetic or numeric).
pub uninterp spec fn is_alnum(c: char) -> bool;

/// Relies on `char::is_alphanumeric`: whether the character has the Unicode
/// `Alphabetic` property or a numeric general category.
#[verifier::external_body]
fn char_is_alphanumeric(c: char) -> (r: bool)
    ensures
        r == is_alnum(c),
{
    c.is_alphanumeric()
}

/// A character a resource id may hold.
pub open spec fn id_char(c: char) -> bool {
    c == '_' || is_alnum(c)
}

/// Checks a resource id whose characters' alphanumeric test results are `alnum`, in
/// order: it must not be empty and each character must be `_` or alphanumeric.
pub fn check_id_chars(id: &str, alnum: &Vec<bool>) -> (r: Result<(), Error>)
    requires
        alnum@.len() == id@.len(),
    ensures
        id@.len() == 0 ==> r == Err::<(), Error>(Error::EmptyID),
        r is Ok <==> id@.len() > 0 && forall|i: int| 0 <= i < id@.len() ==> (#[trigger] id@[i]) == '_' || alnum@[i],
        r is Err && id@.len() > 0 ==> r == Err::<(), Error>(Error::InvalidID),
{
    let n = id.unicode_len();
    if n == 0 {
        return Err(Error::EmptyID);
    }
    let mut i: usize = 0;
    while i < n
        invariant
            n == id@.len(),
            alnum@.len() == n,
            i <= n,
            forall|k: int| 0 <= k < i ==> (#[trigger] id@[k]) == '_' || alnum@[k],
        decreases n - i,
    {
        if !(id.get_char(i) == '_' || alnum[i]) {
            return Err(Error::InvalidID);
        }
        i = i + 1;
    }
    Ok(())
}

/// Checks a resource id: it must not be empty and may hold only alphanumerics and `_`.
pub fn checked_id(id: &str) -> (r: Result<&str, Error>)
    ensures
        id@.len() == 0 ==> r == Err::<&str, Error>(Error::EmptyID),
        id@.len() > 0 && !(forall|i: int| 0 <= i < id@.len() ==> id_char(#[trigger] id@[i]))
            ==> r == Err::<&str, Error>(Error::InvalidID),
        r is Ok <==> id@.len() > 0 && forall|i: int| 0 <= i < id@.len() ==> id_char(#[trigger] id@[i]),
        r is Ok ==> r->Ok_0@ == id@,
{
    let n = id.unicode_len();
    let mut alnum: Vec<bool> = Vec::new();
    let mut i: usize = 0;
    while i < n
        invariant
            n == id@.len(),
            i <= n,
            alnum@.len() == i,
            forall|k: int| 0 <= k < i ==> alnum@[k] == is_alnum(#[trigger] id@[k]),
        decreases n - i,
    {
        alnum.push(char_is_alphanumeric(id.get_char(i)));
        i = i + 1;
    }
    match check_id_chars(id, &alnum) {
        Ok(()) => Ok(id),
        Err(e) => Err(e),
    }
}

/// The error for a request whose method needs a body it lacks, or forbids one it has.
pub fn method_to_error(method: Method) -> (r: Result<(), Error>)
    ensures
        r is Err,
        r->Err_0 is Generic,
        r->Err_0->Generic_0 == StatusCode::BadRequest,
        method == Method::Get ==> r->Err_0->Generic_1@ == "GET request cannot have a body."@,
        method == Method::Put ==> r->Err_0->Generic_1@ == "Empty PUT request."@,
        method == Method::Patch ==> r->Err_0->Generic_1@ == "Empty PATCH request."@,
{
    match method {
        Method::Get => Err(Error::Generic(StatusCode::BadRequest, String::from_str("GET request cannot have a body."))),
        Method::Put => Err(Error::Generic(StatusCode::BadRequest, String::from_str("Empty PUT request."))),
        Method::Patch => Err(Error::Generic(StatusCode::BadRequest, String::from_str("Empty PATCH request."))),
    }
}

} // verus!
