//! The uploads of the POTA endpoints: the park list and the activator and
//! hunter logs arrive as the first field of a multipart form, as UTF-8 CSV
//! text.

use vstd::prelude::*;
use vstd::utf8::{valid_utf8, decode_utf8};

verus! {

/// How a request can fail before it reaches the service layer.
#[derive(Debug, Clone, PartialEq)]
pub enum RequestError<E> {
    /// The form carried no field to read.
    ForbiddenOperation,
    /// The user id in the path did not parse; its parser's error.
    InvalidUserId(E),
}

/// `String::from_utf8`, with its error dropped: claims it succeeds exactly on
/// valid UTF-8 and then holds the characters those bytes encode, as its
/// documentation says.
#[verifier::external_body]
fn string_from_utf8(bytes: Vec<u8>) -> (r: Option<String>)
    ensures
        r is Some <==> valid_utf8(bytes@),
        r matches Some(s) ==> s@ == decode_utf8(bytes@),
{
    String::from_utf8(bytes).ok()
}

/// The CSV text of a park-list import: the first form field, decoded, or
/// `ForbiddenOperation` when the form has no field. A field that is not
/// UTF-8 is left out.
pub fn import_payload<E>(first_field: Option<Vec<u8>>) -> (r: Result<String, RequestError<E>>)
    requires
        first_field matches Some(b) ==> valid_utf8(b@),
    ensures
        first_field is None ==> r == Err::<String, RequestError<E>>(
            RequestError::ForbiddenOperation,
        ),
        first_field matches Some(b) ==> (r matches Ok(text) && text@ == decode_utf8(b@)),
{
    match first_field {
        None => Err(RequestError::ForbiddenOperation),
        Some(bytes) => match string_from_utf8(bytes) {
            Some(text) => Ok(text),
            // unreachable: the field is valid UTF-8
            None => Err(RequestError::ForbiddenOperation),
        },
    }
}

/// The user and CSV text of an activator or hunter log upload: without a
/// form field, `ForbiddenOperation`; else the field's text and the user id,
/// or the user id's error when it did not parse. `user_id` is the outcome of
/// parsing the id in the path. A field that is not UTF-8 is left out.
pub fn log_upload<U, E>(first_field: Option<Vec<u8>>, user_id: Result<U, E>) -> (r: Result<
    (U, String),
    RequestError<E>,
>)
    requires
        first_field matches Some(b) ==> valid_utf8(b@),
    ensures
        first_field is None ==> r == Err::<(U, String), RequestError<E>>(
            RequestError::ForbiddenOperation,
        ),
        first_field matches Some(b) ==> match user_id {
            Err(e) => r == Err::<(U, String), RequestError<E>>(RequestError::InvalidUserId(e)),
            Ok(u) => r matches Ok((id, text)) && id == u && text@ == decode_utf8(b@),
        },
{
    match first_field {
        None => Err(RequestError::ForbiddenOperation),
        Some(bytes) => {
            let text = match string_from_utf8(bytes) {
                Some(text) => text,
                // unreachable: the field is valid UTF-8
                None => {
                    return Err(RequestError::ForbiddenOperation);
                },
            };
            match user_id {
                Ok(u) => Ok((u, text)),
                Err(e) => Err(RequestError::InvalidUserId(e)),
            }
        },
    }
}

} // verus!
