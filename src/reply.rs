use vstd::prelude::*;
use vstd::string::*;

verus! {

/// What the HTTP status code `code` displays as: its number and reason phrase.
pub uninterp spec fn status_line_of(code: u16) -> Seq<char>;

/// Relies on the `Display` of `reqwest::StatusCode` (the `http` crate's): the
/// text depends on the code alone. Codes from 100 to 999 are valid status codes.
#[verifier::external_body]
fn status_line(code: u16) -> (r: String)
    requires
        100 <= code <= 999,
    ensures
        r@ == status_line_of(code),
{
    match reqwest::StatusCode::from_u16(code) {
        Ok(status) => status.to_string(),
        Err(e) => e.to_string(),
    }
}

/// An error description: the status text, a colon, and the detail.
pub open spec fn failure_of(status_text: Seq<char>, detail: Seq<char>) -> Seq<char> {
    status_text + ": "@ + detail
}

/// Joins a status text and a detail into an error description.
pub fn failure_text(status_text: &str, detail: &str) -> (r: String)
    ensures
        r@ == failure_of(status_text@, detail@),
{
    let mut out = status_text.to_string();
    out.append(": ");
    out.append(detail);
    out
}

/// The error description for a reply with status `code` and the given detail.
pub fn status_failure(code: u16, detail: &str) -> (r: String)
    requires
        100 <= code <= 999,
    ensures
        r@ == failure_of(status_line_of(code), detail@),
{
    let line = status_line(code);
    failure_text(line.as_str(), detail)
}

/// Classifies a reply from its status and the outcome of reading its body as
/// text: the body when the status is 200 and it was read, otherwise an error
/// that joins the status with the body or with the reading error.
pub fn classify_reply(status: u16, body: Result<String, String>) -> (r: Result<String, String>)
    requires
        100 <= status <= 999,
    ensures
        status == 200 && body is Ok ==> r == body,
        status != 200 && body is Ok ==> r is Err && r->Err_0@ == failure_of(
            status_line_of(status),
            body->Ok_0@,
        ),
        body is Err ==> r is Err && r->Err_0@ == failure_of(status_line_of(status), body->Err_0@),
{
    match body {
        Ok(text) => {
            if status == 200 {
                Ok(text)
            } else {
                Err(status_failure(status, text.as_str()))
            }
        },
        Err(e) => Err(status_failure(status, e.as_str())),
    }
}

/// The outcome of a typed call once the body has been decoded: the value, or
/// the decoding error joined with the status.
pub fn decoded_reply<T>(status: u16, decoded: Result<T, String>) -> (r: Result<T, String>)
    requires
        100 <= status <= 999,
    ensures
        decoded is Ok ==> r == decoded,
        decoded is Err ==> r is Err && r->Err_0@ == failure_of(
            status_line_of(status),
            decoded->Err_0@,
        ),
{
    match decoded {
        Ok(v) => Ok(v),
        Err(e) => Err(status_failure(status, e.as_str())),
    }
}

} // verus!
