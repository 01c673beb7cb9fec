use crate::codec::{item_json, to_json};
use crate::record::{utc_now, Item, UtcInstant};
use crate::storage::{add_item_at, submission_attributes, PutItem};
use vstd::prelude::*;

verus! {

/// An HTTP-shaped reply: status, content type and body text.
#[derive(Clone, Debug, PartialEq, Eq)]
pub struct HttpReply {
    pub status: u16,
    pub content_type: String,
    pub body: String,
}

/// What decoding the request body gave.
#[derive(Clone, Debug, PartialEq, Eq)]
pub enum Decoded {
    /// The body is not valid UTF-8.
    NotText,
    /// The text does not have the submission's shape; the parser's diagnostic.
    Malformed(String),
    /// A submission.
    Submission(Item),
}

/// Failures that end the invocation without a reply.
#[derive(Clone, Debug, PartialEq, Eq)]
pub enum IngestError {
    /// The request body is not text.
    Encoding,
    /// The clock reads before the Unix epoch or past the years the
    /// fixed-width key can show.
    ClockOutOfRange,
    /// The backend refused or failed the write; its detail, uninterpreted.
    Write(String),
}

/// What the handler does next.
#[derive(Clone, Debug, PartialEq, Eq)]
pub enum Step {
    /// Send this reply; the invocation is done.
    Respond(HttpReply),
    /// Issue this put once, then report its outcome with the submission.
    Write(PutItem, Item),
    /// End the invocation with this failure.
    Fail(IngestError),
}

pub open spec fn reply_is(r: HttpReply, status: u16, content_type: Seq<char>, body: Seq<char>) -> bool {
    r.status == status && r.content_type@ == content_type && r.body@ == body
}

/// The reply to a body that does not have the submission's shape: 400,
/// `application/json`, the diagnostic as body text.
pub fn bad_request(diagnostic: String) -> (r: HttpReply)
    ensures
        reply_is(r, 400, "application/json"@, diagnostic@),
{
    HttpReply { status: 400, content_type: String::from_str("application/json"), body: diagnostic }
}

/// The reply to a stored submission: 200, `text/html`, the submission's JSON.
pub fn success(json: String) -> (r: HttpReply)
    ensures
        reply_is(r, 200, "text/html"@, json@),
{
    HttpReply { status: 200, content_type: String::from_str("text/html"), body: json }
}

/// The first decision on a request, with the write stamped at instant `at`.
pub fn on_request_at(decoded: Decoded, table: &str, at: &UtcInstant) -> (r: Step)
    ensures
        decoded matches Decoded::NotText ==> r == Step::Fail(IngestError::Encoding),
        decoded matches Decoded::Malformed(m) ==> r matches Step::Respond(reply)
            && reply_is(reply, 400, "application/json"@, m@),
        decoded matches Decoded::Submission(item) ==> if at.four_digit_year() {
            r matches Step::Write(p, pending) && pending == item && p.table@ == table@
                && p.attributes_view() == submission_attributes(item, *at)
        } else {
            r == Step::Fail(IngestError::ClockOutOfRange)
        },
{
    match decoded {
        Decoded::NotText => Step::Fail(IngestError::Encoding),
        Decoded::Malformed(m) => Step::Respond(bad_request(m)),
        Decoded::Submission(item) => {
            match add_item_at(&item, table, at) {
                Some(p) => Step::Write(p, item),
                None => Step::Fail(IngestError::ClockOutOfRange),
            }
        }
    }
}

/// The first decision on a request; a write is stamped with the clock's
/// current instant.
pub fn on_request(decoded: Decoded, table: &str) -> (r: Step)
    ensures
        decoded matches Decoded::NotText ==> r == Step::Fail(IngestError::Encoding),
        decoded matches Decoded::Malformed(m) ==> r matches Step::Respond(reply)
            && reply_is(reply, 400, "application/json"@, m@),
        decoded matches Decoded::Submission(item) ==> {
            ||| r matches Step::Write(p, pending) && pending == item && p.table@ == table@
                && exists|t: UtcInstant| t.wf() && t.four_digit_year()
                    && p.attributes_view() == #[trigger] submission_attributes(item, t)
            ||| r == Step::Fail(IngestError::ClockOutOfRange)
        },
{
    match decoded {
        Decoded::NotText => Step::Fail(IngestError::Encoding),
        Decoded::Malformed(m) => Step::Respond(bad_request(m)),
        Decoded::Submission(item) => {
            match utc_now() {
                Some(now) => on_request_at(Decoded::Submission(item), table, &now),
                None => Step::Fail(IngestError::ClockOutOfRange),
            }
        },
    }
}

/// The decision after the put: a backend failure ends the invocation with
/// its detail; a success replies with the submission's JSON.
pub fn on_written(written: Result<(), String>, item: Item) -> (r: Result<HttpReply, IngestError>)
    ensures
        written matches Err(detail) ==> r == Err::<HttpReply, IngestError>(IngestError::Write(detail)),
        written is Ok ==> (r matches Ok(reply) && reply_is(reply, 200, "text/html"@, item_json(item))),
{
    match written {
        Err(detail) => Err(IngestError::Write(detail)),
        Ok(()) => Ok(success(to_json(&item))),
    }
}

} // verus!
