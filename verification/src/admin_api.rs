//! The rules of the admin API: which rows a listing asks for, how a missing row is
//! answered, and how a handler's outcome becomes an HTTP reply.
use vstd::prelude::*;
use vstd::string::*;

verus! {

/// The rows a listing asks for: those from index `start` (included) to `end`
/// (excluded).
#[derive(Debug, Clone, PartialEq)]
pub struct ListQuery {
    pub start: i64,
    pub end: i64,
}

/// How many rows to fetch, after how many skipped rows.
#[derive(Debug, Clone, PartialEq)]
pub struct PageWindow {
    pub limit: i64,
    pub offset: i64,
}

impl ListQuery {
    /// The window that a listing fetches: `end - start` rows, after `start` rows.
    pub fn window(&self) -> (w: PageWindow)
        requires
            i64::MIN <= self.end - self.start <= i64::MAX,
        ensures
            w.limit == self.end - self.start,
            w.offset == self.start,
    {
        PageWindow { limit: self.end - self.start, offset: self.start }
    }
}

/// The window of a listing ends where the query ends.
pub proof fn lemma_window_ends_at_end(query: ListQuery, w: PageWindow)
    requires
        w.limit == query.end - query.start,
        w.offset == query.start,
    ensures
        w.offset + w.limit == query.end,
{
}

/// Why a handler of the admin API failed.
#[derive(Debug, Clone, PartialEq)]
pub enum ApiError {
    /// No row has the requested id.
    NotFound,
    /// The database refused the query, with the text of its error.
    Database(String),
}

pub open spec fn api_error_message(e: ApiError) -> Seq<char> {
    match e {
        ApiError::NotFound => "not found"@,
        ApiError::Database(msg) => msg@,
    }
}

impl ApiError {
    /// The text the error is answered with.
    pub fn message(&self) -> (m: String)
        ensures
            m@ == api_error_message(*self),
    {
        match self {
            ApiError::NotFound => String::from_str("not found"),
            ApiError::Database(msg) => msg.clone(),
        }
    }
}

/// A row looked up by id, or `NotFound` when there is none.
pub fn found_or_not_found<T>(row: Option<T>) -> (r: Result<T, ApiError>)
    ensures
        match row {
            Some(v) => r == Ok::<T, ApiError>(v),
            None => r matches Err(ApiError::NotFound),
        },
{
    match row {
        Some(v) => Ok(v),
        None => Err(ApiError::NotFound),
    }
}

/// The body of a reply.
#[derive(Debug, Clone, PartialEq)]
pub enum ReplyBody {
    /// A JSON document, already serialised.
    Json(Vec<u8>),
    /// Plain text.
    Text(String),
}

/// An HTTP reply of the admin API.
#[derive(Debug, Clone, PartialEq)]
pub struct HttpReply {
    pub status: u16,
    pub content_type: String,
    /// The value of the `X-Total-Count` header, when the reply carries one.
    pub total_count: Option<usize>,
    pub body: ReplyBody,
}

pub open spec fn json_content_type() -> Seq<char> {
    "application/json; charset=utf-8"@
}

pub open spec fn text_content_type() -> Seq<char> {
    "plain-text"@
}

/// The reply to a failed handler: status 400, plain text, the error's message.
pub open spec fn is_error_reply(reply: HttpReply, e: ApiError) -> bool {
    &&& reply.status == 400
    &&& reply.content_type@ == text_content_type()
    &&& reply.total_count is None
    &&& reply.body matches ReplyBody::Text(t) && t@ == api_error_message(e)
}

/// The reply to a handler that produced the JSON document `json`: status 200.
pub open spec fn is_json_reply(reply: HttpReply, json: Seq<u8>, total: Option<usize>) -> bool {
    &&& reply.status == 200
    &&& reply.content_type@ == json_content_type()
    &&& reply.total_count == total
    &&& reply.body matches ReplyBody::Json(b) && b@ == json
}

fn error_reply(e: &ApiError) -> (reply: HttpReply)
    ensures
        is_error_reply(reply, *e),
{
    HttpReply {
        status: 400,
        content_type: String::from_str("plain-text"),
        total_count: None,
        body: ReplyBody::Text(e.message()),
    }
}

/// The reply to a handler that yields one value (serialised to JSON) or an error.
pub fn to_response(response: Result<Vec<u8>, ApiError>) -> (reply: HttpReply)
    ensures
        match response {
            Ok(json) => is_json_reply(reply, json@, None),
            Err(e) => is_error_reply(reply, e),
        },
{
    match response {
        Ok(json) => HttpReply {
            status: 200,
            content_type: String::from_str("application/json; charset=utf-8"),
            total_count: None,
            body: ReplyBody::Json(json),
        },
        Err(e) => error_reply(&e),
    }
}

/// The reply to a listing: the page (serialised to JSON) with the total number of
/// rows in `X-Total-Count`, or an error.
pub fn to_response_list(response: Result<(Vec<u8>, usize), ApiError>) -> (reply: HttpReply)
    ensures
        match response {
            Ok((json, total)) => is_json_reply(reply, json@, Some(total)),
            Err(e) => is_error_reply(reply, e),
        },
{
    match response {
        Ok((json, total)) => HttpReply {
            status: 200,
            content_type: String::from_str("application/json; charset=utf-8"),
            total_count: Some(total),
            body: ReplyBody::Json(json),
        },
        Err(e) => error_reply(&e),
    }
}

/// A handler's reply is a success exactly when the handler succeeded.
pub proof fn lemma_reply_status(reply: HttpReply, response: Result<Seq<u8>, ApiError>)
    requires
        match response {
            Ok(json) => is_json_reply(reply, json, None),
            Err(e) => is_error_reply(reply, e),
        },
    ensures
        reply.status == 200 <==> response is Ok,
        reply.status == 400 <==> response is Err,
{
}

} // verus!
