use vstd::prelude::*;
use crate::models::{Message, PersistenceFailure};
use crate::text::{append_decimal, escape_html, html_escaped, int_decimal, json_quote, json_string};

verus! {

/// The media type of a response body.
#[derive(Debug, Clone, Copy, PartialEq, Eq, Structural)]
pub enum ContentType {
    Json,
    Html,
}

/// An HTTP response: status code, media type of the body if any, and body.
#[derive(Debug, Clone)]
pub struct Response {
    pub status: u16,
    pub content_type: Option<ContentType>,
    pub body: String,
}

impl Response {
    /// A response with a status and an empty body.
    pub fn empty(status: u16) -> (r: Response)
        ensures
            r.status == status,
            r.content_type is None,
            r.body@.len() == 0,
    {
        Response { status, content_type: None, body: String::new() }
    }
}

/// The JSON body of an error response.
pub open spec fn error_json(message: Seq<char>) -> Seq<char> {
    "{\"error\":"@ + json_string(message) + "}"@
}

/// The JSON body of a successful post.
pub open spec fn timestamp_json(timestamp: int) -> Seq<char> {
    "{\"timestamp\":"@ + int_decimal(timestamp) + "}"@
}

/// The text that an error response carries for a failed insert.
pub open spec fn service_error_text() -> Seq<char> {
    "service error"@
}

/// Whether a response is the JSON error response for `message`.
pub open spec fn is_error_response(r: Response, message: Seq<char>) -> bool {
    &&& r.status == 500
    &&& r.content_type == Some(ContentType::Json)
    &&& r.body@ == error_json(message)
}

/// A 500 response with the JSON body `{"error": message}`.
pub fn make_error_response(error_message: &str) -> (r: Response)
    ensures
        is_error_response(r, error_message@),
{
    let mut body = String::from_str("{\"error\":");
    let quoted = json_quote(error_message);
    body.append(quoted.as_str());
    body.append("}");
    Response { status: 500, content_type: Some(ContentType::Json), body }
}

/// The response to a post: the stored timestamp as JSON, or a JSON error
/// that does not disclose why the insert failed.
pub fn make_post_response(result: Result<i64, PersistenceFailure>) -> (r: Response)
    ensures
        match result {
            Ok(t) => r.status == 200 && r.content_type == Some(ContentType::Json) && r.body@
                == timestamp_json(t as int),
            Err(_) => is_error_response(r, service_error_text()),
        },
{
    match result {
        Ok(timestamp) => {
            let mut body = String::from_str("{\"timestamp\":");
            append_decimal(&mut body, timestamp);
            body.append("}");
            Response { status: 200, content_type: Some(ContentType::Json), body }
        },
        Err(_) => make_error_response("service error"),
    }
}

/// The start of the page, up to the opening of the list.
pub open spec fn page_open() -> Seq<char> {
    "<head><title>microservice</title><style>body { font-family: monospace }</style></head><body><ul>"@
}

/// The end of the page, from the closing of the list.
pub open spec fn page_close() -> Seq<char> {
    "</ul></body>"@
}

/// The list item of one message: `username (timestamp): message`, escaped.
pub open spec fn message_item(m: Message) -> Seq<char> {
    "<li>"@ + html_escaped(m.username@) + " ("@ + int_decimal(m.timestamp as int) + "): "@
        + html_escaped(m.message@) + "</li>"@
}

/// The list items of messages, in their order.
pub open spec fn message_items(ms: Seq<Message>) -> Seq<char>
    decreases ms.len(),
{
    if ms.len() == 0 {
        Seq::empty()
    } else {
        message_items(ms.drop_last()) + message_item(ms.last())
    }
}

/// The HTML page that lists messages.
pub open spec fn page_html(ms: Seq<Message>) -> Seq<char> {
    page_open() + message_items(ms) + page_close()
}

/// Renders the HTML page that lists the messages in their order.
pub fn render_page(messages: &Vec<Message>) -> (r: String)
    ensures
        r@ == page_html(messages@),
{
    let mut out = String::from_str(
        "<head><title>microservice</title><style>body { font-family: monospace }</style></head><body><ul>",
    );
    let mut i: usize = 0;
    while i < messages.len()
        invariant
            i <= messages.len(),
            out@ == page_open() + message_items(messages@.take(i as int)),
        decreases messages.len() - i,
    {
        let m = &messages[i];
        out.append("<li>");
        let username = escape_html(m.username.as_str());
        out.append(username.as_str());
        out.append(" (");
        append_decimal(&mut out, m.timestamp);
        out.append("): ");
        let text = escape_html(m.message.as_str());
        out.append(text.as_str());
        out.append("</li>");
        assert(messages@.take(i + 1).drop_last() =~= messages@.take(i as int));
        assert(out@ =~= page_open() + message_items(messages@.take(i + 1)));
        i = i + 1;
    }
    assert(messages@.take(i as int) =~= messages@);
    out.append("</ul></body>");
    assert(out@ =~= page_html(messages@));
    out
}

/// The response to a listing: the HTML page of the messages, or a bare 500
/// when they could not be read.
pub fn make_get_response(messages: Option<Vec<Message>>) -> (r: Response)
    ensures
        match messages {
            Some(ms) => r.status == 200 && r.content_type == Some(ContentType::Html) && r.body@
                == page_html(ms@),
            None => r.status == 500 && r.content_type is None && r.body@.len() == 0,
        },
{
    match messages {
        Some(ms) => {
            let body = render_page(&ms);
            Response { status: 200, content_type: Some(ContentType::Html), body }
        },
        None => Response::empty(500),
    }
}

} // verus!
