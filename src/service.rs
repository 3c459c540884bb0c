use vstd::prelude::*;
use crate::form::{decoded_form, form_pairs, parse_form};
use crate::models::{NewMessage, TimeRange};
use crate::query::{parse_query, query_error_text, range_of, range_result_is};
use crate::response::{is_error_response, make_error_response, Response};
use vstd::string::StringSliceAdditionalSpecFns;

verus! {

/// The request methods that the service tells apart.
#[derive(Debug, Clone, Copy, PartialEq, Eq, Structural)]
pub enum Method {
    Get,
    Post,
    Other,
}

/// The two operations that the service offers.
#[derive(Debug, Clone, Copy, PartialEq, Eq, Structural)]
pub enum Route {
    /// `POST /`: store a message.
    Submit,
    /// `GET /`: list messages.
    List,
}

/// What to do once a request has been routed.
#[derive(Debug, Clone)]
pub enum Action {
    /// Obtain a database connection, then go on with the route.
    Connect(Route),
    /// Answer at once.
    Respond(Response),
}

/// What to do once a database connection has been sought.
#[derive(Debug, Clone)]
pub enum Step {
    /// Insert the message, then answer with `make_post_response`.
    Insert(NewMessage),
    /// Select the messages in the range, then answer with `make_get_response`.
    Select(TimeRange),
    /// Answer at once.
    Respond(Response),
}

/// The route of a method and path, if the service has one.
pub open spec fn route_of(method: Method, path: Seq<char>) -> Option<Route> {
    if path == "/"@ {
        match method {
            Method::Post => Some(Route::Submit),
            Method::Get => Some(Route::List),
            Method::Other => None,
        }
    } else {
        None
    }
}

/// Whether a response has a status and an empty body with no media type.
pub open spec fn is_bare(r: Response, status: u16) -> bool {
    &&& r.status == status
    &&& r.content_type is None
    &&& r.body@.len() == 0
}

/// The HTTP service, which decides each request in steps; the caller performs
/// the connection, insert and select that the steps ask for.
#[derive(Debug, Clone, Copy)]
pub struct Microservice;

impl Microservice {
    /// Routes a request: a known route asks for a connection, anything else is
    /// answered with a bare 404.
    pub fn call(&self, method: Method, path: &str) -> (r: Action)
        ensures
            match route_of(method, path@) {
                Some(route) => r == Action::Connect(route),
                None => r matches Action::Respond(resp) && is_bare(resp, 404),
            },
    {
        proof {
            reveal_strlit("/");
        }
        let is_root = path.unicode_len() == 1 && path.get_char(0) == '/';
        assert(is_root == (path@ =~= "/"@));
        if is_root {
            match method {
                Method::Post => {
                    return Action::Connect(Route::Submit);
                },
                Method::Get => {
                    return Action::Connect(Route::List);
                },
                Method::Other => {},
            }
        }
        Action::Respond(Response::empty(404))
    }

    /// Goes on with a route once a connection has been sought: without one,
    /// a bare 500; a post decodes its body, a listing parses its query.
    pub fn after_connect(&self, route: Route, connected: bool, body: &[u8], query: Option<&str>) -> (r:
        Step)
        ensures
            !connected ==> (r matches Step::Respond(resp) && is_bare(resp, 500)),
            connected && route == Route::Submit ==> match decoded_form(form_pairs(body@)) {
                Some((username, message)) => r matches Step::Insert(m) && m.username@ == username
                    && m.message@ == message,
                None => r matches Step::Respond(resp) && is_error_response(
                    resp,
                    "Missing field 'message"@,
                ),
            },
            connected && route == Route::List ==> match query {
                None => r matches Step::Select(t) && t.before is None && t.after is None,
                Some(q) => match range_of(form_pairs(q.spec_bytes())) {
                    Ok(_) => r matches Step::Select(t) && range_result_is(
                        Ok(t),
                        range_of(form_pairs(q.spec_bytes())),
                    ),
                    Err((field, _, reason)) => r matches Step::Respond(resp) && is_error_response(
                        resp,
                        query_error_text(field, reason),
                    ),
                },
            },
    {
        if !connected {
            return Step::Respond(Response::empty(500));
        }
        match route {
            Route::Submit => match parse_form(body) {
                Ok(m) => Step::Insert(m),
                Err(e) => Step::Respond(make_error_response(e.message())),
            },
            Route::List => match query {
                None => Step::Select(TimeRange::unbounded()),
                Some(q) => match parse_query(q) {
                    Ok(t) => Step::Select(t),
                    Err(e) => {
                        let text = e.message();
                        Step::Respond(make_error_response(text.as_str()))
                    },
                },
            },
        }
    }
}

} // verus!
