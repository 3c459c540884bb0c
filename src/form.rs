use vstd::prelude::*;
use crate::models::NewMessage;

verus! {

/// The (name, value) pairs that a form-encoded text holds, in order and
/// decoded.
pub uninterp spec fn form_pairs(input: Seq<u8>) -> Seq<(Seq<char>, Seq<char>)>;

/// Relies on url::form_urlencoded::parse: the decoded (name, value) pairs of
/// a `key=value&key=value` text, in order; an empty text holds none.
#[verifier::external_body]
pub(crate) fn parse_pairs(input: &[u8]) -> (r: Vec<(String, String)>)
    ensures
        r.deep_view() == form_pairs(input@),
        input@.len() == 0 ==> r@.len() == 0,
{
    url::form_urlencoded::parse(input).into_owned().collect()
}

/// The value of the last pair named `key`, if any pair has that name.
pub open spec fn last_value(pairs: Seq<(Seq<char>, Seq<char>)>, key: Seq<char>) -> Option<
    Seq<char>,
>
    decreases pairs.len(),
{
    if pairs.len() == 0 {
        None
    } else if pairs.last().0 == key {
        Some(pairs.last().1)
    } else {
        last_value(pairs.drop_last(), key)
    }
}

/// The (username, message) that a form yields: the message is required, and
/// the username is "anonymous" when the form has none.
pub open spec fn decoded_form(pairs: Seq<(Seq<char>, Seq<char>)>) -> Option<(Seq<char>, Seq<char>)> {
    match last_value(pairs, "message"@) {
        None => None,
        Some(message) => Some(
            (
                match last_value(pairs, "username"@) {
                    Some(username) => username,
                    None => "anonymous"@,
                },
                message,
            ),
        ),
    }
}

/// Why a form does not yield a message.
#[derive(Debug, Clone, Copy, PartialEq, Eq, Structural)]
pub enum FormError {
    /// The form has no `message` field.
    MissingField,
}

impl FormError {
    /// The text that describes the error.
    pub fn message(&self) -> (r: &'static str)
        ensures
            r@ == "Missing field 'message"@,
    {
        "Missing field 'message"
    }
}

/// The value of the last pair named `key`.
pub fn lookup(pairs: &Vec<(String, String)>, key: &String) -> (r: Option<String>)
    ensures
        match last_value(pairs.deep_view(), key@) {
            Some(v) => r matches Some(s) && s@ == v,
            None => r is None,
        },
{
    let ghost all = pairs.deep_view();
    let mut i: usize = pairs.len();
    assert(all.take(i as int) =~= all);
    while i > 0
        invariant
            i <= pairs.len(),
            all == pairs.deep_view(),
            last_value(all, key@) == last_value(all.take(i as int), key@),
        decreases i,
    {
        i = i - 1;
        assert(all.take(i + 1).drop_last() =~= all.take(i as int));
        if pairs[i].0 == *key {
            return Some(pairs[i].1.clone());
        }
    }
    None
}

/// Builds the message that a list of form pairs describes.
pub fn decode_form(pairs: &Vec<(String, String)>) -> (r: Result<NewMessage, FormError>)
    ensures
        match decoded_form(pairs.deep_view()) {
            Some((username, message)) => r matches Ok(m) && m.username@ == username
                && m.message@ == message,
            None => r == Err::<NewMessage, FormError>(FormError::MissingField),
        },
{
    match lookup(pairs, &String::from_str("message")) {
        Some(message) => {
            let username = match lookup(pairs, &String::from_str("username")) {
                Some(u) => u,
                None => String::from_str("anonymous"),
            };
            Ok(NewMessage { username, message })
        },
        None => Err(FormError::MissingField),
    }
}

/// Decodes a form-encoded request body into a new message.
pub fn parse_form(body: &[u8]) -> (r: Result<NewMessage, FormError>)
    ensures
        match decoded_form(form_pairs(body@)) {
            Some((username, message)) => r matches Ok(m) && m.username@ == username
                && m.message@ == message,
            None => r == Err::<NewMessage, FormError>(FormError::MissingField),
        },
{
    let pairs = parse_pairs(body);
    decode_form(&pairs)
}

/// A body whose last `message` field holds `x` decodes to a message `x`; its
/// username is its last `username` field, or "anonymous" when it has none.
pub proof fn law_message_decodes(body: Seq<u8>, x: Seq<char>)
    requires
        last_value(form_pairs(body), "message"@) == Some(x),
    ensures
        decoded_form(form_pairs(body)) matches Some((username, message)) && message == x && (
        match last_value(form_pairs(body), "username"@) {
            Some(u) => username == u,
            None => username == "anonymous"@,
        }),
{
}

/// A body with no `message` field does not decode.
pub proof fn law_missing_message_fails(body: Seq<u8>)
    requires
        last_value(form_pairs(body), "message"@) is None,
    ensures
        decoded_form(form_pairs(body)) is None,
{
}

} // verus!
