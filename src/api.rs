use crate::store::{lookup, KvStore, Value};
use vstd::prelude::*;

verus! {

#[verifier::external_type_specification]
#[verifier::external_body]
pub struct ExJsonError(serde_json::Error);

/// The hexadecimal digit, in lower case, of `n` below 16.
pub open spec fn hex_digit(n: u32) -> char {
    if n < 10 {
        ('0' as u32 + n) as char
    } else {
        ('a' as u32 + (n - 10)) as char
    }
}

/// How one character stands inside a JSON string: the quote, the backslash
/// and the control characters below U+0020 are escaped (those with a short
/// form by it, the others as `\u00xx`); every other character stands as it is.
pub open spec fn json_escape(c: char) -> Seq<char> {
    if c == '"' {
        seq!['\\', '"']
    } else if c == '\\' {
        seq!['\\', '\\']
    } else if c == '\x08' {
        seq!['\\', 'b']
    } else if c == '\t' {
        seq!['\\', 't']
    } else if c == '\n' {
        seq!['\\', 'n']
    } else if c == '\x0c' {
        seq!['\\', 'f']
    } else if c == '\r' {
        seq!['\\', 'r']
    } else if (c as u32) < 0x20 {
        seq!['\\', 'u', '0', '0', hex_digit((c as u32) / 16), hex_digit((c as u32) % 16)]
    } else {
        seq![c]
    }
}

/// The characters of `s`, each escaped as inside a JSON string.
pub open spec fn json_escaped(s: Seq<char>) -> Seq<char>
    decreases s.len(),
{
    if s.len() == 0 {
        Seq::empty()
    } else {
        json_escaped(s.drop_last()) + json_escape(s.last())
    }
}

/// The JSON text of a string: its escaped characters between quotes.
pub open spec fn json_string(s: Seq<char>) -> Seq<char> {
    seq!['"'] + json_escaped(s) + seq!['"']
}

/// Relies on `serde_json::to_string`: a string is written as one JSON string
/// literal, with the escapes of its compact formatter; writing into a
/// `Vec<u8>` cannot fail, so neither can this.
#[verifier::external_body]
fn encode_json_string(s: &str) -> (r: Result<String, serde_json::Error>)
    ensures
        r is Ok,
        r matches Ok(t) ==> t@ == json_string(s@),
{
    serde_json::to_string(s)
}

pub const OK: u16 = 200;

pub const BAD_REQUEST: u16 = 400;

pub const NOT_FOUND: u16 = 404;

pub const METHOD_NOT_ALLOWED: u16 = 405;

/// The HTTP methods that the endpoints tell apart.
#[derive(Clone, Copy, Debug, PartialEq, Eq, Structural)]
pub enum Method {
    Get,
    Post,
    Delete,
    Other,
}

/// The three operations of the store that requests reach.
#[derive(Clone, Copy, Debug, PartialEq, Eq, Structural)]
pub enum Endpoint {
    SetValue,
    GetValue,
    RemoveValue,
}

/// How a response body is to be read.
#[derive(Clone, Copy, Debug, PartialEq, Eq, Structural)]
pub enum ContentType {
    Text,
    Json,
}

/// A request, once the transport has read its query and its JSON body.
/// `key` is the `key` query parameter; `body` is `None` where the body was
/// missing or was not an object with string fields `key` and `value`.
#[derive(Clone, Debug)]
pub struct Request {
    pub method: Method,
    pub path: String,
    pub key: Option<String>,
    pub body: Option<Value>,
}

/// A status code, and a body with its content type.
#[derive(Clone, Debug, PartialEq, Eq)]
pub struct Response {
    pub status: u16,
    pub content_type: ContentType,
    pub body: String,
}

pub open spec fn responds(r: Response, status: u16, content_type: ContentType, body: Seq<char>) -> bool {
    &&& r.status == status
    &&& r.content_type == content_type
    &&& r.body@ == body
}

pub open spec fn set_body() -> Seq<char> {
    "Value set"@
}

pub open spec fn removed_body() -> Seq<char> {
    "Value removed"@
}

pub open spec fn missing_key_body() -> Seq<char> {
    "Invalid query string"@
}

pub open spec fn bad_body_body() -> Seq<char> {
    "Invalid request body"@
}

pub open spec fn not_found_body() -> Seq<char> {
    "{\"error\":\"Not found\"}"@
}

/// The JSON object `{"value": ...}` around the JSON text of a value.
pub open spec fn value_body(encoded: Seq<char>) -> Seq<char> {
    "{\"value\":"@ + encoded + "}"@
}

/// Which endpoint a method and a path reach, or the status that refuses them:
/// 404 for an unknown path, 405 for a known path under another method.
pub open spec fn route_of(method: Method, path: Seq<char>) -> Result<Endpoint, u16> {
    if path == "/set"@ {
        if method == Method::Post { Ok(Endpoint::SetValue) } else { Err(METHOD_NOT_ALLOWED) }
    } else if path == "/get"@ {
        if method == Method::Get { Ok(Endpoint::GetValue) } else { Err(METHOD_NOT_ALLOWED) }
    } else if path == "/remove"@ {
        if method == Method::Delete { Ok(Endpoint::RemoveValue) } else { Err(METHOD_NOT_ALLOWED) }
    } else {
        Err(NOT_FOUND)
    }
}

/// What `/set` does: a missing or malformed body is refused with 400 and the
/// store is left alone; otherwise the value is stored.
pub open spec fn set_outcome(
    before: Map<Seq<char>, Seq<char>>,
    body: Option<Value>,
    after: Map<Seq<char>, Seq<char>>,
    r: Response,
) -> bool {
    match body {
        None => after == before && responds(r, BAD_REQUEST, ContentType::Text, bad_body_body()),
        Some(v) => after == before.insert(v.key@, v.value@) && responds(
            r,
            OK,
            ContentType::Text,
            set_body(),
        ),
    }
}

/// What `/get` answers, from one lookup: 400 without a key, 404 where the
/// key has no entry, and otherwise 200 with the value as JSON. The status and
/// the body come from that one result.
pub open spec fn get_outcome(m: Map<Seq<char>, Seq<char>>, key: Option<String>, r: Response) -> bool {
    match key {
        None => responds(r, BAD_REQUEST, ContentType::Text, missing_key_body()),
        Some(k) => match lookup(m, k@) {
            None => responds(r, NOT_FOUND, ContentType::Json, not_found_body()),
            Some(v) => responds(r, OK, ContentType::Json, value_body(json_string(v))),
        },
    }
}

/// What `/remove` does: 400 without a key; otherwise the entry goes, whether
/// or not there was one, and the answer is 200.
pub open spec fn remove_outcome(
    before: Map<Seq<char>, Seq<char>>,
    key: Option<String>,
    after: Map<Seq<char>, Seq<char>>,
    r: Response,
) -> bool {
    match key {
        None => after == before && responds(r, BAD_REQUEST, ContentType::Text, missing_key_body()),
        Some(k) => after == before.remove(k@) && responds(r, OK, ContentType::Text, removed_body()),
    }
}

fn text_response(status: u16, body: &str) -> (r: Response)
    ensures
        responds(r, status, ContentType::Text, body@),
{
    Response { status, content_type: ContentType::Text, body: String::from_str(body) }
}

/// The 404 answer of `/get` for a key without an entry.
pub fn not_found_response() -> (r: Response)
    ensures
        responds(r, NOT_FOUND, ContentType::Json, not_found_body()),
{
    Response {
        status: NOT_FOUND,
        content_type: ContentType::Json,
        body: String::from_str("{\"error\":\"Not found\"}"),
    }
}

/// The 200 answer of `/get`, given the JSON text of the value found.
pub fn found_response(encoded: &str) -> (r: Response)
    ensures
        responds(r, OK, ContentType::Json, value_body(encoded@)),
{
    let mut body = String::from_str("{\"value\":");
    body.append(encoded);
    body.append("}");
    Response { status: OK, content_type: ContentType::Json, body }
}

/// The answer of `/get` for a value found: the value as a JSON string.
pub fn value_response(value: &str) -> (r: Response)
    ensures
        responds(r, OK, ContentType::Json, value_body(json_string(value@))),
{
    let encoded = encode_json_string(value).unwrap();
    found_response(encoded.as_str())
}

/// `POST /set`: stores the value of the body.
pub fn handle_set(store: &mut KvStore, body: Option<Value>) -> (r: Response)
    ensures
        set_outcome(old(store)@, body, final(store)@, r),
{
    match body {
        None => text_response(BAD_REQUEST, "Invalid request body"),
        Some(v) => {
            store.set(v);
            text_response(OK, "Value set")
        },
    }
}

/// `GET /get`: looks the key up once, and answers from that one result.
pub fn handle_get(store: &KvStore, key: Option<String>) -> (r: Response)
    ensures
        get_outcome(store@, key, r),
{
    match key {
        None => text_response(BAD_REQUEST, "Invalid query string"),
        Some(k) => match store.get(k.as_str()) {
            None => not_found_response(),
            Some(v) => value_response(v.as_str()),
        },
    }
}

/// `DELETE /remove`: deletes the entry for the key, if any.
pub fn handle_remove(store: &mut KvStore, key: Option<String>) -> (r: Response)
    ensures
        remove_outcome(old(store)@, key, final(store)@, r),
{
    match key {
        None => text_response(BAD_REQUEST, "Invalid query string"),
        Some(k) => {
            store.remove(k.as_str());
            text_response(OK, "Value removed")
        },
    }
}

fn path_is(path: &String, expected: &str) -> (r: bool)
    ensures
        r == (path@ == expected@),
{
    let expected = String::from_str(expected);
    path.eq(&expected)
}

/// Which endpoint a method and a path reach, or the status that refuses them.
pub fn route(method: Method, path: &String) -> (r: Result<Endpoint, u16>)
    ensures
        r == route_of(method, path@),
{
    if path_is(path, "/set") {
        if method == Method::Post { Ok(Endpoint::SetValue) } else { Err(METHOD_NOT_ALLOWED) }
    } else if path_is(path, "/get") {
        if method == Method::Get { Ok(Endpoint::GetValue) } else { Err(METHOD_NOT_ALLOWED) }
    } else if path_is(path, "/remove") {
        if method == Method::Delete { Ok(Endpoint::RemoveValue) } else { Err(METHOD_NOT_ALLOWED) }
    } else {
        Err(NOT_FOUND)
    }
}

/// Answers one request: routes it, runs at most one store operation, and
/// renders that operation's outcome. A refused route leaves the store alone
/// and answers with its status and an empty body.
pub fn handle(store: &mut KvStore, request: Request) -> (r: Response)
    ensures
        match route_of(request.method, request.path@) {
            Err(status) => final(store)@ == old(store)@ && responds(
                r,
                status,
                ContentType::Text,
                Seq::empty(),
            ),
            Ok(Endpoint::SetValue) => set_outcome(old(store)@, request.body, final(store)@, r),
            Ok(Endpoint::GetValue) => final(store)@ == old(store)@ && get_outcome(
                old(store)@,
                request.key,
                r,
            ),
            Ok(Endpoint::RemoveValue) => remove_outcome(old(store)@, request.key, final(store)@, r),
        },
{
    match route(request.method, &request.path) {
        Err(status) => Response { status, content_type: ContentType::Text, body: String::new() },
        Ok(Endpoint::SetValue) => handle_set(store, request.body),
        Ok(Endpoint::GetValue) => handle_get(store, request.key),
        Ok(Endpoint::RemoveValue) => handle_remove(store, request.key),
    }
}

} // verus!
