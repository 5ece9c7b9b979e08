//! Typed access to HTTP headers, and the gateway's error answers.

use crate::json::{json_escape, json_escaped};
use crate::outside::{mime_parts, parse_mime, string_from_utf8};
use crate::text::{
    eq_ignore_ascii_case, eq_ignoring_ascii_case, parse_usize, parse_usize_spec,
};
use vstd::prelude::*;
use vstd::utf8::*;

verus! {

/// One header line: its name and the bytes of its value.
#[derive(Debug, Clone, PartialEq, Eq)]
pub struct HeaderEntry {
    pub name: String,
    pub value: Vec<u8>,
}

/// The headers of a message, in the order in which they arrived.
#[derive(Debug, Clone, PartialEq, Eq)]
pub struct HeaderMap {
    pub entries: Vec<HeaderEntry>,
}

impl View for HeaderMap {
    type V = Seq<(Seq<char>, Seq<u8>)>;

    open spec fn view(&self) -> Seq<(Seq<char>, Seq<u8>)> {
        Seq::new(
            self.entries@.len(),
            |i: int| (self.entries@[i].name@, self.entries@[i].value@),
        )
    }
}

/// The value of the first header with the given name. Names match without
/// regard to the case of ASCII letters.
pub open spec fn header_value(headers: Seq<(Seq<char>, Seq<u8>)>, key: Seq<char>) -> Option<
    Seq<u8>,
>
    decreases headers.len(),
{
    if headers.len() == 0 {
        None
    } else if eq_ignoring_ascii_case(headers[0].0, key) {
        Some(headers[0].1)
    } else {
        header_value(headers.drop_first(), key)
    }
}

/// Why a header could not be read.
#[derive(Debug, Clone, Copy, PartialEq, Eq, Structural)]
pub enum HeaderError {
    /// A required header is absent.
    Missing,
    /// The value is no UTF-8 text.
    NotText,
    /// The value is no decimal number that fits the machine.
    NotNumber,
    /// The value is no media type.
    NotMediaType,
}

/// A header's value as text: absent headers have none, and a value that is no
/// UTF-8 is an error.
pub open spec fn header_text(headers: Seq<(Seq<char>, Seq<u8>)>, key: Seq<char>) -> Result<
    Option<Seq<char>>,
    HeaderError,
> {
    match header_value(headers, key) {
        None => Ok(None),
        Some(bytes) => if valid_utf8(bytes) {
            Ok(Some(decode_utf8(bytes)))
        } else {
            Err(HeaderError::NotText)
        },
    }
}

/// A required header's value as text.
pub open spec fn required_header_text(headers: Seq<(Seq<char>, Seq<u8>)>, key: Seq<char>) -> Result<
    Seq<char>,
    HeaderError,
> {
    match header_text(headers, key) {
        Ok(Some(text)) => Ok(text),
        Ok(None) => Err(HeaderError::Missing),
        Err(e) => Err(e),
    }
}

/// What `Content-Length` announces.
pub open spec fn content_length_of(headers: Seq<(Seq<char>, Seq<u8>)>) -> Result<
    Option<usize>,
    HeaderError,
> {
    match header_text(headers, "content-length"@) {
        Err(e) => Err(e),
        Ok(None) => Ok(None),
        Ok(Some(text)) => match parse_usize_spec(text) {
            Some(n) => Ok(Some(n)),
            None => Err(HeaderError::NotNumber),
        },
    }
}

/// A media type: type and subtype in lower case, and the suffix behind `+`.
#[derive(Debug, Clone, PartialEq, Eq)]
pub struct ContentType {
    pub type_: String,
    pub subtype: String,
    pub suffix: Option<String>,
}

/// The mathematical content of a [`ContentType`].
pub ghost struct ContentTypeView {
    pub type_: Seq<char>,
    pub subtype: Seq<char>,
    pub suffix: Option<Seq<char>>,
}

impl View for ContentType {
    type V = ContentTypeView;

    open spec fn view(&self) -> ContentTypeView {
        ContentTypeView {
            type_: self.type_@,
            subtype: self.subtype@,
            suffix: match self.suffix {
                Some(s) => Some(s@),
                None => None,
            },
        }
    }
}

/// The media type that a text denotes.
pub open spec fn media_type_of(text: Seq<char>) -> Option<ContentTypeView> {
    match mime_parts(text) {
        Some(parts) => Some(
            ContentTypeView { type_: parts.0, subtype: parts.1, suffix: parts.2 },
        ),
        None => None,
    }
}

/// What `Content-Type` announces.
pub open spec fn content_type_of(headers: Seq<(Seq<char>, Seq<u8>)>) -> Result<
    Option<ContentTypeView>,
    HeaderError,
> {
    match header_text(headers, "content-type"@) {
        Err(e) => Err(e),
        Ok(None) => Ok(None),
        Ok(Some(text)) => match media_type_of(text) {
            Some(t) => Ok(Some(t)),
            None => Err(HeaderError::NotMediaType),
        },
    }
}

/// The views of an optional media type.
pub open spec fn content_type_view(t: Option<ContentType>) -> Option<ContentTypeView> {
    match t {
        Some(t) => Some(t@),
        None => None,
    }
}

/// The view of an optional text.
pub open spec fn text_view(t: Option<String>) -> Option<Seq<char>> {
    match t {
        Some(t) => Some(t@),
        None => None,
    }
}

impl ContentType {
    /// Reads a media type.
    pub fn parse(text: &str) -> (r: Option<ContentType>)
        ensures
            content_type_view(r) == media_type_of(text@),
    {
        match parse_mime(text) {
            Some((type_, subtype, suffix)) => Some(ContentType { type_, subtype, suffix }),
            None => None,
        }
    }
}

impl HeaderMap {
    /// No headers.
    pub fn new() -> (r: Self)
        ensures
            r@ == Seq::<(Seq<char>, Seq<u8>)>::empty(),
    {
        let r = HeaderMap { entries: Vec::new() };
        assert(r@ =~= Seq::<(Seq<char>, Seq<u8>)>::empty());
        r
    }

    /// Appends a header line.
    pub fn append(&mut self, name: &str, value: &[u8])
        ensures
            final(self)@ == old(self)@.push((name@, value@)),
    {
        let entry = HeaderEntry {
            name: String::from_str(name),
            value: vstd::slice::slice_to_vec(value),
        };
        self.entries.push(entry);
        assert(self@ =~= old(self)@.push((name@, value@)));
    }

    /// The value of the first header with the given name.
    pub fn get(&self, key: &str) -> (r: Option<&Vec<u8>>)
        ensures
            match r {
                Some(v) => header_value(self@, key@) == Some(v@),
                None => header_value(self@, key@) is None,
            },
    {
        let n = self.entries.len();
        let mut i: usize = 0;
        assert(self@.skip(0) =~= self@);
        while i < n
            invariant
                i <= n,
                n == self.entries@.len(),
                header_value(self@, key@) == header_value(self@.skip(i as int), key@),
            decreases n - i,
        {
            let ghost rest = self@.skip(i as int);
            assert(rest[0] == self@[i as int]);
            assert(rest.drop_first() =~= self@.skip(i + 1));
            if eq_ignore_ascii_case(self.entries[i].name.as_str(), key) {
                return Some(&self.entries[i].value);
            }
            i += 1;
        }
        None
    }
}

/// Reads a header as text.
pub fn get_str_header(headers: &HeaderMap, key: &str) -> (r: Result<Option<String>, HeaderError>)
    ensures
        match r {
            Ok(t) => header_text(headers@, key@) == Ok::<Option<Seq<char>>, HeaderError>(
                text_view(t),
            ),
            Err(e) => header_text(headers@, key@) == Err::<Option<Seq<char>>, HeaderError>(e),
        },
{
    match headers.get(key) {
        None => Ok(None),
        Some(bytes) => match string_from_utf8(bytes.as_slice()) {
            Some(text) => Ok(Some(text)),
            None => Err(HeaderError::NotText),
        },
    }
}

/// Reads a header that must be there as text.
pub fn get_required_str_header(headers: &HeaderMap, key: &str) -> (r: Result<String, HeaderError>)
    ensures
        match r {
            Ok(t) => required_header_text(headers@, key@) == Ok::<Seq<char>, HeaderError>(t@),
            Err(e) => required_header_text(headers@, key@) == Err::<Seq<char>, HeaderError>(e),
        },
{
    match get_str_header(headers, key) {
        Ok(Some(text)) => Ok(text),
        Ok(None) => Err(HeaderError::Missing),
        Err(e) => Err(e),
    }
}

/// Reads `Content-Length`.
pub fn get_content_length(headers: &HeaderMap) -> (r: Result<Option<usize>, HeaderError>)
    ensures
        r == content_length_of(headers@),
{
    match get_str_header(headers, "content-length") {
        Err(e) => Err(e),
        Ok(None) => Ok(None),
        Ok(Some(text)) => match parse_usize(text.as_str()) {
            Some(n) => Ok(Some(n)),
            None => Err(HeaderError::NotNumber),
        },
    }
}

/// Reads `Content-Type`.
pub fn get_content_type(headers: &HeaderMap) -> (r: Result<Option<ContentType>, HeaderError>)
    ensures
        match r {
            Ok(t) => content_type_of(headers@) == Ok::<Option<ContentTypeView>, HeaderError>(
                content_type_view(t),
            ),
            Err(e) => content_type_of(headers@) == Err::<Option<ContentTypeView>, HeaderError>(e),
        },
{
    match get_str_header(headers, "content-type") {
        Err(e) => Err(e),
        Ok(None) => Ok(None),
        Ok(Some(text)) => match ContentType::parse(text.as_str()) {
            Some(t) => Ok(Some(t)),
            None => Err(HeaderError::NotMediaType),
        },
    }
}

/// An answer of the gateway.
#[derive(Debug, Clone, PartialEq, Eq)]
pub struct Response {
    pub status: u16,
    /// The `Content-Type` header, if the answer has one.
    pub content_type: Option<String>,
    /// The `Content-Length` header, if the answer has one.
    pub content_length: Option<usize>,
    /// Whether the answer carries `Connection: close`.
    pub close_connection: bool,
    pub body: String,
}

/// The mathematical content of a [`Response`].
pub ghost struct ResponseView {
    pub status: u16,
    pub content_type: Option<Seq<char>>,
    pub content_length: Option<usize>,
    pub close_connection: bool,
    pub body: Seq<char>,
}

impl View for Response {
    type V = ResponseView;

    open spec fn view(&self) -> ResponseView {
        ResponseView {
            status: self.status,
            content_type: text_view(self.content_type),
            content_length: self.content_length,
            close_connection: self.close_connection,
            body: self.body@,
        }
    }
}

/// The JSON answer with the given status and text: its length header is the
/// number of bytes of the text in UTF-8.
pub open spec fn json_response(status: u16, body: Seq<char>, close: bool) -> ResponseView {
    ResponseView {
        status,
        content_type: Some("application/json"@),
        content_length: Some(encode_utf8(body).len() as usize),
        close_connection: close,
        body,
    }
}

/// The body of an error answer that names no request: a JSON object whose
/// member `desc` is the description, escaped as a JSON string.
pub open spec fn error_json(desc: Seq<char>) -> Seq<char> {
    "{\"desc\":\""@ + json_escaped(desc) + "\"}"@
}

/// The body of an error answer for a request: a JSON object whose members
/// `request_id` and `desc` are the request's id and the description, each
/// escaped as a JSON string.
pub open spec fn error_json_with_id(desc: Seq<char>, request_id: Seq<char>) -> Seq<char> {
    "{\"request_id\":\""@ + json_escaped(request_id) + "\",\"desc\":\""@ + json_escaped(desc)
        + "\"}"@
}

/// Builds a JSON answer around a finished body.
pub fn json_response_from(status: u16, body: String, close: bool) -> (r: Response)
    ensures
        r@ == json_response(status, body@, close),
{
    let length = body.as_str().len();
    Response {
        status,
        content_type: Some(String::from_str("application/json")),
        content_length: Some(length),
        close_connection: close,
        body,
    }
}

/// The error answer that names no request.
pub fn response_with_status_and_error(status: u16, err_desc: &str) -> (r: Response)
    ensures
        r@ == json_response(status, error_json(err_desc@), false),
{
    let mut body = String::from_str("{\"desc\":\"");
    let desc = json_escape(err_desc);
    body.append(desc.as_str());
    body.append("\"}");
    json_response_from(status, body, false)
}

/// The error answer for a request: it names the request and closes the
/// connection.
pub fn response_with_status_desc_and_trace_id(status: u16, err_desc: &str, trace_id: &str) -> (r:
    Response)
    ensures
        r@ == json_response(status, error_json_with_id(err_desc@, trace_id@), true),
{
    let mut body = String::from_str("{\"request_id\":\"");
    let id = json_escape(trace_id);
    body.append(id.as_str());
    body.append("\",\"desc\":\"");
    let desc = json_escape(err_desc);
    body.append(desc.as_str());
    body.append("\"}");
    json_response_from(status, body, true)
}

} // verus!
