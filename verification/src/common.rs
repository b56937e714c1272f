//! The values that one exchange is made of: the request as it is read, the
//! response as it is written, and the status codes between them.

use crate::json::{
    as_str, as_u64, is_object, json_document, json_text, json_view, member, parse, string_value,
    to_text, Json, JsonNumber,
};
use crate::text::{
    chars_of, decimal, find_char, find_in, has_prefix_at, piece, push_decimal, slice, split_once,
    text_of, trim_bounds, trimmed, without_line_end,
};
use vstd::hash_map::StringHashMap;
use vstd::prelude::*;
use vstd::string::StringExecFns;
use vstd::utf8::{decode_utf8, valid_utf8};

verus! {

/// What can go wrong below the exchange itself.
#[derive(Debug)]
pub enum NetworkError {
    /// The server could not go on.
    ServerError,
}

/// The method that a request line names.
#[derive(Clone, Copy, Debug, PartialEq, Eq, Structural)]
pub enum HttpMethod {
    GET,
    POST,
    UNKNOWN,
}

impl Default for HttpMethod {
    /// The method of a request whose request line was not read yet.
    fn default() -> (r: Self)
        ensures
            r == HttpMethod::UNKNOWN,
    {
        HttpMethod::UNKNOWN
    }
}

/// The reason phrase that goes with a status code.
pub open spec fn phrase_of(code: u16) -> Seq<char> {
    if code == 200 {
        "OK"@
    } else if code == 400 {
        "Bad Request"@
    } else if code == 405 {
        "Method Not Allowed"@
    } else if code == 500 {
        "Internal Server Error"@
    } else if code == 505 {
        "HTTP Version Not Supported"@
    } else {
        "Unknown"@
    }
}

/// A status code. Its view is the number.
#[derive(Clone, Copy, Debug)]
pub struct HttpStatusCode(u16);

impl View for HttpStatusCode {
    type V = u16;

    closed spec fn view(&self) -> u16 {
        self.0
    }
}

impl HttpStatusCode {
    /// The number of this status code.
    pub fn code(&self) -> (c: u16)
        ensures
            c == self@,
    {
        self.0
    }

    /// The reason phrase of this status code; `Unknown` for a code that has
    /// none.
    pub fn get_phrase(&self) -> (r: &'static str)
        ensures
            r@ == phrase_of(self@),
    {
        if self.0 == 200 {
            "OK"
        } else if self.0 == 400 {
            "Bad Request"
        } else if self.0 == 405 {
            "Method Not Allowed"
        } else if self.0 == 500 {
            "Internal Server Error"
        } else if self.0 == 505 {
            "HTTP Version Not Supported"
        } else {
            "Unknown"
        }
    }

    /// 200 OK.
    pub fn ok() -> (r: Self)
        ensures
            r@ == 200,
    {
        Self { 0: 200 }
    }

    /// 400 Bad Request.
    pub fn bad_request() -> (r: Self)
        ensures
            r@ == 400,
    {
        Self { 0: 400 }
    }

    /// 405 Method Not Allowed.
    pub fn method_not_allowed() -> (r: Self)
        ensures
            r@ == 405,
    {
        Self { 0: 405 }
    }

    /// 500 Internal Server Error.
    pub fn internal_server_error() -> (r: Self)
        ensures
            r@ == 500,
    {
        Self { 0: 500 }
    }

    /// 505 HTTP Version Not Supported.
    pub fn http_version_not_supported() -> (r: Self)
        ensures
            r@ == 505,
    {
        Self { 0: 505 }
    }
}

/// The characters of each value of a map of strings.
pub open spec fn text_map(m: Map<Seq<char>, String>) -> Map<Seq<char>, Seq<char>> {
    m.map_values(|v: String| v@)
}

/// The text that a response is on the wire: the status line, an empty line, the
/// body. No header line is written.
pub open spec fn wire(version: Seq<char>, code: u16, body: Seq<char>) -> Seq<char> {
    version + seq![' '] + decimal(code as nat) + seq![' '] + phrase_of(code) + seq![
        '\r',
        '\n',
        '\r',
        '\n',
    ] + body
}

/// What a response holds, as plain values.
pub ghost struct HttpResponseView {
    pub version: Seq<char>,
    pub status: u16,
    pub headers: Map<Seq<char>, Seq<char>>,
    pub body: Seq<char>,
}

/// A response under construction.
pub struct HttpResponse {
    pub http_version: String,
    pub status_code: HttpStatusCode,
    pub headers: StringHashMap<String>,
    pub body: String,
}

impl View for HttpResponse {
    type V = HttpResponseView;

    open spec fn view(&self) -> HttpResponseView {
        HttpResponseView {
            version: self.http_version@,
            status: self.status_code@,
            headers: text_map(self.headers@),
            body: self.body@,
        }
    }
}

impl HttpResponse {
    /// A response with status 200 in version `HTTP/1.1`, without headers and
    /// with an empty body.
    pub fn new() -> (r: Self)
        ensures
            r@ == (HttpResponseView {
                version: "HTTP/1.1"@,
                status: 200,
                headers: Map::empty(),
                body: Seq::empty(),
            }),
    {
        let r = Self {
            http_version: "HTTP/1.1".to_owned(),
            status_code: HttpStatusCode::ok(),
            headers: StringHashMap::new(),
            body: String::new(),
        };
        assert(text_map(r.headers@) =~= Map::empty());
        r
    }

    /// Appends `body` to the body.
    pub fn write_body(&mut self, body: String)
        ensures
            final(self)@ == (HttpResponseView { body: old(self)@.body + body@, ..old(self)@ }),
    {
        self.body.append(body.as_str());
    }

    /// Sets the status code.
    pub fn set_status(&mut self, sc: HttpStatusCode)
        ensures
            final(self)@ == (HttpResponseView { status: sc@, ..old(self)@ }),
    {
        self.status_code = sc;
    }

    /// Sets the version.
    pub fn set_http_version(&mut self, hv: String)
        ensures
            final(self)@ == (HttpResponseView { version: hv@, ..old(self)@ }),
    {
        self.http_version = hv;
    }

    /// The response as it goes on the wire. The headers are not written.
    pub fn to_string(&self) -> (r: String)
        ensures
            r@ == wire(self@.version, self@.status, self@.body),
    {
        proof {
            reveal_strlit(" ");
            reveal_strlit("\r\n\r\n");
        }
        let mut out = String::new();
        out.append(self.http_version.as_str());
        out.append(" ");
        push_decimal(&mut out, self.status_code.code() as u64);
        out.append(" ");
        out.append(self.status_code.get_phrase());
        out.append("\r\n\r\n");
        out.append(self.body.as_str());
        assert(out@ =~= wire(self@.version, self@.status, self@.body));
        out
    }
}

/// The method that the first piece of a request line stands for. The piece is
/// taken as it is written: `get` is not `GET`.
pub open spec fn method_of(token: Seq<char>) -> HttpMethod {
    if token == "GET"@ {
        HttpMethod::GET
    } else if token == "POST"@ {
        HttpMethod::POST
    } else {
        HttpMethod::UNKNOWN
    }
}

/// The piece number `n` of a request line: the line is trimmed and cut at every
/// single space. A piece that the line does not have is empty.
pub open spec fn request_line_piece(line: Seq<char>, n: nat) -> Seq<char> {
    match piece(trimmed(line), ' ', n) {
        Some(p) => p,
        None => Seq::empty(),
    }
}

/// The method that a request line names.
pub open spec fn request_line_method(line: Seq<char>) -> HttpMethod {
    method_of(request_line_piece(line, 0))
}

/// The path that a request line names.
pub open spec fn request_line_path(line: Seq<char>) -> Seq<char> {
    request_line_piece(line, 1)
}

/// The protocol version that a request line names.
pub open spec fn request_line_version(line: Seq<char>) -> Seq<char> {
    request_line_piece(line, 2)
}

/// The name and the value that a header line holds: what stands before and
/// after the first colon that a space follows. The carriage return and line
/// feed that end the line are no part of the value. `None` where the line holds
/// no such colon.
pub open spec fn header_of(line: Seq<char>) -> Option<(Seq<char>, Seq<char>)> {
    split_once(without_line_end(line), seq![':', ' '])
}

/// What a request holds, as plain values.
pub ghost struct HttpRequestView {
    pub method: HttpMethod,
    pub path: Seq<char>,
    pub version: Seq<char>,
    pub headers: Map<Seq<char>, Seq<char>>,
    pub body: Seq<u8>,
}

/// A request as it is read, piece by piece: the request line, then the header
/// lines, then the body.
pub struct HttpRequest {
    method: HttpMethod,
    path: String,
    http_version: String,
    pub headers: StringHashMap<String>,
    pub body: Vec<u8>,
}

impl View for HttpRequest {
    type V = HttpRequestView;

    closed spec fn view(&self) -> HttpRequestView {
        HttpRequestView {
            method: self.method,
            path: self.path@,
            version: self.http_version@,
            headers: text_map(self.headers@),
            body: self.body@,
        }
    }
}

impl Default for HttpRequest {
    /// A request of which nothing was read yet.
    fn default() -> (r: Self)
        ensures
            r@ == (HttpRequestView {
                method: HttpMethod::UNKNOWN,
                path: Seq::empty(),
                version: Seq::empty(),
                headers: Map::empty(),
                body: Seq::empty(),
            }),
    {
        let r = Self {
            method: HttpMethod::UNKNOWN,
            path: String::new(),
            http_version: String::new(),
            headers: StringHashMap::new(),
            body: Vec::new(),
        };
        assert(text_map(r.headers@) =~= Map::empty());
        r
    }
}

/// Tells whether the characters of `v` from `from` up to `to` are those of
/// `word`.
fn range_is(v: &Vec<char>, from: usize, to: usize, word: &str) -> (b: bool)
    requires
        from <= to <= v.len(),
    ensures
        b == (v@.subrange(from as int, to as int) == word@),
{
    let w = chars_of(word);
    let b = to - from == w.len() && has_prefix_at(v, from, &w);
    proof {
        if to - from == w.len() {
            assert(v@.skip(from as int).take(w.len() as int) =~= v@.subrange(
                from as int,
                to as int,
            ));
        }
    }
    b
}

impl HttpRequest {
    /// Takes the request line: sets method, path and version from it, and leaves
    /// headers and body as they are. No line is refused.
    pub fn push_state(&mut self, line: String)
        ensures
            final(self)@ == (HttpRequestView {
                method: request_line_method(line@),
                path: request_line_path(line@),
                version: request_line_version(line@),
                ..old(self)@
            }),
    {
        let text = line.as_str();
        let cs = chars_of(text);
        let (a, b) = trim_bounds(&cs);
        let ghost t = trimmed(line@);
        proof {
            reveal_with_fuel(piece, 3);
        }
        let i0 = find_char(&cs, a, b, ' ');
        assert(t.take(i0 - a) =~= cs@.subrange(a as int, i0 as int));
        let method = if range_is(&cs, a, i0, "GET") {
            HttpMethod::GET
        } else if range_is(&cs, a, i0, "POST") {
            HttpMethod::POST
        } else {
            HttpMethod::UNKNOWN
        };
        let mut path = String::new();
        let mut version = String::new();
        if i0 < b {
            let ghost t1 = t.skip(i0 - a + 1);
            assert(t1 =~= cs@.subrange(i0 + 1, b as int));
            let i1 = find_char(&cs, i0 + 1, b, ' ');
            assert(t1.take(i1 - i0 - 1) =~= cs@.subrange(i0 + 1, i1 as int));
            path = slice(text, i0 + 1, i1);
            if i1 < b {
                let ghost t2 = t1.skip(i1 - i0);
                assert(t2 =~= cs@.subrange(i1 + 1, b as int));
                let i2 = find_char(&cs, i1 + 1, b, ' ');
                assert(t2.take(i2 - i1 - 1) =~= cs@.subrange(i1 + 1, i2 as int));
                version = slice(text, i1 + 1, i2);
            }
        }
        self.method = method;
        self.path = path;
        self.http_version = version;
    }

    /// Takes one header line. A line that holds a name and a value sets that
    /// header, in place of an earlier value of the same name; any other line is
    /// passed over.
    pub fn push_headers(&mut self, line: String)
        ensures
            final(self)@ == (HttpRequestView {
                headers: match header_of(line@) {
                    Some((name, value)) => old(self)@.headers.insert(name, value),
                    None => old(self)@.headers,
                },
                ..old(self)@
            }),
    {
        let text = line.as_str();
        let mut cs = chars_of(text);
        let n: usize = cs.len();
        let end: usize = if n >= 2 && cs[n - 2] == '\r' && cs[n - 1] == '\n' {
            n - 2
        } else {
            n
        };
        cs.truncate(end);
        assert(cs@ =~= without_line_end(line@));
        let separator: Vec<char> = vec![':', ' '];
        assert(separator@ =~= seq![':', ' ']);
        let at = find_in(&cs, &separator);
        if at < end {
            let name = slice(text, 0, at);
            let value = slice(text, at + 2, end);
            assert(name@ =~= cs@.take(at as int));
            assert(value@ =~= cs@.skip(at + 2));
            let ghost before = self.headers@;
            self.headers.insert(name, value);
            assert(text_map(self.headers@) =~= text_map(before).insert(name@, value@));
        }
    }

    /// Appends `body` to the body of this request, and leaves `body` empty.
    pub fn push_body(&mut self, body: &mut Vec<u8>)
        ensures
            final(self)@ == (HttpRequestView { body: old(self)@.body + old(body)@, ..old(self)@ }),
            final(body)@ == Seq::<u8>::empty(),
    {
        self.body.append(body);
    }

    /// The body as text; `None` where it is not UTF-8.
    pub fn body_text(&self) -> (r: Option<String>)
        ensures
            match r {
                Some(s) => valid_utf8(self@.body) && s@ == decode_utf8(self@.body),
                None => !valid_utf8(self@.body),
            },
    {
        text_of(self.body.clone())
    }

    /// Tells whether the request line named `method`.
    pub fn method_is(&self, method: HttpMethod) -> (b: bool)
        ensures
            b == (self@.method == method),
    {
        self.method == method
    }

    /// The version that the request line named.
    pub fn http_version(&self) -> (r: &String)
        ensures
            r@ == self@.version,
    {
        &self.http_version
    }
}

/// Why a text is no call.
#[derive(Clone, Copy, Debug, PartialEq, Eq, Structural)]
pub enum DecodeError {
    /// The text is not one JSON document.
    NotJson,
    /// The document is not an object.
    NotAnObject,
    /// The object has no member `method` that is a string.
    NoMethod,
    /// The object has no member `args` that is an object.
    NoArgs,
    /// The object has no member `id` that is an integer, not negative and
    /// within `usize`.
    NoId,
}

/// What a call holds, as plain values.
pub ghost struct JsonRpcRequestView {
    pub method: Seq<char>,
    pub args: Map<Seq<char>, Json>,
    pub id: usize,
}

/// The member `name` of `o`, where it is a string.
pub open spec fn text_member(o: Map<Seq<char>, Json>, name: Seq<char>) -> Option<Seq<char>> {
    if o.contains_key(name) {
        match o[name] {
            Json::Text(t) => Some(t),
            _ => None,
        }
    } else {
        None
    }
}

/// The member `name` of `o`, where it is an object.
pub open spec fn object_member(o: Map<Seq<char>, Json>, name: Seq<char>) -> Option<
    Map<Seq<char>, Json>,
> {
    if o.contains_key(name) {
        match o[name] {
            Json::Object(m) => Some(m),
            _ => None,
        }
    } else {
        None
    }
}

/// The member `name` of `o`, where it is an integer, not negative and within
/// `usize`.
pub open spec fn index_member(o: Map<Seq<char>, Json>, name: Seq<char>) -> Option<usize> {
    if o.contains_key(name) {
        match o[name] {
            Json::Number(JsonNumber::PosInt(n)) => if n <= usize::MAX {
                Some(n as usize)
            } else {
                None
            },
            _ => None,
        }
    } else {
        None
    }
}

/// The call that the JSON document `doc` is: an object with a string `method`,
/// an object `args` and an `id` that is an integer, not negative and within
/// `usize`. Other members are passed over. The first of `method`, `args`, `id`
/// that is missing or of another type decides the error.
pub open spec fn request_of(doc: Json) -> Result<JsonRpcRequestView, DecodeError> {
    match doc {
        Json::Object(o) => match (
            text_member(o, "method"@),
            object_member(o, "args"@),
            index_member(o, "id"@),
        ) {
            (Some(method), Some(args), Some(id)) => Ok(JsonRpcRequestView { method, args, id }),
            (Some(_), Some(_), None) => Err(DecodeError::NoId),
            (Some(_), None, _) => Err(DecodeError::NoArgs),
            (None, _, _) => Err(DecodeError::NoMethod),
        },
        _ => Err(DecodeError::NotAnObject),
    }
}

/// The call that `text` is.
pub open spec fn decoded(text: Seq<char>) -> Result<JsonRpcRequestView, DecodeError> {
    match json_document(text) {
        Some(doc) => request_of(doc),
        None => Err(DecodeError::NotJson),
    }
}

/// The members of `value`, where it is an object.
pub open spec fn members(value: Json) -> Map<Seq<char>, Json> {
    match value {
        Json::Object(o) => o,
        _ => Map::empty(),
    }
}

/// A call: the name of the operation, its arguments by name, and the id that
/// the answer repeats.
#[derive(Debug)]
pub struct JsonRpcRequest {
    method: String,
    args: serde_json::Value,
    id: usize,
}

impl View for JsonRpcRequest {
    type V = JsonRpcRequestView;

    closed spec fn view(&self) -> JsonRpcRequestView {
        JsonRpcRequestView {
            method: self.method@,
            args: members(json_view(self.args)),
            id: self.id,
        }
    }
}

impl JsonRpcRequest {
    /// The arguments are held as a JSON object.
    #[verifier::type_invariant]
    spec fn well_formed(self) -> bool {
        json_view(self.args) is Object
    }

    /// Reads a call from a JSON document.
    pub fn from_value(doc: &serde_json::Value) -> (r: Result<Self, DecodeError>)
        ensures
            match r {
                Ok(q) => request_of(json_view(*doc)) == Ok::<JsonRpcRequestView, DecodeError>(q@),
                Err(e) => request_of(json_view(*doc)) == Err::<JsonRpcRequestView, DecodeError>(e),
            },
    {
        if !is_object(doc) {
            return Err(DecodeError::NotAnObject);
        }
        let method = match member(doc, "method") {
            Some(m) => match as_str(m) {
                Some(s) => s.to_owned(),
                None => { return Err(DecodeError::NoMethod); },
            },
            None => { return Err(DecodeError::NoMethod); },
        };
        let args = match member(doc, "args") {
            Some(a) => if is_object(a) {
                a.clone()
            } else {
                return Err(DecodeError::NoArgs);
            },
            None => { return Err(DecodeError::NoArgs); },
        };
        let id: usize = match member(doc, "id") {
            Some(i) => match as_u64(i) {
                Some(n) => if n <= usize::MAX as u64 {
                    n as usize
                } else {
                    return Err(DecodeError::NoId);
                },
                None => { return Err(DecodeError::NoId); },
            },
            None => { return Err(DecodeError::NoId); },
        };
        Ok(Self { method, args, id })
    }

    /// Reads a call from JSON text.
    pub fn decode(text: &str) -> (r: Result<Self, DecodeError>)
        ensures
            match r {
                Ok(q) => decoded(text@) == Ok::<JsonRpcRequestView, DecodeError>(q@),
                Err(e) => decoded(text@) == Err::<JsonRpcRequestView, DecodeError>(e),
            },
    {
        match parse(text) {
            Ok(doc) => Self::from_value(&doc),
            Err(_) => Err(DecodeError::NotJson),
        }
    }

    /// The name of the operation that is called.
    pub fn method(&self) -> (r: &String)
        ensures
            r@ == self@.method,
    {
        &self.method
    }

    /// The argument of the given name, where the call has one.
    pub fn get_arg_value(&self, name: &String) -> (r: Option<&serde_json::Value>)
        ensures
            match r {
                Some(v) => self@.args.contains_key(name@) && self@.args[name@] == json_view(*v),
                None => !self@.args.contains_key(name@),
            },
    {
        proof {
            use_type_invariant(self);
        }
        member(&self.args, name.as_str())
    }

    /// The id of the call.
    pub fn id(&self) -> (r: usize)
        ensures
            r == self@.id,
    {
        self.id
    }
}

/// What an answer holds, as plain values.
pub ghost struct JsonRpcResponseView {
    pub result: Option<Json>,
    pub error: Option<Seq<char>>,
    pub id: usize,
}

/// One member of a JSON object as it is written, with the comma that parts it
/// from the next: the name in quotes, a colon, the value. Nothing where the
/// member is absent.
pub open spec fn member_text(name: Seq<char>, value: Option<Seq<char>>) -> Seq<char> {
    match value {
        Some(v) => seq!['"'] + name + seq!['"', ':'] + v + seq![','],
        None => Seq::empty(),
    }
}

/// The text of an answer: a JSON object with `result` and `error`, each only
/// where it is present and as the given JSON text, and `id` after them.
pub open spec fn envelope(result: Option<Seq<char>>, error: Option<Seq<char>>, id: nat) -> Seq<
    char,
> {
    seq!['{'] + member_text("result"@, result) + member_text("error"@, error) + seq![
        '"',
        'i',
        'd',
        '"',
        ':',
    ] + decimal(id) + seq!['}']
}

/// The JSON text of the result of `r`, where it has one that can be written.
pub open spec fn result_text(r: JsonRpcResponseView) -> Option<Seq<char>> {
    match r.result {
        Some(v) => json_text(v),
        None => None,
    }
}

/// The JSON text of the error message of `r`, where it has one that can be
/// written.
pub open spec fn error_text(r: JsonRpcResponseView) -> Option<Seq<char>> {
    match r.error {
        Some(e) => json_text(Json::Text(e)),
        None => None,
    }
}

/// The text of the answer `r`; `None` where its result or its error message is
/// present and cannot be written.
pub open spec fn encoded(r: JsonRpcResponseView) -> Option<Seq<char>> {
    if (r.result is Some && result_text(r) is None) || (r.error is Some && error_text(r) is None) {
        None
    } else {
        Some(envelope(result_text(r), error_text(r), r.id as nat))
    }
}

/// An answer: the id of the call, and the result or the error message that the
/// handler sets.
#[derive(Debug)]
pub struct JsonRpcResponse {
    result: Option<serde_json::Value>,
    error: Option<String>,
    id: usize,
}

impl View for JsonRpcResponse {
    type V = JsonRpcResponseView;

    closed spec fn view(&self) -> JsonRpcResponseView {
        JsonRpcResponseView {
            result: match self.result {
                Some(v) => Some(json_view(v)),
                None => None,
            },
            error: match self.error {
                Some(e) => Some(e@),
                None => None,
            },
            id: self.id,
        }
    }
}

/// Appends to `out` the member `name` with the JSON text `value`, and a comma.
fn push_member(out: &mut String, name: &str, value: &str)
    ensures
        final(out)@ == old(out)@ + member_text(name@, Some(value@)),
{
    proof {
        reveal_strlit("\"");
        reveal_strlit("\":");
        reveal_strlit(",");
    }
    out.append("\"");
    out.append(name);
    out.append("\":");
    out.append(value);
    out.append(",");
    assert(final(out)@ =~= old(out)@ + member_text(name@, Some(value@)));
}

impl JsonRpcResponse {
    /// An answer to the call of the given id, with no result and no error
    /// message.
    pub fn new(id: usize) -> (r: Self)
        ensures
            r@ == (JsonRpcResponseView { result: None, error: None, id }),
    {
        Self { result: None, error: None, id }
    }

    /// Sets the result, in place of an earlier one.
    pub fn set_result(&mut self, return_value: serde_json::Value)
        ensures
            final(self)@ == (JsonRpcResponseView {
                result: Some(json_view(return_value)),
                ..old(self)@
            }),
    {
        self.result = Some(return_value);
    }

    /// Sets the error message, in place of an earlier one.
    pub fn set_error(&mut self, error_message: String)
        ensures
            final(self)@ == (JsonRpcResponseView { error: Some(error_message@), ..old(self)@ }),
    {
        self.error = Some(error_message);
    }

    /// Writes this answer as JSON text.
    pub fn encode(&self) -> (r: Option<String>)
        ensures
            match r {
                Some(s) => encoded(self@) == Some(s@),
                None => encoded(self@) is None,
            },
    {
        proof {
            reveal_strlit("{");
            reveal_strlit("\"id\":");
            reveal_strlit("}");
        }
        let mut out = String::new();
        out.append("{");
        match &self.result {
            Some(v) => match to_text(v) {
                Ok(t) => {
                    push_member(&mut out, "result", t.as_str());
                },
                Err(_) => {
                    return None;
                },
            },
            None => {},
        }
        match &self.error {
            Some(e) => match to_text(&string_value(e.clone())) {
                Ok(t) => {
                    push_member(&mut out, "error", t.as_str());
                },
                Err(_) => {
                    return None;
                },
            },
            None => {},
        }
        out.append("\"id\":");
        push_decimal(&mut out, self.id as u64);
        out.append("}");
        assert(out@ =~= envelope(result_text(self@), error_text(self@), self.id as nat));
        Some(out)
    }
}

} // verus!
