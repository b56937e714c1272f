//! One connection, from the request line to the response. The connection does
//! no reading and no writing itself: it is told what was read, and says what
//! to do next.

use crate::common::{
    decoded, encoded, envelope, error_text, header_of, request_line_method, request_line_path,
    request_line_version, result_text, wire, HttpMethod, HttpRequest, HttpRequestView,
    HttpResponse, HttpStatusCode, JsonRpcRequest, JsonRpcRequestView, JsonRpcResponse,
    JsonRpcResponseView,
};
use crate::service::RpcService;
use crate::text::{chars_of, has_prefix, has_prefix_at};
use vstd::prelude::*;
use vstd::utf8::{decode_utf8, valid_utf8};

verus! {

/// Where a connection stands.
#[derive(Clone, Copy, Debug, PartialEq, Eq, Structural)]
pub enum Stage {
    /// The request line is awaited.
    RequestLine,
    /// Header lines are read, up to the empty line.
    Headers,
    /// The body is awaited.
    Body,
    /// Nothing more is read or written.
    Closed,
}

/// How the reading of a body ended.
#[derive(Clone, Copy, Debug, PartialEq, Eq, Structural)]
pub enum BodyEnd {
    /// The stream ended.
    Complete,
    /// The read timed out; what had arrived is the body.
    TimedOut,
    /// The read failed otherwise.
    Failed,
}

/// What was read for a connection.
#[derive(Debug, PartialEq, Eq)]
pub enum Event {
    /// One line with its line end, or `None` where reading a line failed.
    Line(Option<String>),
    /// The bytes that arrived after the header lines, and how reading ended.
    Body(Vec<u8>, BodyEnd),
}

/// An event as plain values.
pub ghost enum EventView {
    Line(Option<Seq<char>>),
    Body(Seq<u8>, BodyEnd),
}

impl View for Event {
    type V = EventView;

    open spec fn view(&self) -> EventView {
        match self {
            Event::Line(Some(l)) => EventView::Line(Some(l@)),
            Event::Line(None) => EventView::Line(None),
            Event::Body(b, e) => EventView::Body(b@, *e),
        }
    }
}

/// What to do for a connection next.
#[derive(Debug, PartialEq, Eq)]
pub enum Action {
    /// Read one line and hand it over as the next event.
    ReadLine,
    /// Read what is left of the stream and hand it over as the next event.
    ReadBody,
    /// Write this text, then close.
    Respond(String),
    /// Close without writing.
    Close,
}

/// An action as plain values.
pub ghost enum ActionView {
    ReadLine,
    ReadBody,
    Respond(Seq<char>),
    Close,
}

impl View for Action {
    type V = ActionView;

    open spec fn view(&self) -> ActionView {
        match self {
            Action::ReadLine => ActionView::ReadLine,
            Action::ReadBody => ActionView::ReadBody,
            Action::Respond(t) => ActionView::Respond(t@),
            Action::Close => ActionView::Close,
        }
    }
}

/// The status with which a request line is refused: 405 for any method but
/// POST, else 505 for a version that does not begin with `HTTP/1`. `None` where
/// the line is accepted.
pub open spec fn refusal(line: Seq<char>) -> Option<u16> {
    if request_line_method(line) != HttpMethod::POST {
        Some(405u16)
    } else if !has_prefix(request_line_version(line), "HTTP/1"@) {
        Some(505u16)
    } else {
        None
    }
}

/// The line that ends the header lines.
pub open spec fn is_blank_line(line: Seq<char>) -> bool {
    line == seq!['\r', '\n']
}

/// The call that a body holds: the body is UTF-8, and its text is a call.
pub open spec fn call_of(body: Seq<u8>) -> Option<JsonRpcRequestView> {
    if valid_utf8(body) {
        match decoded(decode_utf8(body)) {
            Ok(q) => Some(q),
            Err(_) => None,
        }
    } else {
        None
    }
}

/// A response without a body.
pub open spec fn bare(version: Seq<char>, code: u16) -> Seq<char> {
    wire(version, code, Seq::empty())
}

/// The response that carries the answer `reply`: status 200 and the text of the
/// answer, or status 400 and no body where the answer cannot be written.
pub open spec fn answer(version: Seq<char>, reply: JsonRpcResponseView) -> Seq<char> {
    match encoded(reply) {
        Some(t) => wire(version, 200, t),
        None => bare(version, 400),
    }
}

/// What a connection holds, as plain values.
pub ghost struct ConnectionView {
    pub stage: Stage,
    pub request: HttpRequestView,
    /// The call that the body held, once it has been read.
    pub call: Option<JsonRpcRequestView>,
    /// The answer as the handler left it.
    pub reply: Option<JsonRpcResponseView>,
}

/// The step from `pre` to `post` on `event`, with `action` to do next.
pub open spec fn step_spec(
    pre: ConnectionView,
    event: EventView,
    post: ConnectionView,
    action: ActionView,
) -> bool {
    match (pre.stage, event) {
        (Stage::RequestLine, EventView::Line(Some(line))) => {
            &&& post.request == (HttpRequestView {
                method: request_line_method(line),
                path: request_line_path(line),
                version: request_line_version(line),
                ..pre.request
            })
            &&& post.call == pre.call
            &&& post.reply == pre.reply
            &&& match refusal(line) {
                Some(code) => {
                    &&& post.stage == Stage::Closed
                    &&& action == ActionView::Respond(bare(request_line_version(line), code))
                },
                None => post.stage == Stage::Headers && action == ActionView::ReadLine,
            }
        },
        (Stage::Headers, EventView::Line(Some(line))) => {
            &&& post.call == pre.call
            &&& post.reply == pre.reply
            &&& if is_blank_line(line) {
                &&& post.request == pre.request
                &&& post.stage == Stage::Body
                &&& action == ActionView::ReadBody
            } else {
                &&& post.request == (HttpRequestView {
                    headers: match header_of(line) {
                        Some((name, value)) => pre.request.headers.insert(name, value),
                        None => pre.request.headers,
                    },
                    ..pre.request
                })
                &&& post.stage == Stage::Headers
                &&& action == ActionView::ReadLine
            }
        },
        (Stage::Headers, EventView::Line(None)) => {
            &&& post == (ConnectionView { stage: Stage::Body, ..pre })
            &&& action == ActionView::ReadBody
        },
        (Stage::Body, EventView::Body(bytes, end)) => {
            let body = pre.request.body + bytes;
            &&& post.stage == Stage::Closed
            &&& if end == BodyEnd::Failed {
                &&& post == (ConnectionView { stage: Stage::Closed, ..pre })
                &&& action == ActionView::Respond(bare(pre.request.version, 400))
            } else {
                &&& post.request == (HttpRequestView { body, ..pre.request })
                &&& match call_of(body) {
                    Some(call) => {
                        &&& post.call == Some(call)
                        &&& post.reply is Some
                        &&& action == ActionView::Respond(
                            answer(pre.request.version, post.reply->0),
                        )
                    },
                    None => {
                        &&& post.call == pre.call
                        &&& post.reply == pre.reply
                        &&& action == ActionView::Respond(bare(pre.request.version, 400))
                    },
                }
            }
        },
        _ => {
            &&& post == (ConnectionView { stage: Stage::Closed, ..pre })
            &&& action == ActionView::Close
        },
    }
}

/// A request line that names any method but POST is answered with status 405
/// and no body, in the version that the line names. The connection is closed
/// with that: what the client sends after the line is never read.
pub proof fn lemma_other_method_refused(
    pre: ConnectionView,
    line: Seq<char>,
    post: ConnectionView,
    action: ActionView,
)
    requires
        pre.stage == Stage::RequestLine,
        request_line_method(line) != HttpMethod::POST,
        step_spec(pre, EventView::Line(Some(line)), post, action),
    ensures
        action == ActionView::Respond(wire(request_line_version(line), 405, Seq::empty())),
        post.stage == Stage::Closed,
{
}

/// A POST request line whose version does not begin with `HTTP/1` is answered
/// with status 505 and no body, and the connection is closed.
pub proof fn lemma_other_version_refused(
    pre: ConnectionView,
    line: Seq<char>,
    post: ConnectionView,
    action: ActionView,
)
    requires
        pre.stage == Stage::RequestLine,
        request_line_method(line) == HttpMethod::POST,
        !has_prefix(request_line_version(line), "HTTP/1"@),
        step_spec(pre, EventView::Line(Some(line)), post, action),
    ensures
        action == ActionView::Respond(wire(request_line_version(line), 505, Seq::empty())),
        post.stage == Stage::Closed,
{
}

/// A POST request line whose version begins with `HTTP/1` is accepted: the
/// header lines are read next.
pub proof fn lemma_request_line_accepted(
    pre: ConnectionView,
    line: Seq<char>,
    post: ConnectionView,
    action: ActionView,
)
    requires
        pre.stage == Stage::RequestLine,
        request_line_method(line) == HttpMethod::POST,
        has_prefix(request_line_version(line), "HTTP/1"@),
        step_spec(pre, EventView::Line(Some(line)), post, action),
    ensures
        action == ActionView::ReadLine,
        post.stage == Stage::Headers,
        post.request.version == request_line_version(line),
{
}

/// The header lines leave the version of the request as the request line set
/// it, so the response is written in that version.
pub proof fn lemma_header_keeps_version(
    pre: ConnectionView,
    line: Option<Seq<char>>,
    post: ConnectionView,
    action: ActionView,
)
    requires
        pre.stage == Stage::Headers,
        step_spec(pre, EventView::Line(line), post, action),
    ensures
        post.request.version == pre.request.version,
        post.request.body == pre.request.body,
        post.stage == Stage::Headers || post.stage == Stage::Body,
{
}

/// A body that holds no call is answered with status 400 and no body: one that
/// is not UTF-8, whose text is not one JSON document, or whose document lacks
/// `method`, `args` or `id` or has one of them in another type.
pub proof fn lemma_malformed_body_refused(
    pre: ConnectionView,
    bytes: Seq<u8>,
    end: BodyEnd,
    post: ConnectionView,
    action: ActionView,
)
    requires
        pre.stage == Stage::Body,
        call_of(pre.request.body + bytes) is None,
        step_spec(pre, EventView::Body(bytes, end), post, action),
    ensures
        action == ActionView::Respond(wire(pre.request.version, 400, Seq::empty())),
        post.stage == Stage::Closed,
{
}

/// A body that holds a call is answered with status 200 and the text of the
/// answer, which carries the id of the call. This holds where the handler left
/// the id of the answer as it was given, and the answer can be written.
pub proof fn lemma_call_answered(
    pre: ConnectionView,
    bytes: Seq<u8>,
    end: BodyEnd,
    post: ConnectionView,
    action: ActionView,
)
    requires
        pre.stage == Stage::Body,
        end != BodyEnd::Failed,
        call_of(pre.request.body + bytes) is Some,
        step_spec(pre, EventView::Body(bytes, end), post, action),
        post.reply->0.id == call_of(pre.request.body + bytes)->0.id,
        encoded(post.reply->0) is Some,
    ensures
        post.reply is Some,
        action == ActionView::Respond(
            wire(
                pre.request.version,
                200,
                envelope(
                    result_text(post.reply->0),
                    error_text(post.reply->0),
                    call_of(pre.request.body + bytes)->0.id as nat,
                ),
            ),
        ),
        post.stage == Stage::Closed,
{
}

/// A connection is answered at most once: the step that answers or gives up
/// closes the connection, and a closed connection is never answered.
pub proof fn lemma_one_response(
    pre: ConnectionView,
    event: EventView,
    post: ConnectionView,
    action: ActionView,
)
    requires
        step_spec(pre, event, post, action),
    ensures
        (action is Respond || action is Close) <==> post.stage == Stage::Closed,
        pre.stage == Stage::Closed ==> action == ActionView::Close,
{
}

/// The text of a response without a body.
pub fn refuse(version: &String, status: HttpStatusCode) -> (r: String)
    ensures
        r@ == bare(version@, status@),
{
    let mut response = HttpResponse::new();
    response.set_http_version(version.clone());
    response.set_status(status);
    response.to_string()
}

/// The text of the response that carries the answer `reply`, as the handler left
/// it.
pub fn respond(version: &String, reply: &JsonRpcResponse) -> (r: String)
    ensures
        r@ == answer(version@, reply@),
{
    let mut response = HttpResponse::new();
    response.set_http_version(version.clone());
    match reply.encode() {
        Some(text) => {
            response.set_status(HttpStatusCode::ok());
            response.write_body(text);
        },
        None => {
            response.set_status(HttpStatusCode::bad_request());
        },
    }
    let r = response.to_string();
    assert(Seq::<char>::empty() + encoded(reply@)->0 =~= encoded(reply@)->0);
    r
}

/// One connection.
pub struct Connection {
    stage: Stage,
    request: HttpRequest,
    call: Option<JsonRpcRequest>,
    reply: Option<JsonRpcResponse>,
}

impl View for Connection {
    type V = ConnectionView;

    closed spec fn view(&self) -> ConnectionView {
        ConnectionView {
            stage: self.stage,
            request: self.request@,
            call: match self.call {
                Some(q) => Some(q@),
                None => None,
            },
            reply: match self.reply {
                Some(r) => Some(r@),
                None => None,
            },
        }
    }
}

impl Connection {
    /// A connection that was just accepted. `timeout_set` tells whether its
    /// read timeout could be set. Where it could not, the connection is answered
    /// with status 500 before anything is read.
    pub fn open(timeout_set: bool) -> (r: (Self, Action))
        ensures
            r.0@.request == (HttpRequestView {
                method: HttpMethod::UNKNOWN,
                path: Seq::empty(),
                version: Seq::empty(),
                headers: Map::empty(),
                body: Seq::empty(),
            }),
            r.0@.call is None,
            r.0@.reply is None,
            timeout_set ==> r.0@.stage == Stage::RequestLine && r.1@ == ActionView::ReadLine,
            !timeout_set ==> r.0@.stage == Stage::Closed && r.1@ == ActionView::Respond(
                bare("HTTP/1.1"@, 500),
            ),
    {
        let request = HttpRequest::default();
        if timeout_set {
            (Self { stage: Stage::RequestLine, request, call: None, reply: None }, Action::ReadLine)
        } else {
            let mut response = HttpResponse::new();
            response.set_status(HttpStatusCode::internal_server_error());
            (
                Self { stage: Stage::Closed, request, call: None, reply: None },
                Action::Respond(response.to_string()),
            )
        }
    }

    /// Where this connection stands.
    pub fn stage(&self) -> (r: Stage)
        ensures
            r == self@.stage,
    {
        self.stage
    }

    /// The request as far as it has been read.
    pub fn request(&self) -> (r: &HttpRequest)
        ensures
            r@ == self@.request,
    {
        &self.request
    }

    /// The call that the body held, once the body has been read.
    pub fn call(&self) -> (r: Option<&JsonRpcRequest>)
        ensures
            match r {
                Some(q) => self@.call == Some(q@),
                None => self@.call is None,
            },
    {
        self.call.as_ref()
    }

    /// The answer as the handler left it, once the handler has run.
    pub fn reply(&self) -> (r: Option<&JsonRpcResponse>)
        ensures
            match r {
                Some(a) => self@.reply == Some(a@),
                None => self@.reply is None,
            },
    {
        self.reply.as_ref()
    }

    /// Takes what was read, and says what to do next. A body that holds a call
    /// is handed to `service` with an answer that carries the id of the call
    /// and nothing else; what `service` leaves in the answer is written. An
    /// event that the last action did not ask for closes the connection.
    pub fn step<S: RpcService + ?Sized>(&mut self, event: Event, service: &S) -> (action: Action)
        ensures
            step_spec(old(self)@, event@, final(self)@, action@),
    {
        match (self.stage, event) {
            (Stage::RequestLine, Event::Line(Some(line))) => {
                self.request.push_state(line);
                if !self.request.method_is(HttpMethod::POST) {
                    self.stage = Stage::Closed;
                    Action::Respond(
                        refuse(self.request.http_version(), HttpStatusCode::method_not_allowed()),
                    )
                } else if !begins_with(self.request.http_version(), "HTTP/1") {
                    self.stage = Stage::Closed;
                    Action::Respond(
                        refuse(
                            self.request.http_version(),
                            HttpStatusCode::http_version_not_supported(),
                        ),
                    )
                } else {
                    self.stage = Stage::Headers;
                    Action::ReadLine
                }
            },
            (Stage::Headers, Event::Line(Some(line))) => {
                if is_blank(&line) {
                    self.stage = Stage::Body;
                    Action::ReadBody
                } else {
                    self.request.push_headers(line);
                    Action::ReadLine
                }
            },
            (Stage::Headers, Event::Line(None)) => {
                self.stage = Stage::Body;
                Action::ReadBody
            },
            (Stage::Body, Event::Body(bytes, end)) => {
                self.stage = Stage::Closed;
                if end == BodyEnd::Failed {
                    return Action::Respond(
                        refuse(self.request.http_version(), HttpStatusCode::bad_request()),
                    );
                }
                let mut bytes = bytes;
                self.request.push_body(&mut bytes);
                let call = match self.request.body_text() {
                    Some(text) => JsonRpcRequest::decode(text.as_str()),
                    None => {
                        return Action::Respond(
                            refuse(self.request.http_version(), HttpStatusCode::bad_request()),
                        );
                    },
                };
                match call {
                    Ok(call) => {
                        let mut reply = JsonRpcResponse::new(call.id());
                        service.request(&call, &mut reply);
                        let text = respond(self.request.http_version(), &reply);
                        self.call = Some(call);
                        self.reply = Some(reply);
                        Action::Respond(text)
                    },
                    Err(_) => Action::Respond(
                        refuse(self.request.http_version(), HttpStatusCode::bad_request()),
                    ),
                }
            },
            _ => {
                self.stage = Stage::Closed;
                Action::Close
            },
        }
    }
}

/// Tells whether `s` begins with `word`.
fn begins_with(s: &String, word: &str) -> (b: bool)
    ensures
        b == has_prefix(s@, word@),
{
    let v = chars_of(s.as_str());
    let w = chars_of(word);
    proof {
        assert(v@.skip(0) =~= v@);
    }
    has_prefix_at(&v, 0, &w)
}

/// Tells whether `line` is the line that ends the header lines.
fn is_blank(line: &String) -> (b: bool)
    ensures
        b == is_blank_line(line@),
{
    let v = chars_of(line.as_str());
    let b = v.len() == 2 && v[0] == '\r' && v[1] == '\n';
    proof {
        if b {
            assert(v@ =~= seq!['\r', '\n']);
        }
    }
    b
}

} // verus!
