use jsonrpc_http::common::{HttpMethod, JsonRpcRequest, JsonRpcResponse};
use jsonrpc_http::server::{respond, refuse, Action, BodyEnd, Connection, Event, Stage};
use jsonrpc_http::service::RpcService;
use jsonrpc_http::common::HttpStatusCode;
use serde_json::Value;

pub struct ExampleService {}

impl ExampleService {
    pub fn new() -> Self {
        Self {}
    }
}

impl RpcService for ExampleService {
    fn request(&self, request: &JsonRpcRequest, response: &mut JsonRpcResponse) {
        let ret = format!(
            "{} + {}",
            request.get_arg_value(&"a".to_string()).unwrap().to_string(),
            request.get_arg_value(&"b".to_string()).unwrap().as_str().unwrap()
        );
        response.set_result(Value::String(ret));
    }
}

/// Answers every call with its method as the error message.
struct Failing;

impl RpcService for Failing {
    fn request(&self, request: &JsonRpcRequest, response: &mut JsonRpcResponse) {
        response.set_error(format!("cannot {}", request.method()));
    }
}

/// Leaves the answer as it was given.
struct Silent;

impl RpcService for Silent {
    fn request(&self, _request: &JsonRpcRequest, _response: &mut JsonRpcResponse) {}
}

/// Must not be asked.
struct Unreachable;

impl RpcService for Unreachable {
    fn request(&self, _request: &JsonRpcRequest, _response: &mut JsonRpcResponse) {
        panic!("the handler was asked");
    }
}

const CALL: &str = "{\"method\":\"add\",\"args\":{\"a\":1,\"b\":\"2\"},\"id\":5}";

fn line(text: &str) -> Event {
    Event::Line(Some(text.to_string()))
}

fn body(text: &str) -> Event {
    Event::Body(text.as_bytes().to_vec(), BodyEnd::Complete)
}

fn text(text: &str) -> Action {
    Action::Respond(text.to_string())
}

/// A connection whose header lines have been read.
fn at_body<S: RpcService>(service: &S, request_line: &str) -> Connection {
    let (mut connection, first) = Connection::open(true);
    assert_eq!(first, Action::ReadLine);
    assert_eq!(connection.step(line(request_line), service), Action::ReadLine);
    assert_eq!(connection.step(line("\r\n"), service), Action::ReadBody);
    assert_eq!(connection.stage(), Stage::Body);
    connection
}

#[test]
fn a_call_is_answered_end_to_end() {
    let service = ExampleService::new();
    let (mut connection, first) = Connection::open(true);
    assert_eq!(first, Action::ReadLine);
    assert_eq!(connection.stage(), Stage::RequestLine);
    assert_eq!(connection.step(line("POST / HTTP/1.1\r\n"), &service), Action::ReadLine);
    assert_eq!(connection.stage(), Stage::Headers);
    assert_eq!(connection.step(line("Content-Length: 30\r\n"), &service), Action::ReadLine);
    assert_eq!(connection.stage(), Stage::Headers);
    assert_eq!(connection.step(line("\r\n"), &service), Action::ReadBody);
    assert_eq!(connection.stage(), Stage::Body);
    let action = connection.step(body(CALL), &service);
    assert_eq!(action, text("HTTP/1.1 200 OK\r\n\r\n{\"result\":\"1 + 2\",\"id\":5}"));
    assert_eq!(connection.stage(), Stage::Closed);
    assert_eq!(
        connection.request().headers.get("Content-Length"),
        Some(&"30".to_string())
    );
    assert_eq!(connection.request().body, CALL.as_bytes().to_vec());
    assert_eq!(connection.call().unwrap().id(), 5);
    assert_eq!(connection.call().unwrap().method(), "add");
    assert_eq!(
        connection.reply().unwrap().encode(),
        Some("{\"result\":\"1 + 2\",\"id\":5}".to_string())
    );
}

#[test]
fn the_answer_carries_the_id_of_the_call() {
    for id in [0usize, 1, 9, 10, 99, 100, 65535, 4294967295] {
        let mut connection = at_body(&Silent, "POST /rpc HTTP/1.0\r\n");
        let call = format!("{{\"method\":\"m\",\"args\":{{}},\"id\":{}}}", id);
        let action = connection.step(body(&call), &Silent);
        assert_eq!(action, text(&format!("HTTP/1.0 200 OK\r\n\r\n{{\"id\":{}}}", id)));
        let Action::Respond(wire) = action else { unreachable!() };
        let answer: Value = serde_json::from_str(wire.split("\r\n\r\n").nth(1).unwrap()).unwrap();
        assert_eq!(answer.get("id").unwrap().as_u64(), Some(id as u64));
        assert_eq!(connection.call().unwrap().id(), id);
    }
}

#[test]
fn an_error_of_the_handler_is_answered_with_200() {
    let mut connection = at_body(&Failing, "POST / HTTP/1.1\r\n");
    let action = connection.step(body(CALL), &Failing);
    assert_eq!(action, text("HTTP/1.1 200 OK\r\n\r\n{\"error\":\"cannot add\",\"id\":5}"));
}

#[test]
fn an_answer_that_was_not_filled_is_written_as_it_is() {
    let mut connection = at_body(&Silent, "POST / HTTP/1.1\r\n");
    let action = connection.step(body(CALL), &Silent);
    assert_eq!(action, text("HTTP/1.1 200 OK\r\n\r\n{\"id\":5}"));
}

#[test]
fn any_method_but_post_is_answered_with_405() {
    for request_line in [
        "GET / HTTP/1.1\r\n",
        "PUT / HTTP/1.1\r\n",
        "post / HTTP/1.1\r\n",
        "DELETE /x HTTP/1.1\r\n",
        "/ POST HTTP/1.1\r\n",
    ] {
        let (mut connection, _) = Connection::open(true);
        let action = connection.step(line(request_line), &Unreachable);
        assert_eq!(action, text("HTTP/1.1 405 Method Not Allowed\r\n\r\n"));
        assert_eq!(connection.stage(), Stage::Closed);
        assert!(!connection.request().method_is(HttpMethod::POST));
        // Whatever follows is not taken.
        assert_eq!(connection.step(body(CALL), &Unreachable), Action::Close);
        assert_eq!(connection.stage(), Stage::Closed);
    }
}

#[test]
fn the_refusal_is_written_in_the_version_of_the_request() {
    let (mut connection, _) = Connection::open(true);
    let action = connection.step(line("GET / HTTP/1.0\r\n"), &Unreachable);
    assert_eq!(action, text("HTTP/1.0 405 Method Not Allowed\r\n\r\n"));
    let (mut connection, _) = Connection::open(true);
    let action = connection.step(line("GET /\r\n"), &Unreachable);
    assert_eq!(action, text(" 405 Method Not Allowed\r\n\r\n"));
    let (mut connection, _) = Connection::open(true);
    let action = connection.step(line("\r\n"), &Unreachable);
    assert_eq!(action, text(" 405 Method Not Allowed\r\n\r\n"));
}

#[test]
fn another_version_than_http_1_is_answered_with_505() {
    for (request_line, version) in [
        ("POST / HTTP/2.0\r\n", "HTTP/2.0"),
        ("POST / HTTP/\r\n", "HTTP/"),
        ("POST / http/1.1\r\n", "http/1.1"),
        ("POST / xHTTP/1.1\r\n", "xHTTP/1.1"),
        ("POST /\r\n", ""),
        ("POST\r\n", ""),
        ("POST  / HTTP/1.1\r\n", "/"),
    ] {
        let (mut connection, _) = Connection::open(true);
        let action = connection.step(line(request_line), &Unreachable);
        assert_eq!(action, text(&format!("{} 505 HTTP Version Not Supported\r\n\r\n", version)));
        assert_eq!(connection.stage(), Stage::Closed);
        assert_eq!(connection.step(line("\r\n"), &Unreachable), Action::Close);
    }
}

#[test]
fn the_method_is_looked_at_before_the_version() {
    let (mut connection, _) = Connection::open(true);
    let action = connection.step(line("GET / HTTP/2.0\r\n"), &Unreachable);
    assert_eq!(action, text("HTTP/2.0 405 Method Not Allowed\r\n\r\n"));
}

#[test]
fn any_version_that_begins_with_http_1_is_taken() {
    for request_line in ["POST / HTTP/1\r\n", "POST / HTTP/1.1\r\n", "POST / HTTP/1x\r\n", "POST / HTTP/10\r\n"] {
        let (mut connection, _) = Connection::open(true);
        assert_eq!(connection.step(line(request_line), &Unreachable), Action::ReadLine);
        assert_eq!(connection.stage(), Stage::Headers);
    }
}

#[test]
fn a_body_that_is_no_call_is_answered_with_400() {
    for bad in [
        "",
        "not json",
        "{\"method\":\"add\",\"args\":{\"a\":1",
        "[1,2,3]",
        "{\"args\":{},\"id\":1}",
        "{\"method\":\"add\",\"id\":1}",
        "{\"method\":\"add\",\"args\":{}}",
        "{\"method\":1,\"args\":{},\"id\":1}",
        "{\"method\":\"add\",\"args\":[],\"id\":1}",
        "{\"method\":\"add\",\"args\":{},\"id\":-5}",
        "{\"method\":\"add\",\"args\":{},\"id\":\"5\"}",
    ] {
        let mut connection = at_body(&Unreachable, "POST / HTTP/1.1\r\n");
        let action = connection.step(body(bad), &Unreachable);
        assert_eq!(action, text("HTTP/1.1 400 Bad Request\r\n\r\n"));
        assert_eq!(connection.stage(), Stage::Closed);
        assert!(connection.call().is_none());
        assert!(connection.reply().is_none());
    }
}

#[test]
fn a_body_that_is_not_utf8_is_answered_with_400() {
    let mut connection = at_body(&Unreachable, "POST / HTTP/1.1\r\n");
    let mut bytes = CALL.as_bytes().to_vec();
    bytes.push(0xff);
    let action = connection.step(Event::Body(bytes, BodyEnd::Complete), &Unreachable);
    assert_eq!(action, text("HTTP/1.1 400 Bad Request\r\n\r\n"));
}

#[test]
fn a_body_whose_read_failed_is_answered_with_400() {
    let mut connection = at_body(&Unreachable, "POST / HTTP/1.0\r\n");
    let action =
        connection.step(Event::Body(CALL.as_bytes().to_vec(), BodyEnd::Failed), &Unreachable);
    assert_eq!(action, text("HTTP/1.0 400 Bad Request\r\n\r\n"));
    assert_eq!(connection.stage(), Stage::Closed);
    assert!(connection.request().body.is_empty());
}

#[test]
fn a_body_whose_read_timed_out_is_taken_as_it_is() {
    let service = ExampleService::new();
    let mut connection = at_body(&service, "POST / HTTP/1.1\r\n");
    let action = connection.step(Event::Body(CALL.as_bytes().to_vec(), BodyEnd::TimedOut), &service);
    assert_eq!(action, text("HTTP/1.1 200 OK\r\n\r\n{\"result\":\"1 + 2\",\"id\":5}"));
    let mut connection = at_body(&service, "POST / HTTP/1.1\r\n");
    let half = &CALL.as_bytes()[..10];
    let action = connection.step(Event::Body(half.to_vec(), BodyEnd::TimedOut), &service);
    assert_eq!(action, text("HTTP/1.1 400 Bad Request\r\n\r\n"));
}

#[test]
fn a_request_line_that_cannot_be_read_ends_the_connection_silently() {
    let (mut connection, _) = Connection::open(true);
    assert_eq!(connection.step(Event::Line(None), &Unreachable), Action::Close);
    assert_eq!(connection.stage(), Stage::Closed);
    assert_eq!(connection.step(line("POST / HTTP/1.1\r\n"), &Unreachable), Action::Close);
}

#[test]
fn a_header_line_that_cannot_be_read_ends_the_headers() {
    let service = ExampleService::new();
    let (mut connection, _) = Connection::open(true);
    assert_eq!(connection.step(line("POST / HTTP/1.1\r\n"), &service), Action::ReadLine);
    assert_eq!(connection.step(line("A: b\r\n"), &service), Action::ReadLine);
    assert_eq!(connection.step(Event::Line(None), &service), Action::ReadBody);
    assert_eq!(connection.stage(), Stage::Body);
    assert_eq!(connection.request().headers.get("A"), Some(&"b".to_string()));
    let action = connection.step(body(CALL), &service);
    assert_eq!(action, text("HTTP/1.1 200 OK\r\n\r\n{\"result\":\"1 + 2\",\"id\":5}"));
}

#[test]
fn header_lines_are_read_up_to_the_empty_line() {
    let (mut connection, _) = Connection::open(true);
    assert_eq!(connection.step(line("POST / HTTP/1.1\r\n"), &Unreachable), Action::ReadLine);
    assert_eq!(connection.step(line("X-Test: abc\r\n"), &Unreachable), Action::ReadLine);
    assert_eq!(connection.step(line("garbage\r\n"), &Unreachable), Action::ReadLine);
    // Only a carriage return and a line feed end the headers.
    assert_eq!(connection.step(line("\n"), &Unreachable), Action::ReadLine);
    assert_eq!(connection.step(line(""), &Unreachable), Action::ReadLine);
    assert_eq!(connection.step(line(" \r\n"), &Unreachable), Action::ReadLine);
    assert_eq!(connection.stage(), Stage::Headers);
    assert_eq!(connection.step(line("\r\n"), &Unreachable), Action::ReadBody);
    assert_eq!(connection.stage(), Stage::Body);
    assert_eq!(connection.request().headers.len(), 1);
    assert_eq!(connection.request().headers.get("X-Test"), Some(&"abc".to_string()));
}

#[test]
fn a_connection_whose_timeout_could_not_be_set_is_answered_with_500() {
    let (mut connection, first) = Connection::open(false);
    assert_eq!(first, text("HTTP/1.1 500 Internal Server Error\r\n\r\n"));
    assert_eq!(connection.stage(), Stage::Closed);
    assert_eq!(connection.step(line("POST / HTTP/1.1\r\n"), &Unreachable), Action::Close);
}

#[test]
fn an_event_that_was_not_asked_for_closes_the_connection() {
    let (mut connection, _) = Connection::open(true);
    assert_eq!(connection.step(body(CALL), &Unreachable), Action::Close);
    assert_eq!(connection.stage(), Stage::Closed);
    let (mut connection, _) = Connection::open(true);
    assert_eq!(connection.step(line("POST / HTTP/1.1\r\n"), &Unreachable), Action::ReadLine);
    assert_eq!(connection.step(body(CALL), &Unreachable), Action::Close);
    let mut connection = at_body(&Unreachable, "POST / HTTP/1.1\r\n");
    assert_eq!(connection.step(line("\r\n"), &Unreachable), Action::Close);
    assert_eq!(connection.stage(), Stage::Closed);
}

#[test]
fn refuse_writes_a_response_without_a_body() {
    assert_eq!(
        refuse(&"HTTP/1.1".to_string(), HttpStatusCode::bad_request()),
        "HTTP/1.1 400 Bad Request\r\n\r\n"
    );
    assert_eq!(refuse(&"h".to_string(), HttpStatusCode::ok()), "h 200 OK\r\n\r\n");
}

#[test]
fn respond_writes_the_answer_as_the_body() {
    let mut answer = JsonRpcResponse::new(2);
    answer.set_result(Value::Bool(true));
    assert_eq!(
        respond(&"HTTP/1.1".to_string(), &answer),
        "HTTP/1.1 200 OK\r\n\r\n{\"result\":true,\"id\":2}"
    );
}
