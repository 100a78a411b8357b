use api_gateway::gateway::{bad_gateway, not_found, step, Action, Event, Phase, BAD_GATEWAY, NOT_FOUND};
use api_gateway::message::{ForwardedRequest, Header, RelayedResponse};
use api_gateway::route::RouteTable;

fn table_of(routes: &[(&str, &str)]) -> RouteTable {
    let mut table = RouteTable::new();
    for (prefix, backend) in routes {
        assert!(table.insert(prefix.to_string(), backend.to_string()));
    }
    table
}

fn header(name: &str, value: &[u8]) -> Header {
    Header { name: name.to_string(), value: value.to_vec() }
}

fn request(method: &str, path: &str, query: &str, headers: Vec<Header>) -> Event {
    Event::Request {
        method: method.to_string(),
        path: path.to_string(),
        query: query.to_string(),
        headers,
    }
}

#[test]
fn get_with_query_is_forwarded_to_order_backend() {
    let table = table_of(&[("/v1/ohio", "http://order:9000/api")]);
    let (phase, action) = step(
        &table,
        Phase::AwaitingRequest,
        request("GET", "/v1/ohio/items", "id=42", vec![header("host", b"gw"), header("accept", b"*/*")]),
    );
    assert_eq!(action, Action::ReadBody);
    assert_eq!(
        phase,
        Phase::AwaitingBody {
            method: "GET".to_string(),
            target_url: "http://order:9000/api/items?id=42".to_string(),
            headers: vec![header("accept", b"*/*")],
        }
    );
    let (phase, action) = step(&table, phase, Event::Body(Vec::new()));
    assert_eq!(phase, Phase::AwaitingBackend);
    assert_eq!(
        action,
        Action::Send(ForwardedRequest {
            method: "GET".to_string(),
            target_url: "http://order:9000/api/items?id=42".to_string(),
            headers: vec![header("accept", b"*/*")],
            body: Vec::new(),
            decompress: false,
        })
    );
}

#[test]
fn post_body_is_forwarded_byte_for_byte() {
    let table = table_of(&[("/v1/sigma", "http://auth:7000/api")]);
    let body = b"{\"user\":\"a\"}".to_vec();
    let (phase, action) = step(
        &table,
        Phase::AwaitingRequest,
        request("POST", "/v1/sigma", "", vec![header("content-type", b"application/json")]),
    );
    assert_eq!(action, Action::ReadBody);
    let (phase, action) = step(&table, phase, Event::Body(body.clone()));
    assert_eq!(phase, Phase::AwaitingBackend);
    assert_eq!(
        action,
        Action::Send(ForwardedRequest {
            method: "POST".to_string(),
            target_url: "http://auth:7000/api".to_string(),
            headers: vec![header("content-type", b"application/json")],
            body,
            decompress: false,
        })
    );
}

#[test]
fn unknown_path_is_answered_with_404() {
    let table = table_of(&[
        ("/v1/mewing", "http://menu:8000/api"),
        ("/v1/ohio", "http://order:9000/api"),
        ("/v1/sigma", "http://auth:7000/api"),
    ]);
    let (phase, action) =
        step(&table, Phase::AwaitingRequest, request("GET", "/unknown/path", "", Vec::new()));
    assert_eq!(phase, Phase::Finished);
    assert_eq!(
        action,
        Action::Reply(RelayedResponse {
            status: 404,
            headers: Vec::new(),
            body: b"No matching route".to_vec(),
        })
    );
    let (phase, action) = step(&table, phase, Event::Body(b"late".to_vec()));
    assert_eq!(phase, Phase::Finished);
    assert_eq!(action, Action::Abort);
}

#[test]
fn empty_table_answers_every_path_with_404() {
    let table = RouteTable::new();
    let (phase, action) =
        step(&table, Phase::AwaitingRequest, request("DELETE", "/v1/ohio", "x=1", Vec::new()));
    assert_eq!(phase, Phase::Finished);
    assert_eq!(action, Action::Reply(not_found()));
}

#[test]
fn earlier_overlapping_route_receives_the_request() {
    let table = table_of(&[("/v1", "http://general/api"), ("/v1/ohio", "http://order/api")]);
    let (phase, _) =
        step(&table, Phase::AwaitingRequest, request("GET", "/v1/ohio/items", "", Vec::new()));
    assert_eq!(
        phase,
        Phase::AwaitingBody {
            method: "GET".to_string(),
            target_url: "http://general/api/ohio/items".to_string(),
            headers: Vec::new(),
        }
    );
}

#[test]
fn method_is_passed_as_it_came() {
    let table = table_of(&[("/v1", "http://general/api")]);
    for method in ["GET", "POST", "PUT", "DELETE", "OPTIONS", "PATCH", "PURGE"] {
        let (phase, _) = step(&table, Phase::AwaitingRequest, request(method, "/v1/x", "", Vec::new()));
        let (_, action) = step(&table, phase, Event::Body(vec![1, 2, 3]));
        match action {
            Action::Send(out) => {
                assert_eq!(out.method, method);
                assert_eq!(out.body, vec![1, 2, 3]);
                assert!(!out.decompress);
            }
            other => panic!("expected a send, got {:?}", other),
        }
    }
}

#[test]
fn backend_response_is_relayed_unchanged() {
    let table = table_of(&[("/v1", "http://general/api")]);
    let headers = vec![
        header("content-encoding", b"gzip"),
        header("content-length", b"4"),
        header("set-cookie", b"a=1"),
        header("set-cookie", b"b=2"),
        header("host", b"kept-on-the-way-back"),
    ];
    let (phase, action) = step(
        &table,
        Phase::AwaitingBackend,
        Event::BackendHead { status: 201, headers: headers.clone() },
    );
    assert_eq!(action, Action::ReadBackendBody);
    assert_eq!(phase, Phase::AwaitingBackendBody { status: 201, headers: headers.clone() });
    let body = vec![0x1f, 0x8b, 0x00, 0xff];
    let (phase, action) = step(&table, phase, Event::BackendBody(body.clone()));
    assert_eq!(phase, Phase::Finished);
    assert_eq!(action, Action::Reply(RelayedResponse { status: 201, headers, body }));
}

#[test]
fn backend_error_status_is_relayed_too() {
    let table = RouteTable::new();
    let (phase, _) =
        step(&table, Phase::AwaitingBackend, Event::BackendHead { status: 500, headers: Vec::new() });
    let (_, action) = step(&table, phase, Event::BackendBody(b"boom".to_vec()));
    assert_eq!(
        action,
        Action::Reply(RelayedResponse { status: 500, headers: Vec::new(), body: b"boom".to_vec() })
    );
}

#[test]
fn transport_failure_is_answered_with_502() {
    let table = table_of(&[("/v1", "http://general/api")]);
    let (phase, action) = step(
        &table,
        Phase::AwaitingBackend,
        Event::TransportFailed("connection refused".to_string()),
    );
    assert_eq!(phase, Phase::Finished);
    assert_eq!(
        action,
        Action::Reply(RelayedResponse {
            status: 502,
            headers: Vec::new(),
            body: b"Proxy error: connection refused".to_vec(),
        })
    );
}

#[test]
fn bad_gateway_names_the_reason() {
    let response = bad_gateway("timed out");
    assert_eq!(response.status, BAD_GATEWAY);
    assert_eq!(response.status, 502);
    assert!(response.headers.is_empty());
    assert_eq!(response.body, b"Proxy error: timed out".to_vec());
    assert_eq!(bad_gateway("").body, b"Proxy error: ".to_vec());
    assert_eq!(bad_gateway("d\u{e9}faut").body, "Proxy error: d\u{e9}faut".as_bytes().to_vec());
}

#[test]
fn not_found_is_plain_404() {
    let response = not_found();
    assert_eq!(response.status, NOT_FOUND);
    assert_eq!(response.status, 404);
    assert!(response.headers.is_empty());
    assert_eq!(response.body, b"No matching route".to_vec());
}

#[test]
fn failed_inbound_body_gives_the_request_up() {
    let table = table_of(&[("/v1", "http://general/api")]);
    let (phase, _) = step(&table, Phase::AwaitingRequest, request("POST", "/v1/x", "", Vec::new()));
    let (phase, action) = step(&table, phase, Event::BodyFailed);
    assert_eq!(phase, Phase::Finished);
    assert_eq!(action, Action::Abort);
}

#[test]
fn failed_backend_body_gives_the_request_up() {
    let table = RouteTable::new();
    let (phase, action) = step(
        &table,
        Phase::AwaitingBackendBody { status: 200, headers: Vec::new() },
        Event::BackendBodyFailed,
    );
    assert_eq!(phase, Phase::Finished);
    assert_eq!(action, Action::Abort);
}

#[test]
fn event_out_of_turn_gives_the_request_up() {
    let table = table_of(&[("/v1", "http://general/api")]);
    let (phase, action) = step(&table, Phase::AwaitingRequest, Event::Body(Vec::new()));
    assert_eq!((phase, action), (Phase::Finished, Action::Abort));
    let (phase, action) =
        step(&table, Phase::AwaitingBackend, request("GET", "/v1/x", "", Vec::new()));
    assert_eq!((phase, action), (Phase::Finished, Action::Abort));
    let (phase, action) = step(
        &table,
        Phase::AwaitingBackendBody { status: 200, headers: Vec::new() },
        Event::TransportFailed("late".to_string()),
    );
    assert_eq!((phase, action), (Phase::Finished, Action::Abort));
    let (phase, action) =
        step(&table, Phase::Finished, request("GET", "/v1/x", "", Vec::new()));
    assert_eq!((phase, action), (Phase::Finished, Action::Abort));
}

#[test]
fn whole_exchange_runs_from_request_to_reply() {
    let table = table_of(&[("/v1/mewing", "http://menu:8000/api")]);
    let (phase, action) = step(
        &table,
        Phase::AwaitingRequest,
        request("PUT", "/v1/mewing/dish/7", "draft=1", vec![header("Host", b"gw"), header("authorization", b"Bearer t")]),
    );
    assert_eq!(action, Action::ReadBody);
    let (phase, action) = step(&table, phase, Event::Body(b"{}".to_vec()));
    assert_eq!(
        action,
        Action::Send(ForwardedRequest {
            method: "PUT".to_string(),
            target_url: "http://menu:8000/api/dish/7?draft=1".to_string(),
            headers: vec![header("authorization", b"Bearer t")],
            body: b"{}".to_vec(),
            decompress: false,
        })
    );
    let (phase, action) = step(
        &table,
        phase,
        Event::BackendHead { status: 204, headers: vec![header("x-served-by", b"menu")] },
    );
    assert_eq!(action, Action::ReadBackendBody);
    let (phase, action) = step(&table, phase, Event::BackendBody(Vec::new()));
    assert_eq!(phase, Phase::Finished);
    assert_eq!(
        action,
        Action::Reply(RelayedResponse {
            status: 204,
            headers: vec![header("x-served-by", b"menu")],
            body: Vec::new(),
        })
    );
}
