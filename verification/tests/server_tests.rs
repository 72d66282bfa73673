use server::dispatch::{
    body_file, build_response, decimal_bytes, dispatch, find_route, starts_with, status_line,
};
use server::pool::{worker_transition, ErrorKind, PoolController, WorkerEvent, WorkerState};
use server::routes::{Method, Route, Server};

fn table() -> Vec<Vec<u8>> {
    let mut s = Server::new();
    s.get("hello");
    s.get("");
    s.post("post");
    s.process_routes()
}

#[test]
fn route_lines_are_canonical() {
    let lines = table();
    assert_eq!(lines.len(), 3);
    assert_eq!(lines[0], b"GET /hello HTTP/1.1\r\n".to_vec());
    assert_eq!(lines[1], b"GET / HTTP/1.1\r\n".to_vec());
    assert_eq!(lines[2], b"POST post HTTP/1.1\r\n".to_vec());
}

#[test]
fn route_new_records_method_and_path() {
    let r = Route::new(Method::Post, "submit");
    assert_eq!(r.method, Method::Post);
    assert_eq!(r.path, b"submit".to_vec());
}

#[test]
fn empty_table_stays_empty() {
    let s = Server::new();
    assert_eq!(s.process_routes().len(), 0);
}

#[test]
fn duplicate_routes_are_kept_in_order() {
    let mut s = Server::new();
    s.get("a");
    s.get("a");
    let lines = s.process_routes();
    assert_eq!(lines.len(), 2);
    assert_eq!(lines[0], lines[1]);
}

#[test]
fn matching_request_yields_success() {
    let lines = table();
    let buffer = b"GET /hello HTTP/1.1\r\nHost: localhost\r\n\r\n".to_vec();
    let matched = dispatch(&buffer, &lines);
    assert!(matched);
    assert_eq!(status_line(matched), b"HTTP/1.1 200 OK".to_vec());
}

#[test]
fn unmatched_request_yields_not_found() {
    let lines = table();
    let buffer = b"GET /missing HTTP/1.1\r\n".to_vec();
    let matched = dispatch(&buffer, &lines);
    assert!(!matched);
    assert_eq!(status_line(matched), b"HTTP/1.1 404 NOT FOUND".to_vec());
}

#[test]
fn zero_byte_read_falls_through_to_not_found() {
    let lines = table();
    let untouched = vec![0u8; 1024];
    assert!(!dispatch(&untouched, &lines));
    let empty: Vec<u8> = Vec::new();
    assert!(!dispatch(&empty, &lines));
}

#[test]
fn post_route_matches_without_leading_slash() {
    let lines = table();
    assert!(dispatch(&b"POST post HTTP/1.1\r\n".to_vec(), &lines));
    assert!(!dispatch(&b"POST /post HTTP/1.1\r\n".to_vec(), &lines));
}

#[test]
fn first_matching_route_wins() {
    let mut s = Server::new();
    s.get("a");
    s.get("a");
    s.post("b");
    let lines = s.process_routes();
    assert_eq!(find_route(&b"GET /a HTTP/1.1\r\n".to_vec(), &lines), Some(0));
    assert_eq!(find_route(&b"POST b HTTP/1.1\r\n".to_vec(), &lines), Some(2));
    assert_eq!(find_route(&b"GET /c HTTP/1.1\r\n".to_vec(), &lines), None);
}

#[test]
fn prefix_test_is_exact() {
    assert!(starts_with(&b"GET /x".to_vec(), &b"GET ".to_vec()));
    assert!(!starts_with(&b"GET /x".to_vec(), &b"POST".to_vec()));
    assert!(!starts_with(&b"GE".to_vec(), &b"GET".to_vec()));
    assert!(starts_with(&b"anything".to_vec(), &Vec::new()));
}

#[test]
fn body_file_per_outcome() {
    assert_eq!(body_file(true), "hello.html");
    assert_eq!(body_file(false), "404.html");
}

#[test]
fn decimal_bytes_exact_values() {
    assert_eq!(decimal_bytes(0), b"0".to_vec());
    assert_eq!(decimal_bytes(7), b"7".to_vec());
    assert_eq!(decimal_bytes(10), b"10".to_vec());
    assert_eq!(decimal_bytes(1024), b"1024".to_vec());
    assert_eq!(decimal_bytes(1234567890), b"1234567890".to_vec());
}

#[test]
fn response_has_exact_shape() {
    let body = b"hi".to_vec();
    let response = build_response(true, &body);
    assert_eq!(response, b"HTTP/1.1 200 OK\r\nContent-Length: 2\r\n\r\nhi".to_vec());
    let response = build_response(false, &b"gone".to_vec());
    assert_eq!(
        response,
        b"HTTP/1.1 404 NOT FOUND\r\nContent-Length: 4\r\n\r\ngone".to_vec()
    );
}

#[test]
fn content_length_header_equals_body_length() {
    for body in [
        Vec::new(),
        b"x".to_vec(),
        b"<html><body>hello</body></html>".to_vec(),
        vec![7u8; 1234],
    ] {
        let response = build_response(true, &body);
        let text_end = response
            .windows(4)
            .position(|w| w == b"\r\n\r\n")
            .expect("header end");
        let header = &response[..text_end];
        let served_body = &response[text_end + 4..];
        assert_eq!(served_body, &body[..]);
        let header_text = std::str::from_utf8(header).expect("ascii header");
        let label = "Content-Length: ";
        let at = header_text.find(label).expect("length header");
        let declared: usize = header_text[at + label.len()..].parse().expect("digits");
        assert_eq!(declared, served_body.len());
    }
}

#[test]
fn pool_of_zero_workers_fails_fast() {
    match PoolController::new(0) {
        Err(kind) => assert_eq!(kind, ErrorKind::StartupFailure),
        Ok(_) => panic!("a zero-size pool must be rejected"),
    }
}

#[test]
fn pool_of_positive_size_starts_accepting() {
    let c = PoolController::new(4).expect("positive size");
    assert_eq!(c.size, 4);
    assert!(c.accepting);
    assert_eq!(c.submitted, 0);
    assert_eq!(c.joined, 0);
    let c = PoolController::new(1).expect("one worker");
    assert_eq!(c.size, 1);
}

#[test]
fn submissions_are_all_accounted() {
    let mut c = PoolController::new(2).expect("positive size");
    for _ in 0..5 {
        c.record_submit();
    }
    assert_eq!(c.submitted, 5);
    assert!(c.accepting);
}

#[test]
fn teardown_joins_every_worker_exactly_once() {
    let mut c = PoolController::new(3).expect("positive size");
    c.record_submit();
    c.begin_teardown();
    assert!(!c.accepting);
    assert!(!c.teardown_complete());
    for joined_so_far in 0..3 {
        assert_eq!(c.joined, joined_so_far);
        assert!(!c.teardown_complete());
        c.record_join();
    }
    assert_eq!(c.joined, 3);
    assert!(c.teardown_complete());
    assert_eq!(c.submitted, 1);
}

#[test]
fn worker_lifecycle_loops_until_queue_closes() {
    let mut state = WorkerState::Idle;
    state = worker_transition(state, WorkerEvent::JobReceived);
    assert_eq!(state, WorkerState::Executing);
    state = worker_transition(state, WorkerEvent::JobFinished);
    assert_eq!(state, WorkerState::Idle);
    state = worker_transition(state, WorkerEvent::JobReceived);
    state = worker_transition(state, WorkerEvent::JobFinished);
    state = worker_transition(state, WorkerEvent::QueueClosed);
    assert_eq!(state, WorkerState::Stopped);
}

#[test]
fn error_kinds_are_distinct() {
    assert_ne!(ErrorKind::StartupFailure, ErrorKind::ConnectionFailure);
    assert_ne!(ErrorKind::StartupFailure, ErrorKind::ConfigurationFailure);
    assert_ne!(ErrorKind::ConnectionFailure, ErrorKind::ConfigurationFailure);
}
