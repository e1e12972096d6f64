use request_line::request::split_target;
use request_line::server::{BUFFER_SIZE, RESPONSE};
use request_line::{Method, ParseError, Request, Server};

fn request(method: Method, path: &str, query: Option<&str>) -> Result<Request, ParseError> {
    Ok(Request {
        path: path.to_string(),
        query_string: query.map(|text| text.to_string()),
        method,
    })
}

#[test]
fn empty_input_is_an_empty_request() {
    assert_eq!(Request::from(""), Err(ParseError::EmptyRequest));
}

#[test]
fn method_alone_misses_the_path() {
    assert_eq!(Request::from("GET"), Err(ParseError::MissingPath));
    assert_eq!(Request::from("GET   "), Err(ParseError::MissingPath));
    assert_eq!(Request::from("  GET\r\n"), Err(ParseError::MissingPath));
}

#[test]
fn plain_path_has_no_query_string() {
    assert_eq!(
        Request::from("GET /foo/bar HTTP/1.1\r\nHost: example.org\r\n\r\n"),
        request(Method::GET, "/foo/bar", None)
    );
    assert_eq!(
        Request::from("GET /foo/bar HTTP/1.1\r\n..."),
        request(Method::GET, "/foo/bar", None)
    );
}

#[test]
fn query_string_follows_the_first_question_mark() {
    assert_eq!(
        Request::from("POST /search?q=rust&x=1 HTTP/1.1\r\n"),
        request(Method::POST, "/search", Some("q=rust&x=1"))
    );
}

#[test]
fn unknown_method_is_reported_with_its_token() {
    assert_eq!(
        Request::from("FETCH / HTTP/1.1"),
        Err(ParseError::UnknownMethod("FETCH".to_string()))
    );
    assert_eq!(
        Request::from("get / HTTP/1.1"),
        Err(ParseError::UnknownMethod("get".to_string()))
    );
}

#[test]
fn blank_first_line_misses_the_method() {
    assert_eq!(Request::from("\n"), Err(ParseError::MissingMethod));
    assert_eq!(Request::from("\r\n"), Err(ParseError::MissingMethod));
    assert_eq!(Request::from("   "), Err(ParseError::MissingMethod));
    assert_eq!(Request::from(" \t \r\nGET / HTTP/1.1\r\n"), Err(ParseError::MissingMethod));
    assert_eq!(Request::from("\nGET / HTTP/1.1"), Err(ParseError::MissingMethod));
}

#[test]
fn only_the_first_line_is_read() {
    assert_eq!(Request::from("GET\n/path HTTP/1.1"), Err(ParseError::MissingPath));
    assert_eq!(Request::from("GET /a\nPOST /b"), request(Method::GET, "/a", None));
    assert_eq!(Request::from("GET /a\r\nPOST /b"), request(Method::GET, "/a", None));
}

#[test]
fn missing_path_comes_before_unknown_method() {
    assert_eq!(Request::from("FETCH"), Err(ParseError::MissingPath));
    assert_eq!(Request::from("FETCH\r\n/ HTTP/1.1"), Err(ParseError::MissingPath));
}

#[test]
fn version_token_is_neither_required_nor_checked() {
    assert_eq!(Request::from("GET /"), request(Method::GET, "/", None));
    assert_eq!(Request::from("GET / nonsense more tokens"), request(Method::GET, "/", None));
    assert_eq!(Request::from("DELETE /x HTTP/9.9"), request(Method::DELETE, "/x", None));
}

#[test]
fn tokens_are_parted_by_runs_of_white_space() {
    assert_eq!(Request::from("  PUT \t /x  HTTP/1.1"), request(Method::PUT, "/x", None));
    assert_eq!(Request::from("HEAD\u{3000}/x\u{a0}HTTP/1.1"), request(Method::HEAD, "/x", None));
    assert_eq!(Request::from("GET\r/x"), request(Method::GET, "/x", None));
    assert_eq!(Request::from("GET /x\r"), request(Method::GET, "/x", None));
    assert_eq!(Request::from("GET\u{b}/x\u{c}y"), request(Method::GET, "/x", None));
}

#[test]
fn empty_path_before_the_question_mark_stays_empty() {
    assert_eq!(Request::from("GET ?x=1 HTTP/1.1"), request(Method::GET, "", Some("x=1")));
    assert_eq!(Request::from("GET ? HTTP/1.1"), request(Method::GET, "", Some("")));
}

#[test]
fn question_mark_at_the_end_gives_an_empty_query_string() {
    assert_eq!(Request::from("GET /a? HTTP/1.1"), request(Method::GET, "/a", Some("")));
}

#[test]
fn later_question_marks_stay_in_the_query_string() {
    assert_eq!(
        Request::from("GET /a?b?c=d?e HTTP/1.1"),
        request(Method::GET, "/a", Some("b?c=d?e"))
    );
    assert_eq!(Request::from("GET ?? HTTP/1.1"), request(Method::GET, "", Some("?")));
}

#[test]
fn path_and_query_string_are_not_decoded_or_normalized() {
    assert_eq!(
        Request::from("GET /a/../b//c%20d?x=%3F&y=+ HTTP/1.1"),
        request(Method::GET, "/a/../b//c%20d", Some("x=%3F&y=+"))
    );
    assert_eq!(Request::from("GET nopath HTTP/1.1"), request(Method::GET, "nopath", None));
}

#[test]
fn characters_beyond_ascii_are_kept() {
    assert_eq!(
        Request::from("PATCH /caf\u{e9}/\u{1F600}?cl\u{e9}=\u{4e2d}\u{6587} HTTP/1.1\r\n"),
        request(Method::PATCH, "/caf\u{e9}/\u{1F600}", Some("cl\u{e9}=\u{4e2d}\u{6587}"))
    );
    assert_eq!(
        Request::from("\u{1F600} / HTTP/1.1"),
        Err(ParseError::UnknownMethod("\u{1F600}".to_string()))
    );
}

#[test]
fn every_method_parses_in_a_request_line() {
    let names = [
        ("GET", Method::GET),
        ("DELETE", Method::DELETE),
        ("POST", Method::POST),
        ("PUT", Method::PUT),
        ("HEAD", Method::HEAD),
        ("CONNECT", Method::CONNECT),
        ("OPTIONS", Method::OPTIONS),
        ("TRACE", Method::TRACE),
        ("PATCH", Method::PATCH),
    ];
    for (name, method) in names {
        let line = format!("{} /p?q HTTP/1.1\r\n", name);
        assert_eq!(Request::from(&line), request(method, "/p", Some("q")));
    }
}

#[test]
fn padded_buffer_parses_like_its_first_line() {
    let mut raw = String::from("GET /index.html?a=b HTTP/1.1\r\nHost: x\r\n\r\n");
    while raw.len() < 1024 {
        raw.push('\0');
    }
    assert_eq!(Request::from(&raw), request(Method::GET, "/index.html", Some("a=b")));
    let zeros = "\0".repeat(1024);
    assert_eq!(Request::from(&zeros), Err(ParseError::MissingPath));
}

#[test]
fn bytes_of_valid_text_parse_like_the_text() {
    assert_eq!(
        Request::from_bytes(b"GET /foo/bar?x=1 HTTP/1.1\r\nHost: a\r\n\r\n"),
        request(Method::GET, "/foo/bar", Some("x=1"))
    );
    assert_eq!(
        Request::from_bytes("PUT /caf\u{e9}?\u{1F600} HTTP/1.1".as_bytes()),
        request(Method::PUT, "/caf\u{e9}", Some("\u{1F600}"))
    );
    assert_eq!(Request::from_bytes(b""), Err(ParseError::EmptyRequest));
    assert_eq!(Request::from_bytes(b"\r\n"), Err(ParseError::MissingMethod));
    assert_eq!(Request::from_bytes(b"GET"), Err(ParseError::MissingPath));
    assert_eq!(
        Request::from_bytes(b"FETCH / HTTP/1.1"),
        Err(ParseError::UnknownMethod("FETCH".to_string()))
    );
}

#[test]
fn bytes_that_are_not_text_are_replaced() {
    assert_eq!(
        Request::from_bytes(b"GET /a\xffb?\xc3 HTTP/1.1"),
        request(Method::GET, "/a\u{fffd}b", Some("\u{fffd}"))
    );
    assert_eq!(
        Request::from_bytes(b"G\xffT / HTTP/1.1"),
        Err(ParseError::UnknownMethod("G\u{fffd}T".to_string()))
    );
    assert_eq!(Request::from_bytes(b"\xff\xfe"), Err(ParseError::MissingPath));
}

#[test]
fn zero_filled_buffer_parses_like_its_first_line() {
    let mut buffer = [0u8; 1024];
    let text = b"POST /search?q=rust&x=1 HTTP/1.1\r\n\r\n";
    buffer[..text.len()].copy_from_slice(text);
    assert_eq!(
        Request::from_bytes(&buffer[..]),
        request(Method::POST, "/search", Some("q=rust&x=1"))
    );
    assert_eq!(Request::from_bytes(&[0u8; 1024][..]), Err(ParseError::MissingPath));
}

#[test]
fn requests_are_equal_when_every_part_is() {
    let base = Request::from("GET /a?b HTTP/1.1").unwrap();
    assert!(base == Request::from("GET   /a?b").unwrap());
    assert!(base != Request::from("PUT /a?b").unwrap());
    assert!(base != Request::from("GET /c?b").unwrap());
    assert!(base != Request::from("GET /a?c").unwrap());
    assert!(base != Request::from("GET /a").unwrap());
    assert!(base != Request::from("GET /a?").unwrap());
    assert!(Request::from("GET /a").unwrap() == Request::from("GET /a x").unwrap());
    assert!(Request::from("GET /a").unwrap() != Request::from("GET /a?").unwrap());
}

#[test]
fn errors_are_equal_when_kind_and_token_are() {
    let unknown = ParseError::UnknownMethod("BREW".to_string());
    assert!(unknown == ParseError::UnknownMethod("BREW".to_string()));
    assert!(unknown != ParseError::UnknownMethod("brew".to_string()));
    assert!(unknown != ParseError::UnknownMethod(String::new()));
    assert!(unknown != ParseError::MissingPath);
    assert!(ParseError::EmptyRequest == ParseError::EmptyRequest);
    assert!(ParseError::MissingMethod == ParseError::MissingMethod);
    assert!(ParseError::MissingPath == ParseError::MissingPath);
    assert!(ParseError::EmptyRequest != ParseError::MissingMethod);
    assert!(ParseError::MissingMethod != ParseError::MissingPath);
    assert!(ParseError::MissingPath != ParseError::EmptyRequest);
}

#[test]
fn request_clone_is_equal() {
    let parsed = Request::from("GET /a?b HTTP/1.1").unwrap();
    assert_eq!(parsed.clone(), parsed);
    let plain = Request::from("HEAD /a").unwrap();
    assert_eq!(plain.clone(), plain);
}

#[test]
fn parsing_twice_gives_equal_results() {
    let inputs = [
        "",
        "GET",
        "\n",
        "FETCH / HTTP/1.1",
        "GET /foo/bar HTTP/1.1\r\n",
        "POST /search?q=rust&x=1 HTTP/1.1\r\n",
        "GET ?x=1",
    ];
    for input in inputs {
        assert_eq!(Request::from(input), Request::from(input));
    }
}

#[test]
fn written_request_line_parses_back() {
    let paths = ["/", "/foo/bar", "", "a", "/caf\u{e9}", "//", "/a/../b"];
    let queries = [None, Some(""), Some("q=rust&x=1"), Some("?"), Some("a?b"), Some("\u{4e2d}")];
    for path in paths {
        for query in queries {
            if path.is_empty() && query.is_none() {
                continue;
            }
            let target = match query {
                Some(text) => format!("{}?{}", path, text),
                None => path.to_string(),
            };
            let line = format!("GET {} HTTP/1.1", target);
            assert_eq!(Request::from(&line), request(Method::GET, path, query), "{:?}", line);
        }
    }
}

#[test]
fn written_request_line_without_target_reads_the_version_as_path() {
    assert_eq!(Request::from("GET  HTTP/1.1"), request(Method::GET, "HTTP/1.1", None));
}

#[test]
fn written_request_line_does_not_carry_white_space_or_an_early_question_mark() {
    assert_eq!(Request::from("GET /a b HTTP/1.1"), request(Method::GET, "/a", None));
    assert_eq!(Request::from("GET /a?b c HTTP/1.1"), request(Method::GET, "/a", Some("b")));
    assert_eq!(Request::from("GET /a?b?c HTTP/1.1"), request(Method::GET, "/a", Some("b?c")));
}

#[test]
fn split_target_of_empty_target_is_the_root_path() {
    assert_eq!(split_target(""), ("/".to_string(), None));
}

#[test]
fn split_target_splits_at_the_first_question_mark_only() {
    assert_eq!(split_target("/a"), ("/a".to_string(), None));
    assert_eq!(split_target("/a?b"), ("/a".to_string(), Some("b".to_string())));
    assert_eq!(split_target("/a?"), ("/a".to_string(), Some(String::new())));
    assert_eq!(split_target("?x=1"), (String::new(), Some("x=1".to_string())));
    assert_eq!(split_target("?"), (String::new(), Some(String::new())));
    assert_eq!(split_target("a?b?c"), ("a".to_string(), Some("b?c".to_string())));
    assert_eq!(
        split_target("\u{e9}\u{1F600}?\u{4e2d}x"),
        ("\u{e9}\u{1F600}".to_string(), Some("\u{4e2d}x".to_string()))
    );
}

#[test]
fn split_target_keeps_white_space() {
    assert_eq!(split_target(" a ? b "), (" a ".to_string(), Some(" b ".to_string())));
}

#[test]
fn response_is_a_status_line_an_empty_header_block_and_a_body() {
    let body = format!("Hello from \n{}Rust!", " ".repeat(72));
    assert_eq!(RESPONSE, format!("HTTP/1.1 200 OK\r\n\r\n{}", body));
    assert_eq!(RESPONSE.len(), 108);
}

#[test]
fn response_does_not_depend_on_the_outcome() {
    let inputs = ["", "\n", "GET", "FETCH / HTTP/1.1", "GET / HTTP/1.1", "POST /a?b HTTP/1.1\r\n"];
    for input in inputs {
        assert_eq!(Server::response(&Request::from(input)), RESPONSE, "{:?}", input);
    }
    assert_eq!(Server::response(&Err(ParseError::UnknownMethod("X".to_string()))), RESPONSE);
}

#[test]
fn buffer_holds_one_kibibyte() {
    assert_eq!(BUFFER_SIZE, 1024);
}

#[test]
fn server_keeps_its_address() {
    let server = Server::new("127.0.0.1:8080".to_string());
    assert_eq!(server.addr, "127.0.0.1:8080");
    assert_eq!(Server::new(String::new()).addr, "");
}
