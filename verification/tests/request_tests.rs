use inventory_http::request::{accept_line, finish_head, get_body, get_headers,
    header_content_length, wanted_body};

#[test]
fn content_length_in_any_letter_case() {
    assert_eq!(header_content_length("Content-Length: 42\r\n"), Some(42));
    assert_eq!(header_content_length("content-length: 42\r\n"), Some(42));
    assert_eq!(header_content_length("CONTENT-LENGTH: 42\r\n"), Some(42));
    assert_eq!(header_content_length("cOnTeNt-LeNgTh:42"), Some(42));
    assert_eq!(header_content_length("Content-Length:   0  \r\n"), Some(0));
    assert_eq!(header_content_length("Content-Length: 4294967295\r\n"), Some(u32::MAX));
}

#[test]
fn content_length_that_is_no_number_counts_as_zero() {
    assert_eq!(header_content_length("Content-Length: abc\r\n"), Some(0));
    assert_eq!(header_content_length("Content-Length:\r\n"), Some(0));
    assert_eq!(header_content_length("Content-Length: -1\r\n"), Some(0));
    assert_eq!(header_content_length("Content-Length: 4294967296\r\n"), Some(0));
    assert_eq!(header_content_length("Content-Length: 1 2\r\n"), Some(0));
    assert_eq!(header_content_length("Content-Length: +7\r\n"), Some(7));
}

#[test]
fn other_lines_declare_no_length() {
    assert_eq!(header_content_length("Host: example.org\r\n"), None);
    assert_eq!(header_content_length("Content-Type: text/plain\r\n"), None);
    assert_eq!(header_content_length(" Content-Length: 5\r\n"), None);
    assert_eq!(header_content_length("Content-Length"), None);
    assert_eq!(header_content_length("Content_Length: 5"), None);
    assert_eq!(header_content_length(""), None);
    assert_eq!(header_content_length("\r\n"), None);
}

#[test]
fn content_length_agrees_with_the_standard_functions() {
    let lines = [
        "Content-Length: 5\r\n", "content-length:5", "CONTENT-LENGTH:\t12 \r\n", "Content-Length: x",
        "Content-Lengt: 5", "Kontent-Length: 5", "Content-Length: 99999999999",
        "\u{212a}ontent-length: 5", "content-length:\u{a0}8\u{3000}", "Content-Length: +0",
        "content-length: 1e3", "Accept: */*",
    ];
    for line in lines {
        let expected = if line.to_lowercase().starts_with("content-length:") {
            Some(line["content-length:".len()..].trim().parse::<u32>().unwrap_or(0))
        } else {
            None
        };
        assert_eq!(header_content_length(line), expected, "line {:?}", line);
    }
}

#[test]
fn accept_line_gathers_the_head() {
    let mut request = String::new();
    let mut length: u32 = 0;
    assert!(!accept_line(&mut request, &mut length, "POST /add-tech HTTP/1.1\r\n"));
    assert_eq!(length, 0);
    assert!(!accept_line(&mut request, &mut length, "Content-Length: 12\r\n"));
    assert_eq!(length, 12);
    assert!(!accept_line(&mut request, &mut length, "Host: a+b\r\n"));
    assert_eq!(length, 12);
    assert!(accept_line(&mut request, &mut length, "\r\n"));
    assert_eq!(length, 12);
    assert_eq!(request, "POST /add-tech HTTP/1.1\r\nContent-Length: 12\r\nHost: a+b\r\n");
}

#[test]
fn accept_line_takes_a_bare_line_feed_as_a_line() {
    let mut request = String::new();
    let mut length: u32 = 0;
    assert!(!accept_line(&mut request, &mut length, "\n"));
    assert_eq!(request, "\n");
}

#[test]
fn finish_head_turns_plus_into_space() {
    assert_eq!(finish_head("GET /a+b HTTP/1.1\r\nAccept: a+b\r\n"), "GET /a b HTTP/1.1\r\nAccept: a b\r\n");
    assert_eq!(finish_head(""), "");
}

#[test]
fn get_headers_reads_up_to_the_blank_line() {
    let lines = vec![
        "POST /add-unit HTTP/1.1\r\n".to_string(),
        "Content-length: 30\r\n".to_string(),
        "Accept: text/html+xml\r\n".to_string(),
        "\r\n".to_string(),
        "Content-Length: 99\r\n".to_string(),
    ];
    let mut length: u32 = 0;
    let head = get_headers(&lines, &mut length);
    assert_eq!(
        head,
        Some("POST /add-unit HTTP/1.1\r\nContent-length: 30\r\nAccept: text/html xml\r\n".to_string())
    );
    assert_eq!(length, 30);
}

#[test]
fn get_headers_without_length_header_leaves_zero() {
    let lines = vec!["GET / HTTP/1.1\r\n".to_string(), "\r\n".to_string()];
    let mut length: u32 = 0;
    assert_eq!(get_headers(&lines, &mut length), Some("GET / HTTP/1.1\r\n".to_string()));
    assert_eq!(length, 0);
}

#[test]
fn get_headers_takes_the_last_declared_length() {
    let lines = vec![
        "POST / HTTP/1.1\r\n".to_string(),
        "Content-Length: 5\r\n".to_string(),
        "Content-Length: 7\r\n".to_string(),
        "\r\n".to_string(),
    ];
    let mut length: u32 = 0;
    assert!(get_headers(&lines, &mut length).is_some());
    assert_eq!(length, 7);
}

#[test]
fn get_headers_fails_when_the_lines_end_early() {
    let lines = vec!["GET / HTTP/1.1\r\n".to_string(), "Content-Length: 3\r\n".to_string()];
    let mut length: u32 = 0;
    assert_eq!(get_headers(&lines, &mut length), None);
    assert_eq!(length, 3);
    let mut length: u32 = 0;
    assert_eq!(get_headers(&Vec::new(), &mut length), None);
    assert_eq!(length, 0);
}

#[test]
fn get_headers_of_a_blank_line_alone_is_empty() {
    let mut length: u32 = 4;
    assert_eq!(get_headers(&vec!["\r\n".to_string()], &mut length), Some(String::new()));
    assert_eq!(length, 4);
}

#[test]
fn no_body_is_read_for_get() {
    assert_eq!(wanted_body("GET", 0), 0);
    assert_eq!(wanted_body("GET", 10), 0);
    assert_eq!(wanted_body("GET", u32::MAX), 0);
    assert!(get_body("GET", 10, "a=1").is_none());
}

#[test]
fn body_is_read_for_post_with_a_length() {
    assert_eq!(wanted_body("POST", 10), 10);
    assert_eq!(wanted_body("POST", 0), 0);
    assert_eq!(wanted_body("post", 10), 0);
    assert_eq!(wanted_body("PUT", 10), 0);
    assert!(get_body("POST", 0, "a=1").is_none());
    assert!(get_body("PUT", 3, "a=1").is_none());
    let body = get_body("POST", 3, "a=1").unwrap();
    assert_eq!(body.get("a"), Some("1"));
}
