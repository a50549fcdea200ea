use workout_tracker::framer::{frame, header_length, Framed, FramerState};
use workout_tracker::request::{parse_query, parse_request, query_param, user_id};

fn done(input: &[u8]) -> (String, String, usize) {
    match frame(input) {
        Framed::Done(f) => (f.request_line, f.body, f.consumed),
        Framed::Pending(state) => panic!("pending in {state:?}"),
        Framed::BodyNotText => panic!("body is no text"),
    }
}

fn pending(input: &[u8]) -> FramerState {
    match frame(input) {
        Framed::Pending(state) => state,
        Framed::Done(f) => panic!("done with {:?}", f.request_line),
        Framed::BodyNotText => panic!("body is no text"),
    }
}

fn pairs(list: &[(&str, &str)]) -> Vec<(String, String)> {
    list.iter().map(|(k, v)| (k.to_string(), v.to_string())).collect()
}

fn chars(s: &str) -> Vec<char> {
    s.chars().collect()
}

#[test]
fn get_request_is_framed_with_path_query_and_empty_body() {
    let input = b"GET /exercises?userid=5 HTTP/1.1\r\nHost: x\r\n\r\n";
    let (line, body, consumed) = done(input);
    assert_eq!(line, "GET /exercises?userid=5 HTTP/1.1");
    assert_eq!(body, "");
    assert_eq!(consumed, input.len());
    let request = parse_request(&line, body).expect("three words");
    assert_eq!(request.method, "GET");
    assert_eq!(request.path, "/exercises");
    assert_eq!(request.query, "userid=5");
    assert_eq!(request.params, pairs(&[("userid", "5")]));
    assert_eq!(query_param(&request.params, "userid"), Some("5".to_string()));
    assert_eq!(request.body, "");
}

#[test]
fn body_is_exactly_the_declared_bytes() {
    let input = b"POST /workout?userid=2 HTTP/1.1\r\nContent-Length: 10\r\n\r\n0123456789";
    let (line, body, consumed) = done(input);
    assert_eq!(line, "POST /workout?userid=2 HTTP/1.1");
    assert_eq!(body, "0123456789");
    assert_eq!(consumed, input.len());
}

#[test]
fn bytes_behind_the_body_are_left_alone() {
    let mut input = b"POST /workout HTTP/1.1\r\nContent-Length: 10\r\n\r\n0123456789".to_vec();
    let whole = input.len();
    input.extend_from_slice(b"GET /next HTTP/1.1\r\n\r\n");
    let (line, body, consumed) = done(&input);
    assert_eq!(line, "POST /workout HTTP/1.1");
    assert_eq!(body, "0123456789");
    assert_eq!(consumed, whole);
}

#[test]
fn framer_waits_for_the_request_line() {
    assert_eq!(pending(b""), FramerState::AwaitingRequestLine);
    assert_eq!(pending(b"GET /exercises HTTP/1.1"), FramerState::AwaitingRequestLine);
    assert_eq!(pending(b"GET /exercises HTTP/1.1\r"), FramerState::AwaitingRequestLine);
}

#[test]
fn framer_waits_for_the_blank_line() {
    assert_eq!(pending(b"GET / HTTP/1.1\r\n"), FramerState::AwaitingHeaders);
    assert_eq!(pending(b"GET / HTTP/1.1\r\nHost: x\r\n"), FramerState::AwaitingHeaders);
    assert_eq!(pending(b"GET / HTTP/1.1\r\nHost: x\r\n\r"), FramerState::AwaitingHeaders);
}

#[test]
fn framer_waits_for_the_whole_body() {
    let head = b"POST /workout HTTP/1.1\r\nContent-Length: 10\r\n\r\n".to_vec();
    assert_eq!(pending(&head), FramerState::ReadingBody);
    let mut nine = head.clone();
    nine.extend_from_slice(b"012345678");
    assert_eq!(pending(&nine), FramerState::ReadingBody);
    let mut ten = nine.clone();
    ten.push(b'9');
    assert_eq!(done(&ten).1, "0123456789");
}

#[test]
fn lines_may_end_in_a_bare_line_feed() {
    let input = b"GET /x HTTP/1.1\nContent-Length: 2\n\nhi";
    let (line, body, consumed) = done(input);
    assert_eq!(line, "GET /x HTTP/1.1");
    assert_eq!(body, "hi");
    assert_eq!(consumed, input.len());
}

#[test]
fn only_one_carriage_return_belongs_to_the_line_end() {
    let (line, _, _) = done(b"GET /x HTTP/1.1\r\r\n\r\n");
    assert_eq!(line, "GET /x HTTP/1.1\r");
    assert_eq!(pending(b"GET /x HTTP/1.1\r\n\r\r\n"), FramerState::AwaitingHeaders);
}

#[test]
fn last_content_length_counts() {
    let input = b"POST /w HTTP/1.1\r\nContent-Length: 10\r\nContent-Length: 3\r\n\r\nabcdef";
    let (_, body, consumed) = done(input);
    assert_eq!(body, "abc");
    assert_eq!(consumed, input.len() - 3);
}

#[test]
fn unreadable_content_length_is_zero() {
    for value in ["abc", "", "-1", "1 ", " 1", "1.5", "99999999999999999999999999"] {
        let input = format!("POST /w HTTP/1.1\r\nContent-Length: {value}\r\n\r\nabcdef");
        let (_, body, consumed) = done(input.as_bytes());
        assert_eq!(body, "", "{value:?}");
        assert_eq!(consumed, input.len() - 6, "{value:?}");
    }
    let input = b"POST /w HTTP/1.1\r\nContent-Length: 4\r\nContent-Length: x\r\n\r\nabcdef";
    assert_eq!(done(input).1, "");
}

#[test]
fn content_length_name_must_match_exactly() {
    for name in ["content-length: 3", "Content-length: 3", "Content-Length:3", " Content-Length: 3"] {
        let input = format!("POST /w HTTP/1.1\r\n{name}\r\n\r\nabcdef");
        assert_eq!(done(input.as_bytes()).1, "", "{name:?}");
    }
    assert_eq!(done(b"POST /w HTTP/1.1\r\nContent-Length: +3\r\n\r\nabcdef").1, "abc");
}

#[test]
fn content_length_on_the_request_line_is_no_header() {
    let input = b"Content-Length: 3\r\n\r\nabcdef";
    let (line, body, _) = done(input);
    assert_eq!(line, "Content-Length: 3");
    assert_eq!(body, "");
}

#[test]
fn header_length_reads_the_number() {
    assert_eq!(header_length("Content-Length: 10"), Some(10));
    assert_eq!(header_length("Content-Length: 0"), Some(0));
    assert_eq!(header_length("Content-Length: "), Some(0));
    assert_eq!(header_length("Content-Length: ten"), Some(0));
    assert_eq!(header_length("Content-Length:"), None);
    assert_eq!(header_length("Host: x"), None);
    assert_eq!(header_length(""), None);
    assert_eq!(
        header_length(&format!("Content-Length: {}", usize::MAX)),
        Some(usize::MAX)
    );
}

#[test]
fn blank_first_line_is_a_request_without_request_line() {
    let (line, body, consumed) = done(b"\r\nGET / HTTP/1.1\r\n\r\n");
    assert_eq!(line, "");
    assert_eq!(body, "");
    assert_eq!(consumed, 2);
    assert!(parse_request(&line, body).is_none());
}

#[test]
fn line_that_is_no_text_ends_the_headers() {
    let input = b"GET /x HTTP/1.1\r\nX: \xFF\r\nContent-Length: 3\r\n\r\nabc";
    let (line, body, consumed) = done(input);
    assert_eq!(line, "GET /x HTTP/1.1");
    assert_eq!(body, "");
    assert_eq!(consumed, "GET /x HTTP/1.1\r\n".len() + "X: \r\n".len() + 1);
    let (line, _, consumed) = done(b"\xFF\xFE\r\nGET / HTTP/1.1\r\n\r\n");
    assert_eq!(line, "");
    assert_eq!(consumed, 4);
}

#[test]
fn body_that_is_no_text_is_reported() {
    let input = b"POST /w HTTP/1.1\r\nContent-Length: 2\r\n\r\n\xC3\x28";
    assert!(matches!(frame(input), Framed::BodyNotText));
    let cut = b"POST /w HTTP/1.1\r\nContent-Length: 1\r\n\r\n\xC3\xA9";
    assert!(matches!(frame(cut), Framed::BodyNotText));
    let whole = b"POST /w HTTP/1.1\r\nContent-Length: 2\r\n\r\n\xC3\xA9";
    assert_eq!(done(whole).1, "é");
}

#[test]
fn declared_length_beyond_any_input_keeps_waiting() {
    let input = format!("POST /w HTTP/1.1\r\nContent-Length: {}\r\n\r\nabc", usize::MAX);
    assert_eq!(pending(input.as_bytes()), FramerState::ReadingBody);
}

#[test]
fn request_line_needs_three_words() {
    assert!(parse_request("", String::new()).is_none());
    assert!(parse_request("GET", String::new()).is_none());
    assert!(parse_request("GET /exercises", String::new()).is_none());
    assert!(parse_request("   GET    /exercises   ", String::new()).is_none());
    assert!(parse_request("GET /exercises HTTP/1.1", String::new()).is_some());
    let request = parse_request("  GET \t /a?b  HTTP/1.1 extra words", "body".to_string()).unwrap();
    assert_eq!(request.method, "GET");
    assert_eq!(request.path, "/a");
    assert_eq!(request.query, "b");
    assert_eq!(request.body, "body");
}

#[test]
fn target_is_split_at_the_first_question_mark() {
    let request = parse_request("GET /a?b?c=d HTTP/1.1", String::new()).unwrap();
    assert_eq!(request.path, "/a");
    assert_eq!(request.query, "b?c=d");
    let request = parse_request("GET /a? HTTP/1.1", String::new()).unwrap();
    assert_eq!(request.path, "/a");
    assert_eq!(request.query, "");
    let request = parse_request("GET ?x=1 HTTP/1.1", String::new()).unwrap();
    assert_eq!(request.path, "");
    assert_eq!(request.query, "x=1");
}

#[test]
fn target_without_query_has_one_empty_parameter() {
    let request = parse_request("GET /a HTTP/1.1", String::new()).unwrap();
    assert_eq!(request.path, "/a");
    assert_eq!(request.query, "");
    assert_eq!(request.params, pairs(&[("", "")]));
    assert_eq!(query_param(&request.params, "userid"), None);
    assert_eq!(query_param(&request.params, ""), Some(String::new()));
}

#[test]
fn query_is_split_on_ampersand_then_on_first_equals() {
    assert_eq!(parse_query(&chars("a=1&b=2")), pairs(&[("a", "1"), ("b", "2")]));
    assert_eq!(parse_query(&chars("a=1=2&b")), pairs(&[("a", "1=2"), ("b", "")]));
    assert_eq!(parse_query(&chars("a=&=b&&c")), pairs(&[("a", ""), ("", "b"), ("", ""), ("c", "")]));
    assert_eq!(parse_query(&chars("")), pairs(&[("", "")]));
}

#[test]
fn last_parameter_of_a_name_wins() {
    let params = parse_query(&chars("userid=1&x=2&userid=3"));
    assert_eq!(query_param(&params, "userid"), Some("3".to_string()));
    assert_eq!(query_param(&params, "x"), Some("2".to_string()));
    assert_eq!(query_param(&params, "y"), None);
    assert_eq!(user_id(&params), Some(3));
    let params = parse_query(&chars("userid=1&userid=abc"));
    assert_eq!(user_id(&params), None);
}

#[test]
fn user_id_is_an_unsigned_number_of_32_bits() {
    assert_eq!(user_id(&pairs(&[("userid", "5")])), Some(5));
    assert_eq!(user_id(&pairs(&[("userid", "+5")])), Some(5));
    assert_eq!(user_id(&pairs(&[("userid", "4294967295")])), Some(u32::MAX));
    assert_eq!(user_id(&pairs(&[("userid", "4294967296")])), None);
    assert_eq!(user_id(&pairs(&[("userid", "-5")])), None);
    assert_eq!(user_id(&pairs(&[("userid", "")])), None);
    assert_eq!(user_id(&pairs(&[("userid", "5 ")])), None);
    assert_eq!(user_id(&pairs(&[("userId", "5")])), None);
    assert_eq!(user_id(&pairs(&[])), None);
}

fn rank(state: FramerState) -> u8 {
    match state {
        FramerState::AwaitingRequestLine => 0,
        FramerState::AwaitingHeaders => 1,
        FramerState::ReadingBody => 2,
        FramerState::Done => 3,
    }
}

#[test]
fn framer_never_steps_back_as_input_arrives() {
    let input = b"POST /workout?userid=2 HTTP/1.1\r\nHost: x\r\nContent-Length: 5\r\n\r\nhello and more";
    let mut last = 0;
    let mut seen = [false; 4];
    for end in 0..=input.len() {
        let now = rank(frame(&input[..end]).state());
        assert!(now >= last, "stepped back at {end}");
        seen[now as usize] = true;
        last = now;
    }
    assert_eq!(seen, [true; 4]);
    assert_eq!(frame(b"").state(), FramerState::AwaitingRequestLine);
    assert_eq!(frame(b"GET / HTTP/1.1\r\n\r\n").state(), FramerState::Done);
    assert_eq!(frame(b"P /w H\r\nContent-Length: 1\r\n\r\n\xFF").state(), FramerState::Done);
}

#[test]
fn what_follows_a_whole_request_changes_nothing() {
    let whole = b"POST /w HTTP/1.1\r\nContent-Length: 4\r\n\r\nbody".to_vec();
    let (line, body, consumed) = done(&whole);
    for tail in [&b""[..], b"\r\n", b"GET / HTTP/1.1\r\n\r\n", b"\xFF\xFF", b"Content-Length: 9\r\n"] {
        let mut longer = whole.clone();
        longer.extend_from_slice(tail);
        assert_eq!(done(&longer), (line.clone(), body.clone(), consumed));
    }
}
