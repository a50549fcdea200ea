use workout_tracker::response::{
    accepted, build_response, exercises, malformed, missing_user, not_found, overflow, refusal,
    store_failure, ContentType, Response, Status,
};

#[test]
fn build_response_writes_headers_and_body() {
    assert_eq!(
        build_response("HTTP/1.1 200 OK", "[]", "application/json"),
        "HTTP/1.1 200 OK\r\nAccess-Control-Allow-Origin: *\r\nContent-Type: application/json\r\nContent-Length: 2\r\n\r\n[]"
    );
}

#[test]
fn build_response_counts_the_body_in_bytes() {
    assert_eq!(
        build_response("S", "héllo", "T"),
        "S\r\nAccess-Control-Allow-Origin: *\r\nContent-Type: T\r\nContent-Length: 6\r\n\r\nhéllo"
    );
    assert_eq!(
        build_response("", "", ""),
        "\r\nAccess-Control-Allow-Origin: *\r\nContent-Type: \r\nContent-Length: 0\r\n\r\n"
    );
    let body = "x".repeat(1234);
    let text = build_response("S", &body, "T");
    assert!(text.contains("\r\nContent-Length: 1234\r\n\r\n"));
    assert!(text.ends_with(&body));
}

#[test]
fn status_lines_and_content_types() {
    assert_eq!(Status::Success.line(), "HTTP/1.1 200 OK");
    assert_eq!(Status::BadRequest.line(), "HTTP/1.1 400 BAD REQUEST");
    assert_eq!(Status::NotFound.line(), "HTTP/1.1 404 NOT FOUND");
    assert_eq!(Status::ServerError.line(), "HTTP/1.1 500 INTERNAL SERVER ERROR");
    assert_eq!(ContentType::Json.name(), "application/json");
    assert_eq!(ContentType::Html.name(), "text/html");
}

fn parts(r: &Response) -> (Status, ContentType, &str) {
    (r.status, r.content_type, r.contents.as_str())
}

#[test]
fn fixed_replies() {
    assert_eq!(parts(&malformed()), (Status::BadRequest, ContentType::Html, "400 BAD REQUEST"));
    assert_eq!(
        parts(&not_found()),
        (Status::NotFound, ContentType::Html, "<html><body>404 NOT FOUND</body></html>")
    );
    assert_eq!(
        parts(&store_failure()),
        (
            Status::ServerError,
            ContentType::Html,
            "<html><body>500 INTERNAL SERVER ERROR</body></html>"
        )
    );
    assert_eq!(
        parts(&overflow()),
        (
            Status::ServerError,
            ContentType::Html,
            "<html><body>500 INTERNAL SERVER ERROR</body></html>"
        )
    );
    assert_eq!(
        parts(&missing_user()),
        (
            Status::BadRequest,
            ContentType::Html,
            "<html><body>400 BAD REQUEST: Invalid or missing userid</body></html>"
        )
    );
}

#[test]
fn replies_with_a_variable_part() {
    assert_eq!(
        parts(&refusal("Query returned no rows")),
        (
            Status::BadRequest,
            ContentType::Json,
            r#"{"error": "Query returned no rows", "success": false}"#
        )
    );
    assert_eq!(
        parts(&accepted(2)),
        (Status::Success, ContentType::Json, r#"{"user_id": 2, "success": true}"#)
    );
    assert_eq!(
        parts(&accepted(u32::MAX)),
        (Status::Success, ContentType::Json, r#"{"user_id": 4294967295, "success": true}"#)
    );
    assert_eq!(parts(&accepted(0)).2, r#"{"user_id": 0, "success": true}"#);
    assert_eq!(
        parts(&exercises("[1]".to_string())),
        (Status::Success, ContentType::Json, "[1]")
    );
}

#[test]
fn response_goes_over_the_wire_with_its_own_parts() {
    assert_eq!(
        not_found().to_wire(),
        "HTTP/1.1 404 NOT FOUND\r\nAccess-Control-Allow-Origin: *\r\nContent-Type: text/html\r\nContent-Length: 39\r\n\r\n<html><body>404 NOT FOUND</body></html>"
    );
    assert_eq!(
        accepted(2).to_wire(),
        "HTTP/1.1 200 OK\r\nAccess-Control-Allow-Origin: *\r\nContent-Type: application/json\r\nContent-Length: 31\r\n\r\n{\"user_id\": 2, \"success\": true}"
    );
}
