use mockable::http::collect_headers;
use mockable::http::group_query;
use mockable::http::HttpRequest;
use mockable::http::HttpResponse;

fn pair(key: &str, value: &str) -> (String, String) {
    (key.to_string(), value.to_string())
}

fn field(name: Option<&str>, value: Option<&str>) -> (Option<String>, Option<String>) {
    (name.map(String::from), value.map(String::from))
}

#[test]
fn query_values_are_gathered_under_their_key() {
    let query = group_query(&vec![
        pair("foo", "bar1"),
        pair("baz", "qux"),
        pair("foo", "bar2"),
    ]);
    assert_eq!(query.len(), 2);
    assert_eq!(
        query.get("foo"),
        Some(&vec!["bar1".to_string(), "bar2".to_string()])
    );
    assert_eq!(query.get("baz"), Some(&vec!["qux".to_string()]));
    assert_eq!(query.get("bar1"), None);
}

#[test]
fn empty_query_has_no_key() {
    let query = group_query(&vec![]);
    assert_eq!(query.len(), 0);
    assert_eq!(query.get("foo"), None);
}

#[test]
fn headers_without_name_or_text_are_left_out() {
    let headers = collect_headers(&vec![
        field(Some("accept"), Some("*/*")),
        field(None, Some("text/html")),
        field(Some("x-binary"), None),
        field(Some("host"), Some("localhost:8000")),
        field(None, None),
    ]);
    assert_eq!(headers.len(), 2);
    assert_eq!(headers.get("accept"), Some(&"*/*".to_string()));
    assert_eq!(headers.get("host"), Some(&"localhost:8000".to_string()));
    assert_eq!(headers.get("x-binary"), None);
}

#[test]
fn later_header_of_one_name_wins() {
    let headers = collect_headers(&vec![
        field(Some("accept"), Some("text/html")),
        field(Some("accept"), Some("*/*")),
    ]);
    assert_eq!(headers.len(), 1);
    assert_eq!(headers.get("accept"), Some(&"*/*".to_string()));
}

#[test]
fn received_request_holds_what_came() {
    let req = HttpRequest::received(
        "GET".to_string(),
        "/a/b".to_string(),
        &vec![pair("foo", "bar1"), pair("foo", "bar2")],
        &vec![
            field(Some("accept"), Some("*/*")),
            field(Some("content-length"), Some("3")),
            field(Some("host"), Some("localhost:8000")),
        ],
        "abc".to_string().into_bytes(),
    );
    assert_eq!(req.body, "abc".as_bytes().to_vec());
    assert_eq!(req.method, "GET");
    assert_eq!(req.path, "/a/b");
    assert_eq!(req.headers.len(), 3);
    assert_eq!(req.headers.get("accept"), Some(&"*/*".to_string()));
    assert_eq!(req.headers.get("content-length"), Some(&"3".to_string()));
    assert_eq!(req.headers.get("host"), Some(&"localhost:8000".to_string()));
    assert_eq!(req.query.len(), 1);
    assert_eq!(
        req.query.get("foo"),
        Some(&vec!["bar1".to_string(), "bar2".to_string()])
    );
}

#[test]
fn responses_compare_by_what_they_hold() {
    let json = HttpResponse::Json(serde_json::Value::String("val".to_string()));
    assert_eq!(json.clone(), json);
    assert_ne!(json, HttpResponse::Text("val".to_string()));
    assert_eq!(
        HttpResponse::Html("<head></head>".to_string()),
        HttpResponse::Html("<head></head>".to_string())
    );
    assert_ne!(HttpResponse::Empty, HttpResponse::Text(String::new()));
}

#[test]
fn requests_are_equal_whatever_the_order_of_their_headers() {
    let one = HttpRequest::received(
        "GET".to_string(),
        "/".to_string(),
        &vec![pair("k", "1"), pair("j", "2"), pair("k", "3")],
        &vec![field(Some("a"), Some("x")), field(Some("b"), Some("y"))],
        vec![1, 2, 3],
    );
    let other = HttpRequest::received(
        "GET".to_string(),
        "/".to_string(),
        &vec![pair("j", "2"), pair("k", "1"), pair("k", "3")],
        &vec![field(Some("b"), Some("y")), field(Some("a"), Some("x"))],
        vec![1, 2, 3],
    );
    assert_eq!(one, other);
    let reordered = HttpRequest::received(
        "GET".to_string(),
        "/".to_string(),
        &vec![pair("j", "2"), pair("k", "3"), pair("k", "1")],
        &vec![field(Some("b"), Some("y")), field(Some("a"), Some("x"))],
        vec![1, 2, 3],
    );
    assert_ne!(one, reordered);
}
