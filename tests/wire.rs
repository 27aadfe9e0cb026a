use api_codegen::client::{
    decode_query, encode_query, join_url, query_pairs, request_url, response_error, ClientError,
    QueryField,
};
use api_codegen::server::{error_envelope, APIResult};
use api_codegen::template::fill_path;

fn field(name: &str, value: Option<&str>) -> QueryField {
    QueryField { name: name.to_string(), value: value.map(|v| v.to_string()) }
}

fn strings(vals: &[&str]) -> Vec<String> {
    vals.iter().map(|v| v.to_string()).collect()
}

#[test]
fn path_values_fill_placeholders_in_declaration_order() {
    let url = request_url(
        "http://localhost:3000",
        "/users/{user_id}/posts/{post_id}",
        &strings(&["42", "7"]),
        &vec![],
    );
    assert_eq!(url, "http://localhost:3000/users/42/posts/7");
}

#[test]
fn fill_is_by_position_not_by_name() {
    assert_eq!(fill_path("/a/{second}/b/{first}", &strings(&["1", "2"])), "/a/1/b/2");
}

#[test]
fn fill_keeps_text_without_placeholders() {
    assert_eq!(fill_path("/users", &strings(&[])), "/users");
    assert_eq!(fill_path("", &strings(&["x"])), "");
    assert_eq!(fill_path("/open/{brace", &strings(&["x"])), "/open/{brace");
}

#[test]
fn fill_leaves_placeholders_without_values() {
    assert_eq!(fill_path("/u/{a}/{b}", &strings(&["1"])), "/u/1/{b}");
}

#[test]
fn query_string_is_appended_after_question_mark() {
    let fields = vec![field("page", Some("2")), field("limit", Some("10"))];
    let url = request_url("http://h", "/users", &strings(&[]), &vec![fields]);
    assert_eq!(url, "http://h/users?page=2&limit=10");
}

#[test]
fn empty_query_string_is_omitted() {
    let fields = vec![field("page", None), field("limit", None)];
    let url = request_url("http://h", "/users", &strings(&[]), &vec![fields]);
    assert_eq!(url, "http://h/users");
    assert_eq!(join_url("http://h", "/x", ""), "http://h/x");
    assert_eq!(join_url("http://h", "/x", "a=1"), "http://h/x?a=1");
}

#[test]
fn query_values_are_form_encoded() {
    let fields = vec![field("q", Some("a b&c"))];
    assert_eq!(encode_query(&vec![fields]), "q=a+b%26c");
}

#[test]
fn absent_query_fields_write_nothing() {
    let fields = vec![field("page", Some("2")), field("limit", None)];
    let pairs = query_pairs(&fields);
    assert_eq!(pairs, vec![("page".to_string(), "2".to_string())]);
}

#[test]
fn query_round_trip_absent_field_is_none() {
    let fields = vec![field("page", Some("2")), field("limit", None)];
    let encoded = encode_query(&vec![fields]);
    assert_eq!(encoded, "page=2");
    let names = strings(&["page", "limit"]);
    let decoded = decode_query(&encoded, &names).unwrap();
    assert_eq!(decoded, vec![Some("2".to_string()), None]);
}

#[test]
fn query_round_trip_with_escapes() {
    let fields = vec![field("name", Some("O'Brien & \"Test\"")), field("tag", Some("日本"))];
    let encoded = encode_query(&vec![fields]);
    let decoded = decode_query(&encoded, &strings(&["name", "tag", "other"])).unwrap();
    assert_eq!(
        decoded,
        vec![Some("O'Brien & \"Test\"".to_string()), Some("日本".to_string()), None]
    );
}

#[test]
fn decode_query_rejects_a_field_given_twice() {
    assert!(decode_query("a=1&a=2&b=3", &strings(&["a", "b"])).is_err());
    let decoded = decode_query("b=3&x=1&x=2", &strings(&["a", "b"])).unwrap();
    assert_eq!(decoded, vec![None, Some("3".to_string())]);
}

#[test]
fn all_query_values_are_encoded_in_order() {
    let first = vec![field("page", Some("2"))];
    let second = vec![field("sort", Some("name")), field("dir", None)];
    let url = request_url("http://h", "/u/{id}", &strings(&["9"]), &vec![first, second]);
    assert_eq!(url, "http://h/u/9?page=2&sort=name");
}

#[test]
fn ok_result_is_status_200_with_payload() {
    let r = APIResult::Success("{\"id\":42}".to_string()).into_response();
    assert_eq!(r.status, 200);
    assert_eq!(r.body, "{\"id\":42}");
}

#[test]
fn not_found_result_is_status_404_with_error_body() {
    let r = APIResult::NotFound("Photo 5 not found".to_string()).into_response();
    assert_eq!(r.status, 404);
    assert_eq!(r.body, "{\"error\":\"Photo 5 not found\"}");
}

#[test]
fn internal_error_result_is_status_500_with_error_body() {
    let r = APIResult::InternalError("db \"down\"\n".to_string()).into_response();
    assert_eq!(r.status, 500);
    assert_eq!(r.body, "{\"error\":\"db \\\"down\\\"\\n\"}");
    let v: serde_json::Value = serde_json::from_str(&r.body).unwrap();
    assert_eq!(v["error"], "db \"down\"\n");
}

#[test]
fn status_codes_of_each_variant() {
    assert_eq!(APIResult::Success(1u8).status_code(), 200);
    assert_eq!(APIResult::<u8>::NotFound(String::new()).status_code(), 404);
    assert_eq!(APIResult::<u8>::InternalError(String::new()).status_code(), 500);
}

#[test]
fn error_envelope_wraps_quoted_text() {
    assert_eq!(error_envelope("\"x\""), "{\"error\":\"x\"}");
}

#[test]
fn success_status_gives_no_error() {
    assert!(response_error(200, None).is_none());
    assert!(response_error(204, Some("x".to_string())).is_none());
    assert!(response_error(299, None).is_none());
}

#[test]
fn failure_status_gives_api_error_with_body() {
    match response_error(404, Some("{\"error\":\"nope\"}".to_string())) {
        Some(ClientError::Api { status, body }) => {
            assert_eq!(status, 404);
            assert_eq!(body, "{\"error\":\"nope\"}");
        }
        other => panic!("unexpected: {:?}", other),
    }
    match response_error(500, None) {
        Some(ClientError::Api { status, body }) => {
            assert_eq!(status, 500);
            assert_eq!(body, "");
        }
        other => panic!("unexpected: {:?}", other),
    }
    assert!(response_error(199, None).is_some());
    assert!(response_error(300, None).is_some());
}
