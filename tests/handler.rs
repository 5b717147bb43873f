use drink_image_lookup::handler::{
    begin, drink_lookup, find_attribute_text, finish, object_key_json, Attribute, Step,
    StoreReply,
};
use drink_image_lookup::http::{message_json, preflight_response, same_text, Request, Response};

fn request(method: &str, body: Option<&[u8]>) -> Request {
    Request { method: method.to_string(), body: body.map(|b| b.to_vec()) }
}

fn post(body: &str) -> Request {
    request("POST", Some(body.as_bytes()))
}

fn answered(step: Step) -> Response {
    match step {
        Step::Respond(r) => r,
        Step::Lookup(k) => panic!("expected a response, got a lookup of {:?}", k),
    }
}

fn header_pairs(r: &Response) -> Vec<(String, String)> {
    r.headers.iter().map(|h| (h.name.clone(), h.value.clone())).collect()
}

fn assert_message(r: &Response, status: u16, msg: &str) {
    assert_eq!(r.status_code, status);
    assert_eq!(r.body, format!("{{\"message\":\"{}\"}}", msg));
    assert_eq!(
        header_pairs(r),
        vec![("Content-Type".to_string(), "application/json".to_string())]
    );
}

fn record(attrs: &[(&str, Option<&str>)]) -> StoreReply {
    StoreReply::Record(
        attrs
            .iter()
            .map(|(n, t)| Attribute { name: n.to_string(), text: t.map(|s| s.to_string()) })
            .collect(),
    )
}

const VALID: &str = "{\"barName\":\"Blue Bar\",\"drinkName\":\"Mojito\"}";

#[test]
fn options_gets_preflight_with_cors_headers() {
    for body in [None, Some(&b"garbage"[..]), Some(&[0xffu8, 0xfe][..]), Some(VALID.as_bytes())] {
        let r = answered(begin(&request("OPTIONS", body)));
        assert_eq!(r.status_code, 200);
        assert_eq!(r.body, "{\"message\":\"CORS preflight response\"}");
        assert_eq!(
            header_pairs(&r),
            vec![
                ("Content-Type".to_string(), "application/json".to_string()),
                ("Access-Control-Allow-Origin".to_string(), "*".to_string()),
                ("Access-Control-Allow-Methods".to_string(), "POST, GET, OPTIONS".to_string()),
                (
                    "Access-Control-Allow-Headers".to_string(),
                    "Content-Type, Authorization".to_string()
                ),
            ]
        );
    }
}

#[test]
fn preflight_response_is_the_options_answer() {
    let r = preflight_response();
    let s = answered(begin(&request("OPTIONS", None)));
    assert_eq!(header_pairs(&r), header_pairs(&s));
    assert_eq!(r.body, s.body);
}

#[test]
fn missing_body_is_invalid_request_body() {
    assert_message(&answered(begin(&request("POST", None))), 400, "Invalid request body");
    assert_message(&answered(begin(&request("GET", None))), 400, "Invalid request body");
}

#[test]
fn empty_body_is_invalid_request_body() {
    assert_message(&answered(begin(&post(""))), 400, "Invalid request body");
}

#[test]
fn non_utf8_body_is_invalid_request_body() {
    let r = answered(begin(&request("POST", Some(&[b'{', 0xc3, 0x28, b'}']))));
    assert_message(&r, 400, "Invalid request body");
}

#[test]
fn method_is_compared_exactly() {
    // a lower-case method is no preflight
    let r = answered(begin(&request("options", None)));
    assert_message(&r, 400, "Invalid request body");
}

#[test]
fn invalid_json_payload() {
    for body in ["{", "not json", "{\"barName\": \"a\",}", "{} {}"] {
        assert_message(&answered(begin(&post(body))), 400, "Invalid JSON payload");
    }
}

#[test]
fn bar_name_missing() {
    let r = answered(begin(&post("{\"drinkName\":\"Mojito\"}")));
    assert_message(&r, 400, "barName is missing");
}

#[test]
fn non_object_json_has_no_bar_name() {
    assert_message(&answered(begin(&post("[1, 2]"))), 400, "barName is missing");
    assert_message(&answered(begin(&post("\"barName\""))), 400, "barName is missing");
}

#[test]
fn bar_name_not_a_string() {
    let r = answered(begin(&post("{\"barName\":7,\"drinkName\":\"Mojito\"}")));
    assert_message(&r, 400, "barName is not a string");
    let r = answered(begin(&post("{\"barName\":null}")));
    assert_message(&r, 400, "barName is not a string");
}

#[test]
fn drink_name_missing() {
    let r = answered(begin(&post("{\"barName\":\"Blue Bar\"}")));
    assert_message(&r, 400, "drinkName is missing");
}

#[test]
fn drink_name_not_a_string() {
    let r = answered(begin(&post("{\"barName\":\"Blue Bar\",\"drinkName\":[\"Mojito\"]}")));
    assert_message(&r, 400, "drinkName is not a string");
}

#[test]
fn bar_name_is_checked_before_drink_name() {
    let r = answered(begin(&post("{\"barName\":false,\"drinkName\":1}")));
    assert_message(&r, 400, "barName is not a string");
}

#[test]
fn valid_request_reads_the_drink_record() {
    for method in ["POST", "GET"] {
        match begin(&request(method, Some(VALID.as_bytes()))) {
            Step::Lookup(k) => {
                assert_eq!(k.table, "drink_images");
                let parts: Vec<(String, String)> =
                    k.parts.iter().map(|p| (p.attribute.clone(), p.text.clone())).collect();
                assert_eq!(
                    parts,
                    vec![
                        ("barName".to_string(), "Blue Bar".to_string()),
                        ("drinkName".to_string(), "Mojito".to_string()),
                    ]
                );
            }
            Step::Respond(r) => panic!("expected a lookup, got {:?}", r),
        }
    }
}

#[test]
fn empty_names_are_accepted_and_escapes_decoded() {
    match begin(&post("{\"barName\":\"\",\"drinkName\":\"Caf\\u00e9 \\\"Noir\\\"\"}")) {
        Step::Lookup(k) => {
            assert_eq!(k.parts[0].text, "");
            assert_eq!(k.parts[1].text, "Caf\u{e9} \"Noir\"");
        }
        Step::Respond(r) => panic!("expected a lookup, got {:?}", r),
    }
}

#[test]
fn no_record_is_item_not_found() {
    assert_message(&finish(&StoreReply::NoRecord), 404, "Item not found");
}

#[test]
fn record_with_object_key() {
    let r = finish(&record(&[
        ("barName", Some("Blue Bar")),
        ("s3ObjectKey", Some("images/mojito.png")),
        ("drinkName", Some("Mojito")),
    ]));
    assert_eq!(r.status_code, 200);
    assert_eq!(r.body, "{\"s3ObjectKey\":\"images/mojito.png\"}");
    assert_eq!(
        header_pairs(&r),
        vec![("Content-Type".to_string(), "application/json".to_string())]
    );
}

#[test]
fn record_without_object_key() {
    let r = finish(&record(&[("barName", Some("Blue Bar")), ("drinkName", Some("Mojito"))]));
    assert_eq!(r.status_code, 200);
    assert_eq!(r.body, "{\"s3ObjectKey\":\"URL not found\"}");
}

#[test]
fn record_whose_object_key_is_not_a_string() {
    let r = finish(&record(&[("s3ObjectKey", None)]));
    assert_eq!(r.status_code, 200);
    assert_eq!(r.body, "{\"s3ObjectKey\":\"URL not found\"}");
}

#[test]
fn empty_record_has_no_object_key() {
    let r = finish(&StoreReply::Record(Vec::new()));
    assert_eq!(r.body, "{\"s3ObjectKey\":\"URL not found\"}");
}

#[test]
fn backend_failure_is_internal_server_error() {
    assert_message(&finish(&StoreReply::Failed), 500, "Internal Server Error");
}

#[test]
fn repeated_requests_get_identical_responses() {
    let reply = record(&[("s3ObjectKey", Some("images/mojito.png"))]);
    let respond = |req: &Request| match begin(req) {
        Step::Respond(r) => r,
        Step::Lookup(_) => finish(&reply),
    };
    for req in [post(VALID), post("{"), request("OPTIONS", None)] {
        let a = respond(&req);
        let b = respond(&req.clone());
        assert_eq!(a.status_code, b.status_code);
        assert_eq!(a.body, b.body);
        assert_eq!(header_pairs(&a), header_pairs(&b));
    }
}

#[test]
fn object_key_is_escaped_as_json() {
    assert_eq!(object_key_json("a\"b\\c\nd"), "{\"s3ObjectKey\":\"a\\\"b\\\\c\\nd\"}");
    assert_eq!(object_key_json("caf\u{e9}"), "{\"s3ObjectKey\":\"caf\u{e9}\"}");
}

#[test]
fn message_is_escaped_as_json() {
    assert_eq!(message_json("say \"hi\""), "{\"message\":\"say \\\"hi\\\"\"}");
    assert_eq!(message_json(""), "{\"message\":\"\"}");
}

#[test]
fn first_matching_attribute_is_found() {
    let attrs = vec![
        Attribute { name: "a".to_string(), text: None },
        Attribute { name: "b".to_string(), text: Some("one".to_string()) },
        Attribute { name: "b".to_string(), text: Some("two".to_string()) },
    ];
    assert_eq!(find_attribute_text(&attrs, "b"), Some("one".to_string()));
    assert_eq!(find_attribute_text(&attrs, "a"), None);
    assert_eq!(find_attribute_text(&attrs, "c"), None);
}

#[test]
fn drink_lookup_names_table_and_key() {
    let k = drink_lookup("Bar".to_string(), "Gin".to_string());
    assert_eq!(k.table, "drink_images");
    assert_eq!(k.parts.len(), 2);
    assert_eq!(k.parts[0].attribute, "barName");
    assert_eq!(k.parts[1].attribute, "drinkName");
}

#[test]
fn same_text_compares_characters() {
    assert!(same_text("OPTIONS", "OPTIONS"));
    assert!(!same_text("OPTIONS", "OPTION"));
    assert!(!same_text("abc", "abd"));
    assert!(same_text("", ""));
    assert!(same_text("caf\u{e9}", "caf\u{e9}"));
}
