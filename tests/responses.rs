use octopust::error::{ApiError, OctopustError};
use octopust::json::Json;
use octopust::response::{
    check_response, check_status, decode_failure, is_success, products_from_document,
    read_meter_point, read_products, read_supply_points,
};

const PRODUCT: &str = r#"{"direction":"IMPORT","code":"AGILE-24-10-01","full_name":"Agile Octopus October 2024 v1","display_name":"Agile Octopus","description":"With Agile Octopus, you get access to half-hourly energy prices.","is_variable":true,"is_green":true,"is_tracker":false,"is_prepay":false,"is_business":false,"is_restricted":false,"term":12,"available_from":"2024-10-01T00:00:00+01:00","available_to":null,"links":[{"href":"https://api.octopus.energy/v1/products/AGILE-24-10-01/","method":"GET","rel":"self"}],"brand":"OCTOPUS_ENERGY"}"#;

fn api(r: OctopustError) -> ApiError {
    match r {
        OctopustError::Api(a) => a,
        other => panic!("expected an API error, got {}", other.describe()),
    }
}

#[test]
fn success_range() {
    assert!(!is_success(199));
    assert!(is_success(200));
    assert!(is_success(204));
    assert!(is_success(299));
    assert!(!is_success(300));
    assert!(!is_success(404));
}

#[test]
fn failure_status_keeps_body_verbatim() {
    let body = r#"{"detail":"Not found."}"#;
    let a = api(check_status(404, body).unwrap_err());
    assert_eq!(a.status, 404);
    assert_eq!(a.message, body);
    assert!(check_status(200, body).is_ok());
}

#[test]
fn check_response_returns_text_or_error() {
    assert_eq!(check_response(200, b"hello").unwrap(), "hello");
    let a = api(check_response(503, b"down for maintenance").unwrap_err());
    assert_eq!(a.status, 503);
    assert_eq!(a.message, "down for maintenance");
    let a = api(check_response(500, b"bad \xff byte").unwrap_err());
    assert_eq!(a.message, "bad \u{FFFD} byte");
}

#[test]
fn product_list_with_one_product() {
    let body = format!(r#"{{"count":1,"next":null,"previous":null,"results":[{}]}}"#, PRODUCT);
    let products = read_products(200, body.as_bytes()).unwrap();
    assert_eq!(products.len(), 1);
    let p = &products[0];
    assert_eq!(p.code, "AGILE-24-10-01");
    assert_eq!(p.direction, "IMPORT");
    assert_eq!(p.display_name, "Agile Octopus");
    assert!(p.is_variable && p.is_green && !p.is_tracker && !p.is_prepay && !p.is_business && !p.is_restricted);
    assert_eq!(p.term, Some(12));
    assert_eq!(p.available_from.as_deref(), Some("2024-10-01T00:00:00+01:00"));
    assert_eq!(p.available_to, None);
    assert_eq!(p.brand.as_deref(), Some("OCTOPUS_ENERGY"));
    assert_eq!(p.links.len(), 1);
    assert_eq!(p.links[0].rel, "self");
    assert_eq!(p.links[0].method, "GET");
}

#[test]
fn product_list_without_results_is_malformed() {
    let a = api(read_products(200, br#"{"count":0}"#).unwrap_err());
    assert_eq!(a.status, 200);
    assert_eq!(a.message, r#"Malformed products response: {"count":0}"#);
    let a = api(read_products(200, br#"{"results":{}}"#).unwrap_err());
    assert_eq!(a.message, r#"Malformed products response: {"results":{}}"#);
}

#[test]
fn product_list_error_status_keeps_body() {
    let a = api(read_products(401, b"Authentication credentials were not provided.").unwrap_err());
    assert_eq!(a.status, 401);
    assert_eq!(a.message, "Authentication credentials were not provided.");
}

#[test]
fn product_list_that_is_not_json() {
    let a = api(read_products(200, b"<html>oops</html>").unwrap_err());
    assert!(a.message.starts_with("Failed to parse products JSON: "));
    assert!(a.message.ends_with(". Response body: <html>oops</html>"));
    assert!(a.message.contains("expected value"));
}

#[test]
fn product_list_with_a_bad_element() {
    let body = r#"{"results":[{"code":"X"}]}"#;
    let a = api(read_products(200, body.as_bytes()).unwrap_err());
    assert!(a.message.starts_with("Failed to parse products array: "));
    assert!(a.message.contains("direction"));
    assert!(a.message.ends_with(&format!(". Response body: {}", body)));
}

#[test]
fn empty_product_list() {
    assert!(read_products(200, br#"{"count":0,"results":[]}"#).unwrap().is_empty());
}

#[test]
fn products_from_parsed_document() {
    let doc = Json::Object(vec![("results".to_string(), Json::Array(vec![]))]);
    assert!(products_from_document(200, &Ok(doc), "{}").unwrap().is_empty());
    let a = api(products_from_document(200, &Ok(Json::Null), "null").unwrap_err());
    assert_eq!(a.message, "Malformed products response: null");
    let a = api(products_from_document(201, &Err("eof".to_string()), "").unwrap_err());
    assert_eq!(a.status, 201);
    assert_eq!(a.message, "Failed to parse products JSON: eof. Response body: ");
}

#[test]
fn meter_point_reads() {
    let m = read_meter_point(200, br#"{"gsp":"_H","mpan":"2000024512368","profile_class":1}"#).unwrap();
    assert_eq!(m.gsp, "_H");
    assert_eq!(m.mpan, "2000024512368");
    assert_eq!(m.profile_class, 1);
    let body = r#"{"gsp":"_H","mpan":"1","profile_class":256}"#;
    let a = api(read_meter_point(200, body.as_bytes()).unwrap_err());
    assert_eq!(a.message, format!("Failed to parse mpan info JSON: invalid or missing field `profile_class`. Response body: {}", body));
    let a = api(read_meter_point(404, b"{\"detail\":\"Not found.\"}").unwrap_err());
    assert_eq!(a.message, "{\"detail\":\"Not found.\"}");
}

#[test]
fn supply_points_read() {
    let body = br#"{"count":2,"next":null,"previous":"https://x/?page=1","results":[{"group_id":"_A"},{"group_id":"_B"}]}"#;
    let g = read_supply_points(200, body).unwrap();
    assert_eq!(g.count, 2);
    assert_eq!(g.next, None);
    assert_eq!(g.previous.as_deref(), Some("https://x/?page=1"));
    assert_eq!(g.results.iter().map(|p| p.group_id.as_str()).collect::<Vec<_>>(), vec!["_A", "_B"]);
    let a = api(read_supply_points(200, br#"{"count":-1,"results":[]}"#).unwrap_err());
    assert!(a.message.starts_with("Failed to parse industry grid supply JSON: invalid or missing field `count`"));
}

#[test]
fn decode_failure_message_form() {
    let a = api(decode_failure(200, "day unit rates", "missing field `x`", "{}"));
    assert_eq!(a.status, 200);
    assert_eq!(a.message, "Failed to parse day unit rates JSON: missing field `x`. Response body: {}");
}

#[test]
fn describe_api_error() {
    let e = OctopustError::api(418, "teapot".to_string());
    assert_eq!(e.describe(), "API Error (418): teapot");
}

#[test]
fn numbers_are_read_as_unsigned_integers_only() {
    for body in [r#"{"gsp":"g","mpan":"m","profile_class":-1}"#, r#"{"gsp":"g","mpan":"m","profile_class":1.5}"#, r#"{"gsp":"g","mpan":"m","profile_class":"1"}"#] {
        assert!(read_meter_point(200, body.as_bytes()).is_err());
    }
    assert_eq!(read_meter_point(200, br#"{"gsp":"g","mpan":"m","profile_class":0,"x":[1,{}]}"#).unwrap().profile_class, 0);
}

#[test]
fn trailing_garbage_is_a_decode_failure() {
    let a = api(read_meter_point(200, br#"{"gsp":"g","mpan":"m","profile_class":1} x"#).unwrap_err());
    assert!(a.message.starts_with("Failed to parse mpan info JSON: trailing characters"));
    let a = api(read_meter_point(204, b"").unwrap_err());
    assert_eq!(a.status, 204);
    assert!(a.message.starts_with("Failed to parse mpan info JSON: EOF while parsing"));
    assert!(a.message.ends_with(". Response body: "));
}
