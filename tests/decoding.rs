use octopust::decode::{decode_link, decode_meter_point, decode_product};
use octopust::json::{get_field, Json};

fn text(s: &str) -> Json {
    Json::Str(s.to_string())
}

fn obj(members: Vec<(&str, Json)>) -> Json {
    Json::Object(members.into_iter().map(|(k, v)| (k.to_string(), v)).collect())
}

fn product_members() -> Vec<(&'static str, Json)> {
    vec![
        ("direction", text("E")),
        ("code", text("C")),
        ("full_name", text("F")),
        ("display_name", text("D")),
        ("is_variable", Json::Bool(false)),
        ("is_green", Json::Bool(false)),
        ("is_tracker", Json::Bool(true)),
        ("is_prepay", Json::Bool(true)),
        ("is_business", Json::Bool(true)),
        ("is_restricted", Json::Bool(true)),
        ("links", Json::Array(vec![])),
    ]
}

fn product_with(key: &'static str, value: Json) -> Json {
    let mut m = product_members();
    m.push((key, value));
    obj(m)
}

#[test]
fn link_needs_all_members() {
    let l = decode_link(&obj(vec![("href", text("h")), ("method", text("GET")), ("rel", text("self")), ("extra", Json::Number(Some(1)))])).unwrap();
    assert_eq!((l.href.as_str(), l.method.as_str(), l.rel.as_str()), ("h", "GET", "self"));
    assert!(decode_link(&obj(vec![("href", text("h")), ("method", text("GET"))])).is_err());
    assert!(decode_link(&obj(vec![("href", Json::Number(Some(1))), ("method", text("GET")), ("rel", text("r"))])).is_err());
    assert!(decode_link(&Json::Array(vec![text("h"), text("GET"), text("self")])).is_err());
}

#[test]
fn product_optional_members_may_be_missing_or_null() {
    let p = decode_product(&product_with("description", Json::Null)).unwrap();
    assert_eq!(p.description, None);
    assert_eq!(p.term, None);
    assert_eq!(p.brand, None);
    assert!(p.links.is_empty());
    assert!(p.is_tracker && p.is_prepay && p.is_business && p.is_restricted);
    assert!(!p.is_variable && !p.is_green);
}

#[test]
fn product_with_wrong_types_fails() {
    assert!(decode_product(&obj(product_members())).is_ok());
    assert!(decode_product(&product_with("term", text("12"))).is_err());
    assert!(decode_product(&product_with("term", Json::Number(Some(4294967296)))).is_err());
    assert!(decode_product(&product_with("term", Json::Number(None))).is_err());
    assert_eq!(decode_product(&product_with("term", Json::Number(Some(4294967295)))).unwrap().term, Some(u32::MAX));
    assert!(decode_product(&product_with("brand", Json::Bool(true))).is_err());
    assert_eq!(decode_product(&product_with("brand", text("B"))).unwrap().brand.as_deref(), Some("B"));
    let bad_link = Json::Array(vec![obj(vec![("href", text("h"))])]);
    assert_eq!(decode_product(&product_with("links", bad_link)).unwrap_err(), "invalid or missing field `method`");
}

#[test]
fn meter_point_profile_class_fits_a_byte() {
    let m = |class: Json| obj(vec![("gsp", text("g")), ("mpan", text("m")), ("profile_class", class)]);
    assert_eq!(decode_meter_point(&m(Json::Number(Some(255)))).unwrap().profile_class, 255);
    assert!(decode_meter_point(&m(Json::Number(Some(256)))).is_err());
    let e = decode_meter_point(&obj(vec![("gsp", text("g")), ("mpan", text("m"))])).unwrap_err();
    assert_eq!(e, "invalid or missing field `profile_class`");
}

#[test]
fn field_lookup() {
    let j = obj(vec![("a", Json::Number(Some(1))), ("b", text("x"))]);
    assert!(matches!(get_field(&j, "a"), Some(Json::Number(Some(1)))));
    assert!(get_field(&j, "c").is_none());
    assert!(get_field(&Json::Null, "a").is_none());
    let dup = obj(vec![("k", Json::Bool(false)), ("k", Json::Bool(true))]);
    assert!(matches!(get_field(&dup, "k"), Some(Json::Bool(true))));
}
