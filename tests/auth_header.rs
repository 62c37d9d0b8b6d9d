use octopust::auth::{authorization_header, basic_credentials};

#[test]
fn credential_abc_encodes_abc_colon() {
    assert_eq!(authorization_header("abc"), "Basic YWJjOg==");
}

#[test]
fn empty_credential_encodes_colon() {
    assert_eq!(authorization_header(""), "Basic Og==");
}

#[test]
fn longer_credential() {
    assert_eq!(authorization_header("sk_live_123"), "Basic c2tfbGl2ZV8xMjM6");
}

#[test]
fn basic_prefix_only_prepends() {
    assert_eq!(basic_credentials("Zm9v"), "Basic Zm9v");
}
