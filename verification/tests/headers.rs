use devops_sync::auth::{
    basic_auth_header_for_pat, basic_header_around, bearer_auth_header,
    checked_basic_auth_header,
};

#[test]
fn basic_header_encodes_colon_and_token() {
    assert_eq!(basic_auth_header_for_pat("abc"), "Basic OmFiYw==");
}

#[test]
fn basic_header_of_the_empty_token() {
    assert_eq!(basic_auth_header_for_pat(""), "Basic Og==");
}

#[test]
fn basic_header_pads_to_a_multiple_of_four() {
    assert_eq!(basic_auth_header_for_pat("a"), "Basic OmE=");
    assert_eq!(basic_auth_header_for_pat("ab"), "Basic OmFi");
}

#[test]
fn basic_header_encodes_the_utf8_bytes() {
    assert_eq!(basic_auth_header_for_pat("é"), "Basic OsOp");
}

#[test]
fn basic_header_of_a_token_with_symbols() {
    assert_eq!(basic_auth_header_for_pat("p@t/+?"), "Basic OnBAdC8rPw==");
}

#[test]
fn checked_basic_header_agrees_with_the_plain_one() {
    assert_eq!(checked_basic_auth_header("abc"), Some("Basic OmFiYw==".to_string()));
    assert_eq!(checked_basic_auth_header(""), Some("Basic Og==".to_string()));
}

#[test]
fn bearer_header_prefixes_the_token() {
    assert_eq!(bearer_auth_header("eyJ0.abc.def"), "Bearer eyJ0.abc.def");
    assert_eq!(bearer_auth_header(""), "Bearer ");
}

#[test]
fn the_basic_header_goes_around_the_encoded_credentials() {
    assert_eq!(basic_header_around("OmFiYw=="), "Basic OmFiYw==");
    assert_eq!(basic_header_around(""), "Basic ");
}
