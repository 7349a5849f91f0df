use hartex::derive::{has_pub_token, DeriveStream, Token};

fn tokens(texts: &[&str]) -> Vec<Token> {
    texts.iter().map(|t| Token { text: t.to_string() }).collect()
}

#[test]
fn finds_pub_keyword() {
    assert!(has_pub_token(&tokens(&["pub", "struct", "Foo", "{}"])));
    assert!(has_pub_token(&tokens(&["#[x]", "pub", "enum"])));
}

#[test]
fn no_pub_keyword() {
    assert!(!has_pub_token(&tokens(&[])));
    assert!(!has_pub_token(&tokens(&["struct", "Foo", "public", "pub(crate)"])));
}

#[test]
fn refuses_private_items() {
    let input = tokens(&["struct", "Foo", "{}"]);
    assert!(DeriveStream::parse(&input).is_none());
    assert_eq!(DeriveStream::PUB_REQUIRED, "entitycache traits can only be derived on pub items");
}

#[test]
fn new_stream_is_empty() {
    let stream = DeriveStream::new();
    assert!(stream.attributes.is_empty());
    assert!(stream.identifier.is_none());
}
