use token_logos::models::{TokenInfo, TokenList};

fn token(address: &str, logo: Option<&str>) -> TokenInfo {
    TokenInfo { address: address.to_string(), logo_uri: logo.map(|s| s.to_string()) }
}

#[test]
fn logo_of_listed_address() {
    let list = TokenList {
        tokens: vec![token("0xaaa1", Some("https://img/a.png")), token("0xbbb2", Some("https://img/b.png"))],
    };
    assert_eq!(list.get_logo_url("0xaaa1"), Some("https://img/a.png".to_string()));
    assert_eq!(list.get_logo_url("0xbbb2"), Some("https://img/b.png".to_string()));
}

#[test]
fn logo_lookup_ignores_case() {
    let list = TokenList { tokens: vec![token("0xABCdef", Some("https://img/a.png"))] };
    assert_eq!(list.get_logo_url("0xabcdef"), Some("https://img/a.png".to_string()));
    assert_eq!(list.get_logo_url("0XABCDEF"), Some("https://img/a.png".to_string()));
    assert_eq!(list.get_logo_url("0xAbCdEf"), Some("https://img/a.png".to_string()));
}

#[test]
fn logo_of_unlisted_address_is_none() {
    let list = TokenList { tokens: vec![token("0xaaa1", Some("https://img/a.png"))] };
    assert_eq!(list.get_logo_url("0xbbb2"), None);
    assert_eq!(list.get_logo_url("0xaaa"), None);
    assert_eq!(list.get_logo_url("0xaaa11"), None);
    assert_eq!(list.get_logo_url(""), None);
    assert_eq!(TokenList { tokens: vec![] }.get_logo_url("0xaaa1"), None);
}

#[test]
fn logo_of_token_without_logo_is_none() {
    let list = TokenList { tokens: vec![token("0xaaa1", None)] };
    assert_eq!(list.get_logo_url("0xaaa1"), None);
}

#[test]
fn first_matching_token_wins() {
    let list = TokenList {
        tokens: vec![
            token("0xccc3", Some("https://img/c.png")),
            token("0xAAA1", Some("https://img/first.png")),
            token("0xaaa1", Some("https://img/second.png")),
        ],
    };
    assert_eq!(list.get_logo_url("0xaaa1"), Some("https://img/first.png".to_string()));
    let list = TokenList {
        tokens: vec![token("0xaaa1", None), token("0xaaa1", Some("https://img/second.png"))],
    };
    assert_eq!(list.get_logo_url("0xaaa1"), None);
    let list = TokenList {
        tokens: vec![token("0xaaa1", Some("")), token("0xaaa1", Some("https://img/second.png"))],
    };
    assert_eq!(list.get_logo_url("0xaaa1"), Some(String::new()));
}
