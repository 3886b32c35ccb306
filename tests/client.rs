use notion_oauth::{Error, OAuthClient};

fn client() -> OAuthClient {
    OAuthClient::new(
        "client-123".to_string(),
        "s3cret".to_string(),
        "https://example.com/callback?from=notion&x=a b",
    )
    .unwrap()
}

#[test]
fn new_normalises_the_redirect_uri() {
    let c = OAuthClient::new("id".to_string(), "secret".to_string(), "https://example.com").unwrap();
    assert_eq!(c.redirect_uri, "https://example.com/");
    assert_eq!(c.client_id, "id");
    assert_eq!(c.client_secret, "secret");
}

#[test]
fn new_rejects_an_invalid_redirect_uri() {
    let r = OAuthClient::new("id".to_string(), "secret".to_string(), "not a url");
    assert_eq!(r, Err(Error::InvalidRedirectUri));
}

#[test]
fn authorization_url_has_each_parameter_once() {
    let c = client();
    let url = c.authorization_url("st&ate=1");
    let (base, query) = url.split_once('?').unwrap();
    assert_eq!(base, "https://api.notion.com/v1/oauth/authorize");
    let pairs: Vec<(String, String)> =
        url::form_urlencoded::parse(query.as_bytes()).map(|(k, v)| (k.into_owned(), v.into_owned())).collect();
    let keys: Vec<&str> = pairs.iter().map(|(k, _)| k.as_str()).collect();
    assert_eq!(keys, vec!["client_id", "redirect_uri", "response_type", "state", "owner"]);
    assert_eq!(pairs[0].1, "client-123");
    assert_eq!(pairs[1].1, c.redirect_uri);
    assert_eq!(pairs[2].1, "code");
    assert_eq!(pairs[3].1, "st&ate=1");
    assert_eq!(pairs[4].1, "user");
}

#[test]
fn authorization_url_exact_text() {
    let c = OAuthClient::new("abc".to_string(), "x".to_string(), "https://example.com/cb").unwrap();
    assert_eq!(
        c.authorization_url("a b"),
        "https://api.notion.com/v1/oauth/authorize?client_id=abc&redirect_uri=https%3A%2F%2Fexample.com%2Fcb&response_type=code&state=a+b&owner=user"
    );
}

#[test]
fn exchange_request_is_deterministic() {
    let c = client();
    let a = c.exchange_request("code-1");
    let b = c.exchange_request("code-1");
    assert_eq!(a, b);
    assert_eq!(a.url, "https://api.notion.com/v1/oauth/token");
    assert_eq!(a.username, "client-123");
    assert_eq!(a.password, "s3cret");
}

#[test]
fn exchange_request_body_text() {
    let c = OAuthClient::new("abc".to_string(), "x".to_string(), "https://example.com/cb").unwrap();
    let r = c.exchange_request("q\"1");
    assert_eq!(
        r.body,
        "{\"grant_type\":\"authorization_code\",\"code\":\"q\\\"1\",\"redirect_uri\":\"https://example.com/cb\"}"
    );
    let v: serde_json::Value = serde_json::from_str(&r.body).unwrap();
    assert_eq!(v["code"], "q\"1");
}
