//! The authorization URL, the token request, and the reading of the
//! provider's answer.
use vstd::prelude::*;

use crate::json::{
    decode_str_member, json_quoted, lookup, parse_json, parsed_json, quote_json, str_member, JsonValue,
};
use crate::token::{lemma_missing_required_member, token_of, Token};

verus! {

/// The provider's token endpoint.
pub const TOKEN_URL: &'static str = "https://api.notion.com/v1/oauth/token";

/// The `grant_type` of a token request.
pub const GRANT_TYPE: &'static str = "authorization_code";

/// The serialisation of the URL that `text` holds, as the url crate parses
/// it; `None` where `text` is no valid absolute URL.
pub uninterp spec fn parsed_url(text: Seq<char>) -> Option<Seq<char>>;

/// The `application/x-www-form-urlencoded` form of `s`.
pub uninterp spec fn form_encoded(s: Seq<char>) -> Seq<char>;

/// A character that the form-urlencoded serializer may write: ASCII letters
/// and digits, `*`, `-`, `.`, `_`, `+` for a space, and `%` before two hex
/// digits.
pub open spec fn form_char(c: char) -> bool {
    ('a' <= c && c <= 'z') || ('A' <= c && c <= 'Z') || ('0' <= c && c <= '9') || c == '*'
        || c == '-' || c == '.' || c == '_' || c == '+' || c == '%'
}

/// Relies on reqwest::Url::parse (the url crate) and the URL's serialisation.
#[verifier::external_body]
fn parse_url(text: &str) -> (r: Option<String>)
    ensures
        r is Some <==> parsed_url(text@) is Some,
        r matches Some(u) ==> parsed_url(text@) == Some(u@),
{
    reqwest::Url::parse(text).ok().map(|u| u.to_string())
}

/// Relies on url::form_urlencoded::byte_serialize, which keeps ASCII
/// letters, digits and `*-._`, writes a space as `+` and every other byte as
/// `%` and two hex digits.
#[verifier::external_body]
fn form_encode(s: &str) -> (r: String)
    ensures
        r@ == form_encoded(s@),
        forall|i: int| 0 <= i < r@.len() ==> form_char(#[trigger] r@[i]),
{
    url::form_urlencoded::byte_serialize(s.as_bytes()).collect::<String>()
}

/// The query pairs joined by `&`.
pub open spec fn join_query(parts: Seq<Seq<char>>) -> Seq<char>
    decreases parts.len(),
{
    if parts.len() <= 1 {
        if parts.len() == 0 {
            Seq::empty()
        } else {
            parts[0]
        }
    } else {
        join_query(parts.drop_last()) + "&"@ + parts.last()
    }
}

/// A query string cut at each `&`.
pub open spec fn split_query(q: Seq<char>) -> Seq<Seq<char>>
    decreases q.len(),
{
    if q.len() == 0 {
        seq![Seq::empty()]
    } else {
        let init = split_query(q.drop_last());
        if q.last() == '&' {
            init.push(Seq::empty())
        } else {
            init.update(init.len() - 1, init.last().push(q.last()))
        }
    }
}

/// Text without an `&`.
pub open spec fn no_amp(p: Seq<char>) -> bool {
    forall|i: int| 0 <= i < p.len() ==> p[i] != '&'
}

proof fn lemma_split_nonempty(q: Seq<char>)
    ensures
        split_query(q).len() >= 1,
    decreases q.len(),
{
    if q.len() > 0 {
        lemma_split_nonempty(q.drop_last());
    }
}

proof fn lemma_split_extend(a: Seq<char>, p: Seq<char>)
    requires
        no_amp(p),
    ensures
        split_query(a + p) == split_query(a).update(
            split_query(a).len() - 1,
            split_query(a).last() + p,
        ),
    decreases p.len(),
{
    lemma_split_nonempty(a);
    if p.len() == 0 {
        assert(a + p =~= a);
        assert(split_query(a).last() + p =~= split_query(a).last());
        assert(split_query(a).update(split_query(a).len() - 1, split_query(a).last())
            =~= split_query(a));
    } else {
        let q = p.drop_last();
        lemma_split_extend(a, q);
        assert((a + p).drop_last() =~= a + q);
        assert(split_query(a).last() + q + seq![p.last()] =~= split_query(a).last() + p);
        assert((split_query(a).last() + q).push(p.last()) =~= split_query(a).last() + p);
        assert(split_query(a + p) =~= split_query(a).update(
            split_query(a).len() - 1,
            split_query(a).last() + p,
        ));
    }
}

/// Cutting a query joined from pairs without `&` gives the pairs back.
pub proof fn lemma_split_join(parts: Seq<Seq<char>>)
    requires
        parts.len() >= 1,
        forall|i: int| 0 <= i < parts.len() ==> no_amp(#[trigger] parts[i]),
    ensures
        split_query(join_query(parts)) == parts,
    decreases parts.len(),
{
    if parts.len() == 1 {
        lemma_split_extend(Seq::empty(), parts[0]);
        assert(Seq::<char>::empty() + parts[0] =~= parts[0]);
        assert(split_query(Seq::empty()) =~= seq![Seq::<char>::empty()]);
        assert(split_query(join_query(parts)) =~= parts);
    } else {
        let init = parts.drop_last();
        assert(forall|i: int| 0 <= i < init.len() ==> init[i] == parts[i]);
        lemma_split_join(init);
        let a = join_query(init) + "&"@;
        assert("&"@ =~= seq!['&']) by {
            reveal_strlit("&");
        }
        assert(a.drop_last() =~= join_query(init));
        lemma_split_nonempty(a);
        assert(split_query(a) =~= init.push(Seq::empty()));
        lemma_split_extend(a, parts.last());
        assert(Seq::<char>::empty() + parts.last() =~= parts.last());
        assert(split_query(join_query(parts)) =~= parts);
    }
}

/// The pairs of the authorization URL's query, in order.
pub open spec fn authorization_pairs(client_id: Seq<char>, redirect_uri: Seq<char>, state: Seq<char>) -> Seq<Seq<char>> {
    seq![
        "client_id="@ + form_encoded(client_id),
        "redirect_uri="@ + form_encoded(redirect_uri),
        "response_type=code"@,
        "state="@ + form_encoded(state),
        "owner=user"@,
    ]
}

/// The authorization URL for a client, a redirect URI and a state token.
pub open spec fn authorization_url_of(client_id: Seq<char>, redirect_uri: Seq<char>, state: Seq<char>) -> Seq<char> {
    "https://api.notion.com/v1/oauth/authorize?"@ + join_query(authorization_pairs(client_id, redirect_uri, state))
}

/// The JSON body of a token request.
pub open spec fn exchange_body(code: Seq<char>, redirect_uri: Seq<char>) -> Seq<char> {
    "{\"grant_type\":"@ + json_quoted("authorization_code"@) + ",\"code\":"@ + json_quoted(code)
        + ",\"redirect_uri\":"@ + json_quoted(redirect_uri) + "}"@
}

/// `r` is the request by which `client` exchanges `code`: a POST to the
/// token endpoint, authenticated with exactly the client's identifier and
/// secret, whose body names the grant type, the code and the redirect URI.
pub open spec fn is_exchange_request(r: TokenRequest, client: OAuthClient, code: Seq<char>) -> bool {
    &&& r.url@ == "https://api.notion.com/v1/oauth/token"@
    &&& r.username == client.client_id
    &&& r.password == client.client_secret
    &&& r.body@ == exchange_body(code, client.redirect_uri@)
}

/// Two requests for the same code from the same client are the same
/// request, up to the text they hold.
pub proof fn lemma_exchange_request_deterministic(
    client: OAuthClient,
    code: Seq<char>,
    r1: TokenRequest,
    r2: TokenRequest,
)
    requires
        is_exchange_request(r1, client, code),
        is_exchange_request(r2, client, code),
    ensures
        r1.url@ == r2.url@,
        r1.username == r2.username && r1.password == r2.password,
        r1.body@ == r2.body@,
{
}

/// A token request, ready for the transport: a JSON POST to `url`,
/// authenticated by HTTP Basic with `username` and `password`.
#[derive(Debug, Clone, PartialEq, Eq)]
pub struct TokenRequest {
    pub url: String,
    pub username: String,
    pub password: String,
    pub body: String,
}

/// The provider's credentials for one integration, and its redirect URI.
#[derive(Debug, Clone, PartialEq, Eq)]
pub struct OAuthClient {
    pub client_id: String,
    pub client_secret: String,
    /// The serialisation of a valid absolute URL.
    pub redirect_uri: String,
}

impl OAuthClient {
    /// Makes a client; the redirect URI must be a valid absolute URL and is
    /// kept in its normalised form.
    pub fn new(client_id: String, client_secret: String, redirect_uri: &str) -> (r: Result<OAuthClient, Error>)
        ensures
            r is Err <==> parsed_url(redirect_uri@) is None,
            r matches Err(e) ==> e == Error::InvalidRedirectUri,
            r matches Ok(c) ==> c.client_id == client_id && c.client_secret == client_secret
                && parsed_url(redirect_uri@) == Some(c.redirect_uri@),
    {
        match parse_url(redirect_uri) {
            Some(uri) => Ok(OAuthClient { client_id, client_secret, redirect_uri: uri }),
            None => Err(Error::InvalidRedirectUri),
        }
    }

    /// The URL that sends the user to the provider to grant access.
    pub fn authorization_url(&self, state: &str) -> (r: String)
        ensures
            r@ == authorization_url_of(self.client_id@, self.redirect_uri@, state@),
            split_query(join_query(authorization_pairs(self.client_id@, self.redirect_uri@, state@)))
                == authorization_pairs(self.client_id@, self.redirect_uri@, state@),
    {
        let client_id = form_encode(self.client_id.as_str());
        let redirect_uri = form_encode(self.redirect_uri.as_str());
        let state_enc = form_encode(state);
        let mut url = "https://api.notion.com/v1/oauth/authorize?client_id=".to_string();
        url.append(client_id.as_str());
        url.append("&redirect_uri=");
        url.append(redirect_uri.as_str());
        url.append("&response_type=code&state=");
        url.append(state_enc.as_str());
        url.append("&owner=user");
        proof {
            let pairs = authorization_pairs(self.client_id@, self.redirect_uri@, state@);
            reveal_strlit("https://api.notion.com/v1/oauth/authorize?client_id=");
            reveal_strlit("https://api.notion.com/v1/oauth/authorize?");
            reveal_strlit("client_id=");
            reveal_strlit("&redirect_uri=");
            reveal_strlit("redirect_uri=");
            reveal_strlit("&response_type=code&state=");
            reveal_strlit("response_type=code");
            reveal_strlit("state=");
            reveal_strlit("&owner=user");
            reveal_strlit("owner=user");
            reveal_strlit("&");
            reveal_with_fuel(join_query, 6);
            assert(url@ =~= authorization_url_of(self.client_id@, self.redirect_uri@, state@));
            assert forall|i: int| 0 <= i < pairs.len() implies no_amp(#[trigger] pairs[i]) by {
                assert forall|k: int| 0 <= k < pairs[i].len() implies pairs[i][k] != '&' by {
                    if i == 0 && k >= 10 {
                        assert(form_char(client_id@[k - 10]));
                    } else if i == 1 && k >= 13 {
                        assert(form_char(redirect_uri@[k - 13]));
                    } else if i == 3 && k >= 6 {
                        assert(form_char(state_enc@[k - 6]));
                    }
                }
            }
            lemma_split_join(pairs);
        }
        url
    }

    /// The token request that exchanges `code` for a token.
    pub fn exchange_request(&self, code: &str) -> (r: TokenRequest)
        ensures
            is_exchange_request(r, *self, code@),
    {
        let mut body = "{\"grant_type\":".to_string();
        body.append(quote_json(GRANT_TYPE).as_str());
        body.append(",\"code\":");
        body.append(quote_json(code).as_str());
        body.append(",\"redirect_uri\":");
        body.append(quote_json(self.redirect_uri.as_str()).as_str());
        body.append("}");
        proof {
            reveal_strlit("{\"grant_type\":");
            reveal_strlit(",\"code\":");
            reveal_strlit(",\"redirect_uri\":");
            reveal_strlit("}");
            assert(body@ =~= exchange_body(code@, self.redirect_uri@));
        }
        TokenRequest {
            url: TOKEN_URL.to_string(),
            username: self.client_id.clone(),
            password: self.client_secret.clone(),
            body,
        }
    }
}

/// The error object that the provider sends with a failed exchange.
#[derive(Debug, Clone, PartialEq, Eq)]
pub struct OAuthError {
    pub error: String,
    pub error_description: String,
}

/// The provider error that a JSON value describes, if it is one.
pub open spec fn oauth_error_of(j: JsonValue) -> Option<OAuthError> {
    match j {
        JsonValue::Object(f) => {
            if str_member(f@, "error"@) is Some && str_member(f@, "error_description"@) is Some {
                Some(
                    OAuthError {
                        error: str_member(f@, "error"@)->0,
                        error_description: str_member(f@, "error_description"@)->0,
                    },
                )
            } else {
                None
            }
        },
        _ => None,
    }
}

impl OAuthError {
    /// Reads a provider error from a JSON value.
    pub fn from_json(j: &JsonValue) -> (r: Option<OAuthError>)
        ensures
            r == oauth_error_of(*j),
    {
        match j {
            JsonValue::Object(f) => {
                let error = decode_str_member(f, "error");
                let error_description = decode_str_member(f, "error_description");
                match (error, error_description) {
                    (Some(error), Some(error_description)) => Some(OAuthError { error, error_description }),
                    _ => None,
                }
            },
            _ => None,
        }
    }
}

/// Why a response body could not be decoded.
#[derive(Debug, Clone, Copy, PartialEq, Eq)]
pub enum DecodeFailure {
    /// The body is not well-formed JSON.
    InvalidJson,
    /// The body is JSON, but not of the shape that the status calls for.
    UnexpectedShape,
}

/// The ways in which a token exchange can fail.
#[derive(Debug, Clone, PartialEq, Eq)]
pub enum Error {
    /// The redirect URI is not a valid absolute URL.
    InvalidRedirectUri,
    /// The HTTP transport could not be built.
    ErrorBuildingClient { message: String },
    /// Sending the request failed.
    RequestFailed { message: String },
    /// Reading the response body failed.
    ResponseIoError { message: String },
    /// The response body could not be decoded.
    JsonParseError { failure: DecodeFailure },
    /// The provider refused the exchange.
    OAuthError { error: OAuthError },
}

/// The outcome of a response: its status class picks the one shape that the
/// body is read as.
pub open spec fn response_outcome(success: bool, parsed: Option<JsonValue>) -> Result<Token, Error> {
    match parsed {
        None => Err(Error::JsonParseError { failure: DecodeFailure::InvalidJson }),
        Some(j) => if success {
            match token_of(j) {
                Some(t) => Ok(t),
                None => Err(Error::JsonParseError { failure: DecodeFailure::UnexpectedShape }),
            }
        } else {
            match oauth_error_of(j) {
                Some(e) => Err(Error::OAuthError { error: e }),
                None => Err(Error::JsonParseError { failure: DecodeFailure::UnexpectedShape }),
            }
        },
    }
}

/// Decides the outcome of a response from its status class and its parsed
/// body (`None` where the body is not JSON).
pub fn decode_response(success: bool, parsed: Option<JsonValue>) -> (r: Result<Token, Error>)
    ensures
        r == response_outcome(success, parsed),
{
    match parsed {
        None => Err(Error::JsonParseError { failure: DecodeFailure::InvalidJson }),
        Some(j) => if success {
            match Token::from_json(&j) {
                Some(t) => Ok(t),
                None => Err(Error::JsonParseError { failure: DecodeFailure::UnexpectedShape }),
            }
        } else {
            match OAuthError::from_json(&j) {
                Some(e) => Err(Error::OAuthError { error: e }),
                None => Err(Error::JsonParseError { failure: DecodeFailure::UnexpectedShape }),
            }
        },
    }
}

/// Reads the body of a token response whose status was 2xx (`success`) or
/// not.
pub fn interpret_response(success: bool, body: &str) -> (r: Result<Token, Error>)
    ensures
        r == response_outcome(success, parsed_json(body@)),
{
    decode_response(success, parse_json(body))
}

/// A response with an error status never yields a token; where its body is
/// a provider error object, the outcome is that provider error, field for
/// field.
pub proof fn lemma_error_status_yields_provider_error(parsed: Option<JsonValue>)
    ensures
        response_outcome(false, parsed) is Err,
        parsed matches Some(j) ==> (j matches JsonValue::Object(f) ==> (
            lookup(f@, "error"@) matches Some(JsonValue::Str(e)) ==> (
                lookup(f@, "error_description"@) matches Some(JsonValue::Str(d)) ==>
                    response_outcome(false, parsed) == Err::<Token, Error>(
                        Error::OAuthError { error: OAuthError { error: e, error_description: d } },
                    )))),
{
}

/// A response with a success status whose body lacks a required token
/// member is a decode error.
pub proof fn lemma_missing_member_is_decode_error(j: JsonValue, key: Seq<char>)
    requires
        key == "access_token"@ || key == "bot_id"@ || key == "owner"@ || key == "workspace_id"@
            || key == "workspace_name"@,
        j matches JsonValue::Object(f) && lookup(f@, key) is None,
    ensures
        response_outcome(true, Some(j)) == Err::<Token, Error>(
            Error::JsonParseError { failure: DecodeFailure::UnexpectedShape },
        ),
{
    lemma_missing_required_member(j, key);
}

} // verus!
