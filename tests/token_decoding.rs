use notion_oauth::oauth::interpret_response;
use notion_oauth::{default_workspace, DecodeFailure, Error, JsonValue, OAuthError, Owner, OwnerType, Token, User};

const FULL_RESPONSE: &str = r#"{
  "access_token": "redacted_access_token",
  "token_type": "bearer",
  "bot_id": "redacted_bot_id",
  "workspace_name": "redacted_workspace_name",
  "workspace_icon": null,
  "workspace_id": "redacted_workspace_id",
  "owner": {
    "type": "user",
    "user": {
      "object": "user",
      "id": "redacted_user_id",
      "name": "redacted_user_name",
      "avatar_url": "redacted_avatar_url",
      "type": "person",
      "person": { "email": "redacted_email" }
    }
  },
  "duplicated_template_id": null
}"#;

fn member(k: &str, v: JsonValue) -> (String, JsonValue) {
    (k.to_string(), v)
}

fn text(s: &str) -> JsonValue {
    JsonValue::Str(s.to_string())
}

fn minimal_members() -> Vec<(String, JsonValue)> {
    vec![
        member("access_token", text("secret")),
        member("bot_id", text("bot")),
        member("owner", JsonValue::Object(vec![member("type", text("workspace")), member("workspace", JsonValue::Bool(true))])),
        member("workspace_id", text("ws")),
        member("workspace_name", text("Workspace")),
    ]
}

#[test]
fn deserializes_correctly() {
    let token = interpret_response(true, FULL_RESPONSE).unwrap();
    assert_eq!(token.access_token, "redacted_access_token");
    assert_eq!(token.bot_id, "redacted_bot_id");
}

#[test]
fn full_response_decodes_every_member() {
    let token = interpret_response(true, FULL_RESPONSE).unwrap();
    assert_eq!(token.token_type, Some("bearer".to_string()));
    assert_eq!(token.duplicated_template_id, None);
    assert_eq!(token.workspace_icon, None);
    assert_eq!(token.workspace_id, "redacted_workspace_id");
    assert_eq!(token.workspace_name, "redacted_workspace_name");
    assert_eq!(
        token.owner,
        Owner {
            workspace: false,
            owner_type: OwnerType::User,
            user: Some(User {
                id: "redacted_user_id".to_string(),
                name: Some("redacted_user_name".to_string()),
                avatar_url: Some("redacted_avatar_url".to_string()),
            }),
        }
    );
}

#[test]
fn null_workspace_icon_is_no_value() {
    let mut f = minimal_members();
    f.push(member("workspace_icon", JsonValue::Null));
    let token = Token::from_json(&JsonValue::Object(f)).unwrap();
    assert_eq!(token.workspace_icon, None);
}

#[test]
fn present_workspace_icon_is_kept() {
    let mut f = minimal_members();
    f.push(member("workspace_icon", text("https://icon")));
    let token = Token::from_json(&JsonValue::Object(f)).unwrap();
    assert_eq!(token.workspace_icon, Some("https://icon".to_string()));
}

#[test]
fn absent_owner_workspace_defaults_to_false() {
    let body = r#"{"access_token":"a","bot_id":"b","workspace_id":"w","workspace_name":"n","owner":{"type":"user"}}"#;
    let token = interpret_response(true, body).unwrap();
    assert!(!token.owner.workspace);
    assert_eq!(token.owner.user, None);
    assert!(!default_workspace());
}

#[test]
fn absent_token_type_is_no_value() {
    let token = Token::from_json(&JsonValue::Object(minimal_members())).unwrap();
    assert_eq!(token.token_type, None);
    assert!(token.owner.workspace);
    assert_eq!(token.owner.owner_type, OwnerType::Workspace);
}

#[test]
fn provider_error_on_error_status() {
    let body = r#"{"error":"invalid_grant","error_description":"The code has expired."}"#;
    let r = interpret_response(false, body);
    assert_eq!(
        r,
        Err(Error::OAuthError {
            error: OAuthError {
                error: "invalid_grant".to_string(),
                error_description: "The code has expired.".to_string(),
            },
        })
    );
}

#[test]
fn token_body_on_error_status_is_decode_error() {
    let r = interpret_response(false, FULL_RESPONSE);
    assert_eq!(r, Err(Error::JsonParseError { failure: DecodeFailure::UnexpectedShape }));
}

#[test]
fn missing_bot_id_is_decode_error() {
    let body = r#"{"access_token":"a","workspace_id":"w","workspace_name":"n","owner":{"type":"user"}}"#;
    let r = interpret_response(true, body);
    assert_eq!(r, Err(Error::JsonParseError { failure: DecodeFailure::UnexpectedShape }));
}

#[test]
fn wrongly_typed_member_is_decode_error() {
    let mut f = minimal_members();
    f.push(member("token_type", JsonValue::Number("7".to_string())));
    assert_eq!(Token::from_json(&JsonValue::Object(f)), None);
}

#[test]
fn malformed_body_is_invalid_json() {
    assert_eq!(
        interpret_response(true, "{\"access_token\":"),
        Err(Error::JsonParseError { failure: DecodeFailure::InvalidJson })
    );
    assert_eq!(
        interpret_response(false, "Bad Gateway"),
        Err(Error::JsonParseError { failure: DecodeFailure::InvalidJson })
    );
}

#[test]
fn unknown_owner_type_is_kept() {
    assert_eq!(OwnerType::from_name("bot".to_string()), OwnerType::Other("bot".to_string()));
    assert_eq!(OwnerType::Other("bot".to_string()).name(), "bot");
    assert_eq!(OwnerType::User.name(), "user");
}

#[test]
fn token_round_trips_through_json() {
    let token = interpret_response(true, FULL_RESPONSE).unwrap();
    let again = Token::from_json(&token.to_json()).unwrap();
    assert_eq!(again, token);
    let token = Token::from_json(&JsonValue::Object(minimal_members())).unwrap();
    assert_eq!(Token::from_json(&token.to_json()), Some(token));
}
