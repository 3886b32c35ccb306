//! Client side of the OAuth 2.0 authorization-code flow for the Notion API.
//!
//! The library builds the authorization redirect URL and the token request,
//! and decodes the provider's answer into a [`Token`] or a provider error.
//! Sending the request is left to the caller's HTTP transport.
use vstd::prelude::*;

pub mod json;

pub mod oauth;
pub mod token;

pub use json::JsonValue;
pub use oauth::{DecodeFailure, Error, OAuthClient, OAuthError, TokenRequest};
pub use token::{default_workspace, Owner, OwnerType, Token, User};

verus! {

} // verus!
