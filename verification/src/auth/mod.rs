//! OAuth 2.1 support: the resource-server side (bearer challenges, scopes,
//! protected-resource paths) and the client side (tokens, callback handling).

pub mod server;
pub mod oauth_client;
