//! User authentication and session tokens: credentials are checked against a user
//! store, a fresh random token is bound to the user's identity in a session store,
//! requests are resolved back to an identity through their `authorization` header,
//! and tokens are revoked on logout.

pub mod error;
pub mod headers;
pub mod service;
pub mod sessions;
pub mod token;
pub mod users;
