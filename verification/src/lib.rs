//! Credential issuance and verification: password hashing, signed bearer
//! tokens, the request-time identity guard, and the decisions of the
//! registration and login flows.

pub mod accounts;
pub mod domain;
pub mod error;
pub mod identity;
pub mod password;
pub mod text;
pub mod token;
