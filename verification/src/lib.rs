//! Bearer-token authentication against the key set that an identity provider
//! publishes: the request gate, key selection and token validation.

pub mod bearer;
pub mod claims;
pub mod client;
pub mod error;
pub mod gate;
pub mod json;
pub mod jwt;
pub mod keys;
pub mod policy;
pub mod text;
pub mod token;
pub mod validator;
