//! Client core for the Upbit exchange REST API: canonical query strings,
//! HS512 bearer tokens bound to them, and the request plan of each endpoint.

pub mod client;
pub mod error;
pub mod payload;
pub mod query;
pub mod util;

pub use client::{ApiRequest, Client, HttpMethod};
pub use error::UpbitError;
pub use payload::{NonParamPayload, ParamPayload, Payload};
pub use query::Query;
pub use util::hash;
