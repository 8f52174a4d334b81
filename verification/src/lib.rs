//! A small client library for a news aggregation service: it builds the
//! request URL, decodes the JSON response body into typed article records,
//! and translates service-reported error codes into a typed error taxonomy.
//! The network transports themselves live outside the library; callers hand
//! the raw response body (or the transport outcome) to the functions here.

pub mod client;
pub mod error;
pub mod json;
pub mod response;

pub use client::build_url;
pub use client::evaluate_fetch;
pub use client::evaluate_fetch_async;
pub use client::evaluate_raw_fetch;
pub use client::AsyncTransport;
pub use client::Country;
pub use client::EndPoint;
pub use client::NewsAPI;
pub use client::Transport;
pub use error::map_response_err;
pub use error::NewsAPIError;
pub use json::decode_response;
pub use response::process_response;
pub use response::Article;
pub use response::NewsAPIResponse;
