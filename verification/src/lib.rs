//! Verified core logic of a set of Google Cloud client components: API key
//! credentials, the long-running operation messages, and the decisions taken
//! by the Pub/Sub streaming-pull keepalive machinery.

pub mod api_key_credentials;
pub mod http_headers;
pub mod keepalive;
pub mod longrunning;
pub mod rpc;
pub mod stream;
pub mod watchdog;
