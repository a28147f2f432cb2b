//! A small, verified HTTP client utility layer: building GET and JSON-POST
//! request descriptors, joining base URLs with relative paths, and the
//! decision logic of a timeout-bounded request/response exchange.
//!
//! All socket I/O, TLS, and file writing is left to callers; this crate
//! supplies the pure parts — URL joining (through the `url` crate), request
//! construction, status-code policy, and the per-call exchange state
//! machine — each with a proved contract.

pub mod errors;
pub mod plan;
pub mod request;
pub mod status;
pub mod transfer;
pub mod transport;
pub mod urls;

pub use errors::HttpError;
pub use plan::plan_get;
pub use plan::plan_post;
pub use plan::SendPlan;
pub use request::create_get;
pub use request::create_json_post;
pub use request::HttpMethod;
pub use request::HttpRequest;
pub use status::check_status;
pub use status::is_server_error_status;
pub use status::is_success_status;
pub use transfer::Exchange;
pub use transfer::Phase;
pub use transfer::TransferEvent;
pub use transport::select_transport;
pub use transport::Transport;
pub use urls::join_uri;
