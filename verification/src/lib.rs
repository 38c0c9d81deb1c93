//! A diagnostic HTTP server core for exercising HTTP clients, proxies and
//! load balancers: a verified route table and handler set that echoes
//! request metadata, emits configurable status codes, generates bodies of a
//! requested size, simulates latency, and renders one access-log line per
//! completed request. The transport layer around it (socket handling, file
//! streaming, the actual waiting) is unverified glue that acts on the
//! [`Outcome`] this library hands it.

mod access_log;
mod config;
mod echo;
mod model;
mod num;
mod random;
mod router;
mod status;
mod text;

pub use access_log::format_log_line;
pub use access_log::AccessLogRecord;
pub use config::is_valid_port;
pub use config::ServerConfig;
pub use config::MAX_PORT;
pub use echo::echo;
pub use model::Header;
pub use model::Method;
pub use model::Outcome;
pub use model::Request;
pub use model::Response;
pub use model::RouteMatch;
pub use num::parse_u16;
pub use num::u16_to_string;
pub use num::NumError;
pub use random::generate;
pub use router::dispatch;
pub use router::route;
pub use router::BODY_LIMIT;
pub use status::normalize;
