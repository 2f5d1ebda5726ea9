//! The decision logic of a service-mesh proxy's middleware.

pub mod arc;
pub mod destination;
pub mod discover;
pub mod fallback;
pub mod http_metrics;
pub mod index_map;
pub mod lock;
pub mod net;
pub mod opencensus;
pub mod outbound;
pub mod poll;
pub mod probe_buffer;
pub mod profiles;
pub mod proxy;
pub mod resolve;
pub mod stack;
pub mod stack_metrics;
pub mod strategy;
pub mod text;
pub mod time;
pub mod tls;
