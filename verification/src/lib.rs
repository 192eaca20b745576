//! A proxyable, fail-closed monerod JSON-RPC client.
//!
//! Gives a Monero wallet chain data from a public or user-supplied node, keyed by network name.
//! The client of every outbound request is built in one place, [`proxy`], and a network that
//! requires a proxy it cannot use gets none. The library decides and states what is sent and
//! what answers mean; sending, files and clocks are its caller's.
pub mod call;
pub mod json;
pub mod laws;
pub mod module;
pub mod node;
pub mod persist;
pub mod proxy;
pub mod registry;
pub mod saved;
pub mod shape;
pub mod text;

pub use call::{Call, HealthCheck, Request};
pub use json::Json;
pub use module::MoneroNodeModule;
pub use node::{is_network, NodeConfig, NodeError, NodeMode, NETWORKS};
pub use persist::SaveStep;
pub use proxy::{build_client, ProxyConfig, ProxyError};
pub use registry::{Nodes, DEFAULT_ENDPOINTS};
