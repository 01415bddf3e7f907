//! A small JSON-RPC 2.0 execution engine: a registry of named handlers and its
//! dispatcher, batch execution, a length-prefixed frame codec, an
//! authentication guard, request metrics and a shutdown coordinator.
pub mod auth;
pub mod batch;
pub mod framing;
pub mod handlers;
pub mod json;
pub mod metrics;
pub mod rpc;
pub mod shutdown;
pub mod state;
pub mod stateful;
pub mod strmap;
pub mod transport;
pub mod wire;

pub use auth::{AuthMiddleware, AuthStrategy, AuthenticatedServer};
pub use batch::{BatchRequest, BatchResponse};
pub use framing::FrameCodec;
pub use handlers::OptionExt;
pub use json::{JsonNumber, JsonValue};
pub use metrics::Metrics;
pub use rpc::{RpcErrorObj, RpcRequest, RpcResponse, RpcServer};
pub use shutdown::ShutdownCoordinator;
pub use state::{Account, StateStore, Transaction, TransactionStatus};
