//! Runtime for line-delimited JSON-RPC plugins: handler registration,
//! capability manifests, dispatch and the per-line protocol step.
pub mod json;
pub mod laws;
pub mod plugin;
pub mod registry;
pub mod types;
pub mod wire;

pub use plugin::{
    decode_request, DispatchError, MethodHandler, Plugin, ProtocolError, RPCCommand, Reply,
    Request, Step,
};
pub use types::{LogLevel, RPCHookInfo, RPCMethodInfo, RequestId, RpcOption};
pub use wire::{blank_line, decimal_text, log_json, LOG_ID};
