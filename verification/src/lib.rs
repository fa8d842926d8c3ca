//! Host-side logic of a development bridge for Kindle devices.

pub mod bytes;
pub mod cli;
pub mod client_runtime;
pub mod codec;
pub mod device_registry;
pub mod device_session;
pub mod endpoint;
pub mod fake_device;
pub mod host_rpc;
pub mod lifecycle;
pub mod link;
pub mod logical_path;
pub mod methods;
pub mod model;
pub mod number;
pub mod path;
pub mod probe;
pub mod provider;
pub mod pull_stream;
pub mod push_stream;
pub mod rpc_error;
pub mod runtime;
pub mod service;
pub mod sorting;
pub mod sync_client;
pub mod sync_operation;
pub mod table;
pub mod tcp_probe;
pub mod text;
pub mod usb_bench;
pub mod usb_recovery;
