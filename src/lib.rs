//! Framed message channels over the operating system's overlapped named pipes.
pub mod api_method;
pub mod frame;
pub mod handle;
pub mod message;
pub mod named_pipe;
pub mod overlapped;
pub mod rpc;
pub mod server_builder;
