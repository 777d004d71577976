pub mod text;

pub mod lens;
pub mod lens_store;
pub mod tool_args;

pub mod protocol;
pub mod registry;
pub mod approval;
pub mod agent_turn;
pub mod runtime_server;
pub mod handshake;

pub mod agent_runtime;
pub mod chat_session;
pub mod sidecar_process;
pub mod smoke;
