pub mod outbound_queue;
pub mod world_state;
pub mod udp_bindings;
pub mod client_registry;
pub mod fireteam;
pub mod udp_server;
pub mod session_handler;
pub mod handlers;
pub mod tcp_server;
