//! Health-check agent core: the wire codec, the peer health table and the
//! opcode handlers, free of sockets and threads.

pub mod health_check;
pub mod health_check_model;
pub mod health_check_network_broker;
pub mod health_check_network_handlers;
pub mod health_check_stack;
pub mod network;
pub mod network_models;
pub mod utils;
