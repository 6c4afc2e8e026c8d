//! A client of agents that speak the Agent Client Protocol, up to its edges:
//! what is asked of an agent, what its updates mean, how a turn goes on and
//! ends, and what is told to the session's owner. Sockets, processes, timers
//! and the protocol's own types are the business of the program around it.

pub mod agent_profiles;
pub mod command_loop;
pub mod config_options;
pub mod connection;
pub mod control;
pub mod errors;
pub mod event;
pub mod grok_ask;
pub mod handshake;
pub mod json;
pub mod lifecycle;
pub mod model;
pub mod notifications;
pub mod prompt;
pub mod raw_input;
pub mod session;
pub mod session_sandbox;
pub mod steer;
pub mod text;
pub mod text_map;
pub mod time;
pub mod transcript_filter;
pub mod update_events;
pub mod wire;
