//! Session management for a terminal-session daemon and its clients.
//!
//! A daemon owns named sessions, each a child process on a pseudo-terminal.
//! Clients start sessions, attach to them, detach from them, resize and
//! kill them. This library holds the rules of both sides: how sessions are
//! named and found (`naming`, `registry`), what each request does and
//! answers (`daemon`, `rpc`), what a relay and a client decide (`relay`,
//! `client`), and what holds across requests (`consistency`). Reading
//! sockets and terminals, spawning children and serving requests is left
//! to the program that uses it.

pub mod cli;
pub mod client;
pub mod clock;
pub mod commands;
pub mod consistency;
pub mod daemon;
pub mod error;
pub mod naming;
pub mod proto;
pub mod pty;
pub mod reap;
pub mod registry;
pub mod relay;
pub mod rpc;
pub mod session;
pub mod store;
pub mod term;
pub mod text;
pub mod user;
