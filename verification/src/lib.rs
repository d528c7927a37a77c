//! A lightweight actor ("machine") runtime core: a service lifecycle state
//! machine, typed mailboxes with deferred outbound sends, forwarder actors
//! and the daisy-chain / chaos-monkey harnesses that exercise them, and the
//! command protocol of the network core with its connection table.
//!
//! Every data structure and decision rule lives here, verified; the
//! asynchronous shell (executor threads, sockets, channel waiting) stays
//! outside and calls into this crate with plain values.

pub mod adapter;
pub mod chaos_monkey;
pub mod config;
pub mod daisy_chain;
pub mod executor;
pub mod forwarder;
pub mod mailbox;
pub mod message;
pub mod net;
pub mod service;
