//! Drive a DeepSeek Harness runtime: the decisions of an SDK that spawns the runtime as a
//! subprocess and speaks the line-delimited JSON-RPC 2.0 protocol over its stdio.
//!
//! Nothing here reads, writes, waits or spawns. Each type holds a state; its methods take in what
//! happened and give back what to do, and their contracts say exactly which. A thin layer of I/O
//! around them makes a working client.
//!
//! - [`api`] is the high-level surface: a harness, its sessions, and the collection of one run.
//! - [`client`] is the protocol client: the handshake, prompts, subscriptions, and the shutdown
//!   ladder; [`launch`] says how its runtime is launched.
//! - [`transport`] correlates requests with responses and hands notifications out; [`frames`] says
//!   what a line is; [`lineage`] which sessions belong to a tree; [`events`] what the session
//!   events of a run say.
//! - [`runtime`] acquires the runtime from a package index, [`paths`] resolves paths, and
//!   [`fake_runtime`] plays a runtime by script.
//! - [`json`], [`text`], [`text_map`] and [`error`] are what the rest is written with, and
//!   [`trusted`] holds everything that is believed of foreign code.
//!
//! The theorems about several functions at once are the public proof functions named `law_...`.

pub mod api;
pub mod client;
pub mod error;
pub mod events;
pub mod fake_runtime;
pub mod frames;
pub mod json;
pub mod launch;
pub mod lineage;
pub mod paths;
pub mod runtime;
pub mod text;
pub mod text_map;
pub mod transport;
pub mod trusted;

pub use api::{DeepSeekHarness, DeepSeekHarnessConfig, Input, RunResult, Session};
pub use client::{
    HarnessClient, HarnessClientOptions, IncomingRequest, InitializeParams, InitializeResult,
    Notification, ServerInfo,
};
pub use error::SdkError;
pub use transport::{NotificationFilter, NotificationSubscription};
