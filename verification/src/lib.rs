//! The core of a desktop orchestrator for agent servers: the session
//! protocol spoken with each child process, and the ledger of token usage
//! and rate limits that is fed from it.
//!
//! Nothing in this crate starts a process, touches a file or waits: it takes
//! values and gives values, and says of each what it is. The application
//! around it does the rest.
//!
//! - [`wire`], [`session`], [`registry`] and [`events`]: the protocol, the
//!   state of one session, and the sessions of all workspaces.
//! - [`usage`], [`poller`], [`probe`] and [`scan`]: the usage ledger and the
//!   ways in which it is refreshed.
//! - [`launch`], [`messages`], [`prompts`], [`search`], [`git`],
//!   [`attachments`], [`menu`], [`paths`] and [`settings`]: what the commands
//!   of the application decide.
//! - [`json`], [`time`] and [`ids`]: what is left to other crates and to the
//!   standard library, with what is taken on trust about them.
//! - [`text`], [`textmap`], [`sorting`] and [`rounding`]: tools.

pub mod attachments;
pub mod events;
pub mod git;
pub mod ids;
pub mod json;
pub mod launch;
pub mod menu;
pub mod messages;
pub mod paths;
pub mod poller;
pub mod probe;
pub mod prompts;
pub mod registry;
pub mod rounding;
pub mod scan;
pub mod search;
pub mod session;
pub mod settings;
pub mod sorting;
pub mod text;
pub mod textmap;
pub mod time;
pub mod usage;
pub mod wire;
