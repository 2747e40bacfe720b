//! Collar keeps a chat bot's credentials for a directory backend valid and
//! runs the staff approval of what members submit to the directory.
//!
//! Nothing in this library touches the network, the disk or the clock.
//! Each component is a state machine or a plain function: a driver outside
//! performs what the library asks for and reports what came of it, and the
//! library decides what is next. Every decision has a contract, stated over
//! the values that the types stand for, and the rules that tie the
//! components together are proved as lemmas next to them.
//!
//! - [`credential`]: the token pair and its lifetimes.
//! - [`routing`]: the notification categories and their channels.
//! - [`cache`]: the store that holds the pair, the routing and the
//!   addresses, and what is read from and written to disk.
//! - [`broker`]: minting and renewing the pair, with retries.
//! - [`client`]: one backend call, with a single renew-and-resend.
//! - [`scheduler`]: startup, and the renewal at a fixed interval.
//! - [`workflow`]: the approval of a submission by the staff.
//! - [`notifs`]: where a notification goes.
//! - [`commands`]: the records and rules of the commands.
//! - [`text`]: numerals and joined texts.

pub mod broker;
pub mod cache;
pub mod client;
pub mod commands;
pub mod credential;
pub mod notifs;
pub mod routing;
pub mod scheduler;
pub mod text;
pub mod workflow;
