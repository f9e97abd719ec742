//! Verified core of an Arena PLM client and its desktop and web front ends.
//!
//! - `request`, `client`, `types`: the requests of the Arena REST API that each tool makes.
//! - `session`: logging in, reusing the token, and retrying once after a refused token.
//! - `content`: what a downloaded file becomes (text or base64).
//! - `protocol`, `registry`: the messages between the web front end and the desktop back
//!   end, and the front end's table of requests that wait for an answer.
//! - `desktop`: the back end's state machine and its Arena worker's queries.
//! - `ui`, `page`, `browse`, `logs`: the web front end's state, browse pages, and log viewer.
//! - `text`: string helpers stated over sequences of characters.

pub mod browse;
pub mod client;
pub mod content;
pub mod desktop;
pub mod logs;
pub mod page;
pub mod protocol;
pub mod registry;
pub mod request;
pub mod session;
pub mod text;
pub mod types;
pub mod ui;
