//! Verified core of a repository scout that drives the Codex app-server.
//!
//! What the scout decides is here: which configurations it takes, what it tells the app-server
//! and makes of its answers, when a result counts and what an error says. Processes, files and
//! clocks are left to the caller, who reports what they did and is told what to do next.

pub mod capture;
pub mod codec;
pub mod conversation;
pub mod git;
pub mod home;
pub mod json;
pub mod protocol;
pub mod run;
pub mod scout;
pub mod server;
pub mod session;
pub mod text;
pub mod usage;
pub mod wire;
