//! The core of an application launcher: what a query means, which
//! candidates it has and in which order, what each input does to the
//! session, and what launching a candidate does.
//!
//! The library touches neither windows nor files nor processes.  Where a
//! provider needs the outside world, the library says what to ask for and
//! takes the answer as plain values.

pub mod text;
pub mod paths;
pub mod ranking;
pub mod candidate;
pub mod history;
pub mod config;
pub mod overrides;
pub mod windows;
pub mod launch;
pub mod apps;
pub mod files;
pub mod web;
pub mod calc;
pub mod clipboard;
pub mod system;
pub mod color;
pub mod resolve;
pub mod session;
