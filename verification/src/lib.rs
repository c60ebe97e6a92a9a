//! The decisions of a daemon that shows, on the screen of an Ergohaven Qube
//! dongle, how many coding agents are working, idle or blocked.
//!
//! The library holds no socket, no file and no clock. Two machines say what has
//! to be done and take in how it went: `bridge` keeps the dongle up to date, and
//! `daemon` runs the sessions around it. Whoever drives them performs each task
//! and hands back its outcome, with the time on a monotonic clock in
//! nanoseconds.
pub mod bridge;
pub mod bridge_conduct;
pub mod bridge_laws;
pub mod course;
pub mod daemon;
pub mod daemon_conduct;
pub mod herdr;
pub mod hidraw;
pub mod layout;
pub mod notify;
pub mod number;
pub mod options;
pub mod path;
pub mod qube;
pub mod session;
pub mod summary;
pub mod supervisor;
pub mod text;
pub mod time;
pub mod usage;
