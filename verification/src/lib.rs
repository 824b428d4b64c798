//! Verified core of a terminal client for a music player daemon.
pub mod state;
pub mod subscriber;
pub mod termination;
pub mod ui;
