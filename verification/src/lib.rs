//! Token manager: users sign in at OAuth providers, and their tokens are kept by a
//! socket-activated server that shuts down when it is idle.

pub mod activity_tracker;
pub mod auth;
pub mod cipher;
pub mod cookie_jar;
pub mod keys;
pub mod laws;
pub mod oauth;
pub mod offset_date_time;
pub mod rpc;
pub mod state;
pub mod text;
pub mod timestamp;
