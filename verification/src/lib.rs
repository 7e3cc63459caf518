//! Real-time relay gateway: a verified connection registry, a handshake
//! gate that extracts bearer tokens from cookie headers, and a session
//! state machine that routes device frames to connected user sessions.

pub mod assoc_map;
pub mod text;
pub mod handshake;
pub mod model;
pub mod session;
pub mod registry;
pub mod laws;
pub mod db;
pub mod routes;
pub mod util;
