//! A terminal chat client core built over a publish/subscribe broker.
//!
//! Every participant publishes sender-tagged lines to a shared topic and
//! receives every other participant's lines; self-authored messages are
//! suppressed locally.  The modules here hold the verified decision logic of
//! a session: identity resolution, message rendering, the per-session
//! delivery-group identity, and the session event loop's state transitions.
//! The surrounding process performs the actual broker and terminal I/O and
//! feeds the outcomes back in as plain events.

pub mod bytes;
pub mod config;
pub mod group;
pub mod identity;
pub mod render;
pub mod session;
