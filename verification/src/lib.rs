//! Core of a chat bot: a command registry, a membership tracker, and the
//! dispatch loop's decision logic, all verified. The surrounding process
//! (connecting, joining channels, polling the session, playing audio,
//! appending to the queue file) lives outside the library and drives it
//! with plain events, performing the effects the library decides on.

pub mod dispatch;
pub mod membership;
pub mod registry;
pub mod text;
pub mod welcome;
