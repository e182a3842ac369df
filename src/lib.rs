//! A macro keyboard daemon's core: it interprets key events from a captured
//! input device, resolves each key release to the scripts of a per-user
//! configuration directory, and plans the privilege drop around launching them.

pub mod board;
pub mod event;
pub mod keys;
pub mod privilege;
pub mod resolve;
pub mod script;
