//! Translation of abstract keyboard and pointer events into the native calls
//! of an input-injection backend.
//!
//! The library decides; it performs no input or output itself. A caller opens
//! the native session, carries out each action that the library asks for and
//! reports how it went.

pub mod coords;
pub mod event;
pub mod keycodes;
pub mod keys;
pub mod laws;
pub mod relative;
pub mod session;
pub mod translate;
