//! Director General: the decision logic of a local press-to-talk voice
//! typing tool, verified with Verus.

pub mod state;
pub mod text;
pub mod storage;
pub mod caps_hook;
pub mod audio;
pub mod hotkey;
pub mod transcribe;
pub mod desktop;
