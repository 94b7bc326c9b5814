//! Radar Router compose: the model of a compose file, the commands that launch
//! its executables, and the state of the compose editor.

pub mod text;
pub mod model;
pub mod compose;
pub mod ports;
pub mod editor;
pub mod pycheck;
pub mod transport;
pub mod detection;
