//! Verified core of a network remote control for streaming-media players:
//! device discovery results, the device client's metadata and catalog, the
//! control-command addresses, and the search coordinator behind the UI.
pub mod discovery;
pub mod key;
pub mod remote;
pub mod roku;
pub mod text;
pub mod xml;
