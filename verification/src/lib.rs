//! A verified core for a thin desktop shell that supervises a locally
//! running backend server and shows its web UI in native windows.
//!
//! The shell's observable behaviour is a linear startup handshake (load
//! settings, probe the backend, spawn it if it does not answer, wait,
//! re-probe, authenticate) followed by window requests driven by a tray
//! menu. This crate holds that logic as verified functions: the settings
//! record and its validity, the page-to-title table, the construction of
//! every URL and window title the shell uses, and the startup handshake
//! as a state machine whose transitions and emitted actions are fully
//! specified. The surrounding process (file reading, HTTP, spawning,
//! the GUI event loop) performs the actions and feeds the events back.

pub mod pages;
pub mod settings;
pub mod startup;
pub mod text;
pub mod trace;
pub mod urls;
pub mod window;
