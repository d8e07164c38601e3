//! Verified core of a two-pane MTP file manager: the PTP/MTP protocol decisions
//! (container streaming, sessions, listings, USB discovery) and the application
//! state machine, with the terminal and USB I/O left to the caller.

pub mod app;
pub mod config;
pub mod container;
pub mod device;
pub mod entries;
pub mod format;
pub mod inspector;
pub mod listing;
pub mod messages;
pub mod pane;
pub mod session;
pub mod sort;
pub mod state;
pub mod stream;
pub mod text;
pub mod textinput;
pub mod usb;
pub mod view;
