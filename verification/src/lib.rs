//! Core logic of the MOH desktop: the event-hub router, the window-manager
//! decisions, the theme and configuration readers, and the layout of what the
//! desktop draws. Everything that talks to the X server or to a socket lives
//! outside this crate and hands plain values in.
pub mod client;
pub mod config;
pub mod dev_panel;
pub mod frame;
pub mod messages;
pub mod panel;
pub mod pointer;
pub mod request;
pub mod router;
pub mod session;
pub mod text;
pub mod theme;
pub mod ui;
pub mod wallpaper;
pub mod wm;
