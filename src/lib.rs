//! The decision core of a notification-area (tray) icon: which icon the shell
//! shows, what its text fields hold, how clicks on it become requests to the
//! application, and the running-time status the application displays.
pub mod laws;
pub mod status;
pub mod text;
pub mod tray;
