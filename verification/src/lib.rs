//! Startup decisions of the TMP Companion desktop shell: when the Linux
//! session must fall back to X11, and which native menu each platform draws.

pub mod menu;
pub mod session;
mod text;
