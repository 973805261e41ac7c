//! TypeBridge's verified core: how text becomes keystrokes, the typing
//! job's decisions, the window's state, command-line and version parsing,
//! and the translations of the user interface.

pub mod cancel;
pub mod cli;
pub mod engine;
pub mod esc;
pub mod i18n;
pub mod keysym;
pub mod libei;
pub mod text;
pub mod ui;
pub mod update;
pub mod window;
pub mod worker;
