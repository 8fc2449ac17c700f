//! The decisions of the ChatGPT desktop shell: which webview a command
//! talks to and what it tells it, how the ask bar splits the window, what a
//! debug dump of a webview writes and answers, and where downloads are saved.
//! The host program performs the window, file and dialog work these
//! functions describe.

pub mod labels;
pub mod paths;
pub mod command;
pub mod layout;
pub mod debug_dump;
pub mod download;
