//! Decision logic of the merchant desktop shell: the tray's hover text and
//! blinking, the forced update at start-up, the window layout, where
//! downloads are saved, and the push-credentials file.

pub mod creds;
pub mod json;
pub mod text;
pub mod tray;
pub mod update;
pub mod window;
