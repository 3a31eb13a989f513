//! What the terminal host decides: where input goes, what is written to
//! terminals and the clipboard, and when deferred work starts.

pub mod clipboard;
pub mod colors;
pub mod dispatch;
pub mod encoding;
pub mod encoding_laws;
pub mod event_loop;
pub mod input_laws;
pub mod screen;
pub mod screen_laws;
pub mod shell_input;
pub mod standalone;
