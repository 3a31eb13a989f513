//! How the application is laid out, drawn, and driven by the mouse.

pub mod drawing;
pub mod drawing_laws;
pub mod geometry;
pub mod input;
pub mod layout_laws;
pub mod mouse_routing;
pub mod pane_laws;
pub mod render;
pub mod routing_laws;
pub mod screen_layout;

pub use input::{key_from_event, mouse_from_event, MouseAction, MouseInput};
pub use mouse_routing::resolve as resolve_mouse;
pub use render::{render, render_with_layout};
pub use screen_layout::{ScreenLayout, WorkspacePanes};
