//! Verified core of a GUI automation library: session detection, keyboard and
//! mouse request dispatch, screen pixel conversion, template bookkeeping and
//! the decisions taken while searching for a template on screen.
pub mod errors;
pub mod session;
pub mod frame;
pub mod pixels;
pub mod image_ops;
pub mod keyboard;
pub mod mouse;
pub mod x11_screen;
pub mod template;
pub mod search;
pub mod backup;
pub mod wayland_screen;
pub mod region;
