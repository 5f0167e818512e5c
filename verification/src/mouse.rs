use vstd::prelude::*;

verus! {

/// The input backend that serves mouse requests.
#[derive(Debug, Clone, Copy, PartialEq, Eq, Structural)]
pub enum Mouse {
    /// The pointer is driven through the X11 display connection.
    X11,
    /// Wayland sessions have no mouse backend yet.
    Wayland,
}

/// A mouse button.
#[derive(Debug, Clone, Copy, PartialEq, Eq, Structural)]
pub enum MouseClick {
    LEFT,
    RIGHT,
    MIDDLE,
}

/// A scroll direction.
#[derive(Debug, Clone, Copy, PartialEq, Eq, Structural)]
pub enum MouseScroll {
    UP,
    DOWN,
    LEFT,
    RIGHT,
}

/// A request for the X11 mouse backend, which performs it on the display.
/// Movements are timed by the caller, who passes the moving time to the backend.
#[derive(Debug, Clone, Copy, PartialEq, Eq, Structural)]
pub enum MouseRequest {
    /// Move the pointer to a pixel coordinate.
    MoveTo { x: i32, y: i32 },
    /// Hold the left button and move the pointer to a pixel coordinate.
    DragTo { x: i32, y: i32 },
    /// Read the pointer position.
    Position,
    /// Press and release a button.
    Click(MouseClick),
    /// Press a button and keep it down.
    Down(MouseClick),
    /// Release a button.
    Up(MouseClick),
    /// Scroll in a direction, `intensity` steps.
    Scroll { direction: MouseScroll, intensity: u32 },
}

impl Mouse {
    /// Requests a move of the pointer to pixel `(x, y)`.
    pub fn move_mouse_to_pos(&self, x: i32, y: i32) -> (r: MouseRequest)
        requires
            *self == Mouse::X11,
        ensures
            r == (MouseRequest::MoveTo { x, y }),
    {
        MouseRequest::MoveTo { x, y }
    }

    /// Requests a drag of the pointer to pixel `(x, y)`.
    pub fn drag_mouse(&self, x: i32, y: i32) -> (r: MouseRequest)
        requires
            *self == Mouse::X11,
        ensures
            r == (MouseRequest::DragTo { x, y }),
    {
        MouseRequest::DragTo { x, y }
    }

    /// Requests the pointer position.
    pub fn get_mouse_position(&self) -> (r: MouseRequest)
        requires
            *self == Mouse::X11,
        ensures
            r == MouseRequest::Position,
    {
        MouseRequest::Position
    }

    /// Requests a click of `button`.
    pub fn mouse_click(&self, button: MouseClick) -> (r: MouseRequest)
        requires
            *self == Mouse::X11,
        ensures
            r == MouseRequest::Click(button),
    {
        MouseRequest::Click(button)
    }

    /// Requests that `button` be pressed and held.
    pub fn mouse_down(&self, button: MouseClick) -> (r: MouseRequest)
        requires
            *self == Mouse::X11,
        ensures
            r == MouseRequest::Down(button),
    {
        MouseRequest::Down(button)
    }

    /// Requests that `button` be released.
    pub fn mouse_up(&self, button: MouseClick) -> (r: MouseRequest)
        requires
            *self == Mouse::X11,
        ensures
            r == MouseRequest::Up(button),
    {
        MouseRequest::Up(button)
    }

    /// Requests a scroll of `intensity` steps in `direction`.
    pub fn scroll(&self, direction: MouseScroll, intensity: u32) -> (r: MouseRequest)
        requires
            *self == Mouse::X11,
        ensures
            r == (MouseRequest::Scroll { direction, intensity }),
    {
        MouseRequest::Scroll { direction, intensity }
    }
}

} // verus!
