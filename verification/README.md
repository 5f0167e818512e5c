# rustautogui (verified core)

`src/` is the verified library (Verus): session detection, the requests that
keyboard and mouse calls send to the X11 backend, conversion of captured
screen pixels (BGRA to RGBA, grayscale by the 30/59/11 luminance formula),
cutting screen regions (and, for the Wayland region grab, `image`'s crop),
the screen states of X11 and Wayland sessions, template bookkeeping and
the decisions taken while searching for a template (match-mode checks,
centring of found locations, the step of the search loops, the retina backup search).

`app/` holds what talks to the system: X11 display connections (`x11`),
the Wayland capture stream (`waycap-rs`, `crossbeam-channel`), saving images,
the search loops with their clocks, and the matching algorithms' interface.
