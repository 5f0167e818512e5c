use vstd::prelude::*;
use crate::errors::{AutoGuiError, is_os_failure, os_failure};

verus! {

/// The display server of the running session, read from `XDG_SESSION_TYPE`.
#[derive(Debug, Clone, Copy, PartialEq, Eq, Structural)]
pub enum SessionKind {
    Wayland,
    X11,
}

/// Message when `XDG_SESSION_TYPE` is not set.
pub open spec fn unset_session_message() -> Seq<char> {
    "XDG_SESSION_TYPE is not set, cannot determine wayland vs x11"@
}

/// Message when `XDG_SESSION_TYPE` names neither supported display server.
pub open spec fn unknown_session_message(session: Seq<char>) -> Seq<char> {
    "Unknown XDG_SESSION_TYPE="@ + session + " - should be 'x11' or 'wayland'"@
}

/// Decides the display server from the value of `XDG_SESSION_TYPE`
/// (`None` when the variable is not set).
pub fn session_kind(session: Option<&str>) -> (r: Result<SessionKind, AutoGuiError>)
    ensures
        session is None ==> r is Err && is_os_failure(r->Err_0, unset_session_message()),
        session is Some && session->0@ == "wayland"@ ==> r == Ok::<SessionKind, AutoGuiError>(
            SessionKind::Wayland,
        ),
        session is Some && session->0@ == "x11"@ ==> r == Ok::<SessionKind, AutoGuiError>(
            SessionKind::X11,
        ),
        session is Some && session->0@ != "wayland"@ && session->0@ != "x11"@ ==> r is Err
            && is_os_failure(r->Err_0, unknown_session_message(session->0@)),
{
    match session {
        None => Err(os_failure("XDG_SESSION_TYPE is not set, cannot determine wayland vs x11")),
        Some(s) => {
            proof {
                reveal_strlit("wayland");
                reveal_strlit("x11");
                assert("x11"@.len() != "wayland"@.len());
                assert("x11"@ != "wayland"@);
            }
            let owned = s.to_owned();
            let wayland = "wayland".to_owned();
            if owned == wayland {
                assert(s@ == "wayland"@);
                Ok(SessionKind::Wayland)
            } else if owned == "x11".to_owned() {
                Ok(SessionKind::X11)
            } else {
                let mut message = "Unknown XDG_SESSION_TYPE=".to_owned();
                message.append(s);
                message.append(" - should be 'x11' or 'wayland'");
                assert(s@ != "wayland"@);
                assert(s@ != "x11"@);
                assert(message@ == unknown_session_message(s@));
                Err(AutoGuiError::OSFailure(message))
            }
        },
    }
}

} // verus!
