use vstd::prelude::*;

use crate::text::same_text;

verus! {

/// Whether the session must be forced onto the X11 GDK backend: the session
/// is a Wayland one and `GDK_BACKEND` is unset or empty. An explicit,
/// non-empty backend is left alone.
pub open spec fn forces_x11(session_type: Option<&str>, gdk_backend: Option<&str>) -> bool {
    &&& session_type matches Some(session) && session@ == "wayland"@
    &&& gdk_backend matches Some(backend) ==> backend@.len() == 0
}

/// Decides whether the GTK backend has to be forced to X11 before the first
/// window is created, from `XDG_SESSION_TYPE` and `GDK_BACKEND` as read from
/// the environment (`None` where a variable is unset). An empty
/// `GDK_BACKEND` counts as unset.
pub fn should_force_x11(session_type: Option<&str>, gdk_backend: Option<&str>) -> (force: bool)
    ensures
        force == forces_x11(session_type, gdk_backend),
        gdk_backend is Some && gdk_backend->0@.len() > 0 ==> !force,
        force ==> session_type is Some && session_type->0@ == "wayland"@,
{
    match session_type {
        Some(session) => {
            if same_text(session, "wayland") {
                match gdk_backend {
                    None => true,
                    Some(backend) => backend.is_empty(),
                }
            } else {
                false
            }
        },
        None => false,
    }
}

/// An explicit, non-empty `GDK_BACKEND` is never overridden, whatever it
/// names and whatever the session type.
pub proof fn explicit_backend_is_left_alone(session_type: Option<&str>, backend: &str)
    requires
        backend@.len() > 0,
    ensures
        !forces_x11(session_type, Some(backend)),
{
}

/// An empty `GDK_BACKEND` is treated exactly as an unset one.
pub proof fn empty_backend_counts_as_unset(session_type: Option<&str>, backend: &str)
    requires
        backend@.len() == 0,
    ensures
        forces_x11(session_type, Some(backend)) == forces_x11(session_type, None),
{
}

/// A Wayland session with no backend chosen is always forced onto X11.
pub proof fn bare_wayland_session_is_forced(session: &str)
    requires
        session@ == "wayland"@,
    ensures
        forces_x11(Some(session), None),
{
}

/// Only a Wayland session is ever forced: any other session type, or none
/// at all, is left as it is.
pub proof fn only_wayland_sessions_are_forced(session_type: Option<&str>, gdk_backend: Option<&str>)
    requires
        forces_x11(session_type, gdk_backend),
    ensures
        session_type is Some,
        session_type->0@ == "wayland"@,
        gdk_backend is None || gdk_backend->0@.len() == 0,
{
}

} // verus!
