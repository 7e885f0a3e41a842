use tmp_companion::session::should_force_x11;

#[test]
fn wayland_with_no_gdk_backend_forces_x11() {
    assert!(should_force_x11(Some("wayland"), None));
}

#[test]
fn wayland_with_empty_gdk_backend_forces_x11() {
    // An empty string is what reading a variable set to "" yields: it must be
    // treated the same as unset.
    assert!(should_force_x11(Some("wayland"), Some("")));
}

#[test]
fn wayland_with_explicit_gdk_backend_is_left_alone() {
    assert!(!should_force_x11(Some("wayland"), Some("wayland")));
}

#[test]
fn non_wayland_session_is_never_forced() {
    assert!(!should_force_x11(Some("x11"), None));
    assert!(!should_force_x11(None, None));
}

#[test]
fn explicit_x11_backend_on_wayland_is_left_alone() {
    assert!(!should_force_x11(Some("wayland"), Some("x11")));
}

#[test]
fn session_type_match_is_exact() {
    assert!(!should_force_x11(Some("Wayland"), None));
    assert!(!should_force_x11(Some("wayland "), None));
    assert!(!should_force_x11(Some(""), None));
    assert!(!should_force_x11(Some("waylan"), Some("")));
}

#[test]
fn non_wayland_session_ignores_empty_backend() {
    assert!(!should_force_x11(Some("x11"), Some("")));
    assert!(!should_force_x11(None, Some("")));
}
