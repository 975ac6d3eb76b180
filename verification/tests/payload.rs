use goalnet::payload::PayloadState;

#[test]
fn unload_flag_starts_false_and_tracks_callback() {
    let mut s = PayloadState::new();
    assert!(!s.is_unloaded());
    assert!(!s.is_unloaded());
    s.mark_unloaded();
    assert!(s.is_unloaded());
    assert!(s.is_unloaded());
    s.remove_host();
    assert!(!s.is_unloaded());
}

#[test]
fn load_success_activates_hosting() {
    let mut s = PayloadState::new();
    assert!(!s.hosting_active);
    s.on_load(true);
    assert!(s.hosting_active);
}

#[test]
fn load_failure_changes_nothing_and_returns_nothing() {
    let mut s = PayloadState::new();
    s.on_load(false);
    assert!(!s.hosting_active);
    assert!(!s.is_unloaded());
}

#[test]
fn remove_host_clears_hosting_and_flag() {
    let mut s = PayloadState::new();
    s.on_load(true);
    s.mark_unloaded();
    s.remove_host();
    assert!(!s.hosting_active);
    assert!(!s.is_unloaded());
}
