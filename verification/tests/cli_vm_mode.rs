use safepaw::cli::{resolve_vm_mode, VmMode};

#[test]
fn vm_mode_defaults_to_local() {
    // The interactive surface's flag defaults to "local"; resolving
    // that default selects the local backend.
    let mode = resolve_vm_mode("local").expect("failed to resolve mode");
    assert_eq!(mode, VmMode::Local);
}

#[test]
fn vm_mode_can_be_set_to_network() {
    let mode = resolve_vm_mode("network").expect("failed to resolve mode");
    assert_eq!(mode, VmMode::Network);
}

#[test]
fn vm_mode_rejects_unknown_values() {
    let err = resolve_vm_mode("cloud").expect_err("unknown mode should be rejected");
    assert_eq!(err, "unsupported vm mode: cloud");
}
