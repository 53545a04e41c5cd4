use server_plugin::description::plugin_description;
use server_plugin::factory::resolve_interface;

#[test]
fn description_is_a_stable_c_string() {
    let bytes = plugin_description();
    assert!(bytes.len() > 1);
    assert_eq!(*bytes.last().unwrap(), 0u8);
    for &b in &bytes[..bytes.len() - 1] {
        assert_ne!(b, 0u8);
    }
    assert_eq!(bytes.as_slice(), b"Cross-Platform Rust Plugin Template\0");
    let again = plugin_description();
    assert_eq!(again, bytes);
}

#[test]
fn host_probe_scenario() {
    let hit = resolve_interface(b"ISERVERPLUGINCALLBACKS003");
    assert!(hit.matched);
    assert_eq!(hit.status, 0);

    let miss = resolve_interface(b"SomeOtherInterface001");
    assert!(!miss.matched);
    assert_eq!(miss.status, 1);

    let description = plugin_description();
    assert!(!description.is_empty());
    assert_eq!(*description.last().unwrap(), 0u8);
    assert!(description.len() > 1);
}
