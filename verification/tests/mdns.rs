use rylus::mdns::{host_name, hostname_or_unknown, instance_name, MdnsError, MDNS_PROTOCOL_VERSION, SERVICE_TYPE};

#[test]
fn service_type_is_correct() {
    assert_eq!(SERVICE_TYPE, "_rylus._tcp.local.");
}

#[test]
fn mdns_error_display() {
    let err = MdnsError("daemon failed".to_string());
    assert_eq!(err.to_display_string(), "mDNS error: daemon failed");
}

#[test]
fn mdns_error_debug() {
    let err = MdnsError("test".to_string());
    let debug = format!("{err:?}");
    assert!(debug.contains("test"));
}

#[test]
fn service_names() {
    assert_eq!(instance_name(Some("myhost"), "box"), "Rylus myhost");
    assert_eq!(instance_name(None, "box"), "Rylus box");
    assert_eq!(host_name("box"), "box.local.");
    assert_eq!(hostname_or_unknown(None), "unknown");
    assert_eq!(hostname_or_unknown(Some("h".to_string())), "h");
    assert_eq!(MDNS_PROTOCOL_VERSION, "3");
}
