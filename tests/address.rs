use rust_simple::config::{bind_address, resolve_port, DEFAULT_PORT};

#[test]
fn unset_port_defaults() {
    assert_eq!(resolve_port(None), "8080");
    assert_eq!(DEFAULT_PORT, "8080");
    assert_eq!(bind_address(&resolve_port(None)), "0.0.0.0:8080");
}

#[test]
fn set_port_is_verbatim() {
    assert_eq!(resolve_port(Some("3000".to_string())), "3000");
    assert_eq!(bind_address(&resolve_port(Some("0443".to_string()))), "0.0.0.0:0443");
}

#[test]
fn bind_address_joins_host_and_port() {
    assert_eq!(bind_address("9000"), "0.0.0.0:9000");
    assert_eq!(bind_address(""), "0.0.0.0:");
}
