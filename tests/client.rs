use bambu_farm::client::{endpoint_url, printer_available_json};
use bambu_farm::{bambu_network_rs_init, bambu_network_rs_log_debug};

#[test]
fn endpoint_defaults_to_local_gateway() {
    assert_eq!(endpoint_url(None, true), "http://[::1]:47403");
    assert_eq!(endpoint_url(None, false), "http://[::1]:47403");
}

#[test]
fn endpoint_uses_configured_scheme() {
    assert_eq!(endpoint_url(Some("10.1.2.3:47403"), false), "http://10.1.2.3:47403");
    assert_eq!(endpoint_url(Some("farm.local:443"), true), "https://farm.local:443");
}

#[test]
fn available_printer_record_names_the_printer() {
    let json = printer_available_json("Shelf A", "01P00C");
    assert!(json.starts_with('{') && json.ends_with('}'));
    assert!(json.contains("\"dev_name\": \"Shelf A\","));
    assert!(json.contains("\"dev_id\": \"01P00C\","));
    assert!(json.contains("\"dev_ip\": \"127.0.0.1\""));
    assert!(json.contains("\"connect_type\": \"lan\""));
    assert!(json.contains("\"bind_state\": \"free\""));
    assert_eq!(json.lines().count(), 9);
}

#[test]
fn hooks_accept_calls() {
    bambu_network_rs_init();
    bambu_network_rs_log_debug("hello".to_string());
}
