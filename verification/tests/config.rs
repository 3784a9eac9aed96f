use sedna_rs::config::{generate_sedna_config, DEFAULT_PORT, MAX_LISTENER_PORT, PING_PORT_OFFSET};

fn expected(data_dir: &str, id: u32, port: u32, ping: u32) -> String {
    format!(
        "<?xml version=\"1.0\" standalone=\"yes\"?>\n<sednaconf>\n  <sedna_data>{}</sedna_data>\n  <os_primitives_id_min_bound>{}</os_primitives_id_min_bound>\n  <listen_address>localhost</listen_address>\n  <listener_port>{}</listener_port>\n  <ping_port>{}</ping_port>\n  <event_log_level>1</event_log_level>\n  <keep_alive_timeout>0</keep_alive_timeout>\n  <session_stack_depth>4000</session_stack_depth>\n</sednaconf>\n",
        data_dir, id, port, ping
    )
}

#[test]
fn config_for_default_port() {
    let text = generate_sedna_config("/tmp/sedna-data", 5050).unwrap();
    assert_eq!(text, expected("/tmp/sedna-data", 515000, 5050, 5151));
}

#[test]
fn config_for_other_port() {
    let text = generate_sedna_config("/var/lib/x", 5060).unwrap();
    assert_eq!(text, expected("/var/lib/x", 516000, 5060, 5161));
    assert!(text.contains("<listener_port>5060</listener_port>"));
    assert!(text.contains("<ping_port>5161</ping_port>"));
}

#[test]
fn config_for_port_zero() {
    let text = generate_sedna_config("", 0).unwrap();
    assert_eq!(text, expected("", 10000, 0, 101));
}

#[test]
fn config_for_highest_port() {
    let text = generate_sedna_config("d", MAX_LISTENER_PORT).unwrap();
    assert_eq!(text, expected("d", 6553400, 65434, 65535));
}

#[test]
fn config_keeps_unicode_data_dir() {
    let text = generate_sedna_config("/tmp/données", 7).unwrap();
    assert!(text.contains("<sedna_data>/tmp/données</sedna_data>"));
    assert!(text.contains("<os_primitives_id_min_bound>10700</os_primitives_id_min_bound>"));
}

#[test]
fn distinct_ports_give_distinct_configs() {
    let a = generate_sedna_config("/same", 5050).unwrap();
    let b = generate_sedna_config("/same", 5060).unwrap();
    assert_ne!(a, b);
    let c = generate_sedna_config("/same", 50).unwrap();
    let d = generate_sedna_config("/same", 500).unwrap();
    assert_ne!(c, d);
}

#[test]
fn port_constants() {
    assert_eq!(DEFAULT_PORT, 5050);
    assert_eq!(PING_PORT_OFFSET, 101);
    assert_eq!(MAX_LISTENER_PORT as u32 + PING_PORT_OFFSET as u32, u16::MAX as u32);
}
