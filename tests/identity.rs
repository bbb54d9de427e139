use std::collections::HashMap;

use sensor_display::discovery::{
    keep_listening, Discovery, HostAddr, ReadOutcome, FALLBACK_PORT, SERVICE_NAME,
};
use sensor_display::registration::{
    check_registration_status, classify_status, health_url, is_alive, reason_from, Member, normalize_mac, process_static_preparation_data,
    server_url, RegistrationError, SensorBridgeClient, StatusClass,
};
use sensor_display::text::{build_standby_text, push_decimal};

fn announcement(name: &str, port: u16, version: &str) -> Vec<u8> {
    bincode::serialize(&(name.to_string(), port, version.to_string())).unwrap()
}

#[test]
fn repeated_broadcast_yields_one_server() {
    let mut d = Discovery::new();
    let ip = HostAddr::ipv4(10, 0, 0, 7);
    let bytes = announcement("sensor_bridge", 8080, "1.0.0");
    assert!(d.receive_datagram(ip, &bytes));
    assert!(!d.receive_datagram(ip, &bytes));
    assert_eq!(d.len(), 1);
}

#[test]
fn discovery_keeps_matching_service_only() {
    let mut d = Discovery::new();
    let ip = HostAddr::ipv4(192, 168, 1, 50);
    assert!(d.receive_datagram(ip, &announcement("sensor_bridge", 9999, "1.2.0")));
    assert!(!d.receive_datagram(HostAddr::ipv4(192, 168, 1, 51), &announcement("other", 9999, "1.2.0")));
    assert_eq!(d.len(), 1);
    let s = &d.servers()[0];
    assert_eq!(s.ip, HostAddr::V4(0xC0A80132));
    assert_eq!(s.port, 9999);
    assert_eq!(s.service_name, SERVICE_NAME);
    assert_eq!(s.version, "1.2.0");
    assert_eq!(d.target(), (HostAddr::V4(0xC0A80132), 9999));
}

#[test]
fn discovery_tells_ports_apart_and_ignores_garbage() {
    let mut d = Discovery::new();
    let ip = HostAddr::ipv4(10, 0, 0, 1);
    assert!(d.receive_datagram(ip, &announcement("sensor_bridge", 1, "a")));
    assert!(d.receive_datagram(ip, &announcement("sensor_bridge", 2, "a")));
    assert!(!d.receive_datagram(ip, &[1, 2]));
    assert_eq!(d.len(), 2);
}

#[test]
fn discovery_falls_back_to_local_host() {
    let d = Discovery::new();
    assert_eq!(d.target(), (HostAddr::ipv4(127, 0, 0, 1), FALLBACK_PORT));
    assert_eq!(FALLBACK_PORT, 10489);
}

#[test]
fn discovery_listens_within_window_until_failure() {
    assert!(keep_listening(0, ReadOutcome::TimedOut));
    assert!(keep_listening(4999, ReadOutcome::Datagram));
    assert!(!keep_listening(5000, ReadOutcome::TimedOut));
    assert!(!keep_listening(10, ReadOutcome::Failed));
}

#[test]
fn registration_403_fails_as_not_active() {
    let body = br#"{"error":"Client not active"}"#;
    match check_registration_status(403, body) {
        Err(e) => {
            assert!(e.is_not_active());
            assert_eq!(e.message(), "Registration failed: Client not active");
        }
        Ok(()) => panic!("a 403 must fail"),
    }
    let e = check_registration_status(403, b"").unwrap_err();
    assert!(e.is_not_active());
    assert!(e.message().contains("not active"));
}

#[test]
fn registration_error_reason_falls_back_to_message_member() {
    let e = check_registration_status(500, br#"{"message":"down"}"#).unwrap_err();
    assert_eq!(e.message(), "Registration failed: down");
    let e = check_registration_status(400, br#"{"error":5,"message":"x"}"#).unwrap_err();
    assert_eq!(e.message(), "Registration failed: Unknown error");
    let e = check_registration_status(502, b"<html>").unwrap_err();
    assert_eq!(e.message(), "Registration failed with status: 502");
    assert!(!e.is_not_active());
    assert!(check_registration_status(200, b"").is_ok());
    assert!(check_registration_status(399, b"").is_ok());
}

#[test]
fn statuses_classify() {
    assert_eq!(classify_status(200), StatusClass::Success);
    assert_eq!(classify_status(403), StatusClass::NotActive);
    assert_eq!(classify_status(404), StatusClass::NotRegistered);
    assert_eq!(classify_status(400), StatusClass::Failed);
}

#[test]
fn bundle_decodes_into_registration_result() {
    let text: HashMap<String, Vec<u8>> = HashMap::from([("Roboto".to_string(), vec![1])]);
    let images: HashMap<String, Vec<u8>> = HashMap::from([("logo".to_string(), vec![2, 3])]);
    let groups: HashMap<String, HashMap<String, Vec<u8>>> =
        HashMap::from([("lamp".to_string(), HashMap::from([("on".to_string(), vec![4])]))]);
    let bytes = bincode::serialize(&(text, images, groups)).unwrap();
    let r = process_static_preparation_data(&bytes).ok().unwrap();
    assert!(r.success);
    assert_eq!(r.text_data["Roboto"], vec![1]);
    assert_eq!(r.static_image_data, vec![("logo".to_string(), vec![2, 3])]);
    assert_eq!(r.conditional_image_data.len(), 1);
    assert_eq!(r.conditional_image_data[0].0, "lamp");
    assert_eq!(r.conditional_image_data[0].1, vec![("on".to_string(), vec![4])]);
}

#[test]
fn bad_bundle_is_invalid() {
    assert!(matches!(
        process_static_preparation_data(&[1, 2, 3]),
        Err(RegistrationError::InvalidBundle)
    ));
}

#[test]
fn client_identity_and_urls() {
    let c = SensorBridgeClient::new("10.0.0.2", None, (800, 480), "AA:BB:CC:0D:EE:FF", "10.0.0.9".to_string());
    assert_eq!(c.server_url(), "http://10.0.0.2:8080");
    assert_eq!(c.mac_address(), "aa:bb:cc:0d:ee:ff");
    assert_eq!(c.registration_url(), "http://10.0.0.2:8080/api/register");
    assert_eq!(
        c.sensor_data_url(),
        "http://10.0.0.2:8080/api/sensor-data?mac_address=aa:bb:cc:0d:ee:ff"
    );
    let reg = c.registration(Some("kitchen".to_string()));
    assert_eq!(reg.ip_address, "10.0.0.9");
    assert_eq!((reg.resolution_width, reg.resolution_height), (800, 480));
    assert_eq!(reg.name.as_deref(), Some("kitchen"));
    assert_eq!(server_url("host", Some(10489)), "http://host:10489");
}

#[test]
fn mac_is_lowercased() {
    assert_eq!(normalize_mac("0A:1B:FF"), "0a:1b:ff");
}

#[test]
fn decimal_digits() {
    for n in [0u64, 7, 10, 65535, u64::MAX] {
        let mut s = String::from("#");
        push_decimal(&mut s, n);
        assert_eq!(s, format!("#{n}"));
    }
}

#[test]
fn standby_text_lists_identity() {
    let t = build_standby_text("1.4.2", "192.168.0.3", "panel", "1024x600");
    assert_eq!(
        t,
        "No data received yet.\n\nVersion:\t\t\t\t\t\t1.4.2\nIP Addresse:\t\t\t\t192.168.0.3\nHostname:\t\t\t\t\tpanel\nDisplay resolution:\t1024x600"
    );
}

#[test]
fn reason_prefers_error_member() {
    assert_eq!(reason_from(Member::Text("a".into()), Member::Text("b".into())), Some("a".to_string()));
    assert_eq!(reason_from(Member::Missing, Member::Text("b".into())), Some("b".to_string()));
    assert_eq!(reason_from(Member::NotText, Member::Text("b".into())), None);
    assert_eq!(reason_from(Member::Missing, Member::NotText), None);
    assert_eq!(reason_from(Member::Missing, Member::Missing), None);
}

#[test]
fn liveness_needs_ok_literal() {
    assert!(is_alive(200, b"OK"));
    assert!(!is_alive(200, b"OK\n"));
    assert!(!is_alive(500, b"OK"));
    assert!(!is_alive(204, b""));
    assert_eq!(health_url("http://h:1"), "http://h:1/api/health");
}

#[test]
fn registration_success_message_is_fixed() {
    let empty: std::collections::HashMap<String, Vec<u8>> = std::collections::HashMap::new();
    let groups: std::collections::HashMap<String, std::collections::HashMap<String, Vec<u8>>> =
        std::collections::HashMap::new();
    let bytes = bincode::serialize(&(empty.clone(), empty, groups)).unwrap();
    let r = process_static_preparation_data(&bytes).ok().unwrap();
    assert_eq!(r.message, "Client registered successfully with static data");
}
