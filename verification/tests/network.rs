use chaseai::network::{
    InterfaceDetector, InterfaceType, IpAddress, NetworkConfig, NetworkInterface, PortBinding,
    PortConfig, PortError, PortRole,
};

fn mock_interface() -> NetworkInterface {
    NetworkInterface {
        name: "lo0".to_string(),
        ip_address: IpAddress::V4(127, 0, 0, 1),
        interface_type: InterfaceType::Loopback,
    }
}

fn mock_binding(port: u16) -> PortBinding {
    PortBinding {
        port,
        interface: mock_interface(),
        role: PortRole::Instruction,
        enabled: true,
    }
}

fn is_private_ip_cases() {
    // V4 Private
    assert!(InterfaceDetector::is_private_ip(IpAddress::V4(192, 168, 1, 1)));
    assert!(InterfaceDetector::is_private_ip(IpAddress::V4(10, 0, 0, 1)));
    assert!(InterfaceDetector::is_private_ip(IpAddress::V4(172, 16, 0, 1)));

    // V4 Public
    assert!(!InterfaceDetector::is_private_ip(IpAddress::V4(8, 8, 8, 8)));

    // V6 (always taken as private)
    assert!(InterfaceDetector::is_private_ip(IpAddress::V6(1)));
}

#[test]
fn interface_detector_test_is_private_ip() {
    is_private_ip_cases();
}

#[test]
fn network_test_is_private_ip() {
    is_private_ip_cases();
    assert!(!InterfaceDetector::is_private_ip(IpAddress::V4(1, 1, 1, 1)));
    assert!(!InterfaceDetector::is_private_ip(IpAddress::V4(142, 250, 190, 46)));
    // fe80::1 and 2001:db8::1
    assert!(InterfaceDetector::is_private_ip(IpAddress::V6(
        0xfe80_0000_0000_0000_0000_0000_0000_0001
    )));
    assert!(InterfaceDetector::is_private_ip(IpAddress::V6(
        0x2001_0db8_0000_0000_0000_0000_0000_0001
    )));
}

#[test]
fn private_ranges_end_where_they_should() {
    assert!(InterfaceDetector::is_private_ip(IpAddress::V4(172, 31, 255, 255)));
    assert!(!InterfaceDetector::is_private_ip(IpAddress::V4(172, 32, 0, 0)));
    assert!(!InterfaceDetector::is_private_ip(IpAddress::V4(172, 15, 255, 255)));
    assert!(!InterfaceDetector::is_private_ip(IpAddress::V4(192, 169, 0, 1)));
    assert!(!InterfaceDetector::is_private_ip(IpAddress::V4(11, 0, 0, 1)));
    assert!(!InterfaceDetector::is_private_ip(IpAddress::V4(127, 0, 0, 1)));
}

#[test]
fn interfaces_are_classified() {
    assert_eq!(
        InterfaceDetector::classify(true, IpAddress::V4(127, 0, 0, 1)),
        InterfaceType::Loopback
    );
    assert_eq!(
        InterfaceDetector::classify(true, IpAddress::V4(8, 8, 8, 8)),
        InterfaceType::Loopback
    );
    assert_eq!(
        InterfaceDetector::classify(false, IpAddress::V4(192, 168, 0, 2)),
        InterfaceType::Lan
    );
    assert_eq!(
        InterfaceDetector::classify(false, IpAddress::V4(8, 8, 8, 8)),
        InterfaceType::Public
    );
    assert_eq!(
        InterfaceDetector::describe("en0".to_string(), false, IpAddress::V4(10, 1, 2, 3)),
        NetworkInterface {
            name: "en0".to_string(),
            ip_address: IpAddress::V4(10, 1, 2, 3),
            interface_type: InterfaceType::Lan,
        }
    );
}

#[test]
fn interfaces_are_selected_by_kind_in_order() {
    let all = vec![
        InterfaceDetector::describe("lo".to_string(), true, IpAddress::V4(127, 0, 0, 1)),
        InterfaceDetector::describe("en0".to_string(), false, IpAddress::V4(192, 168, 1, 9)),
        InterfaceDetector::describe("wan".to_string(), false, IpAddress::V4(8, 8, 4, 4)),
        InterfaceDetector::describe("en1".to_string(), false, IpAddress::V6(7)),
    ];
    let loopback = InterfaceDetector::detect_loopback(&all);
    assert_eq!(loopback.len(), 1);
    assert!(loopback
        .iter()
        .all(|i| i.interface_type == InterfaceType::Loopback));
    let lan = InterfaceDetector::detect_lan(&all);
    assert_eq!(
        lan.iter().map(|i| i.name.as_str()).collect::<Vec<_>>(),
        vec!["en0", "en1"]
    );
    let public = InterfaceDetector::select(&all, InterfaceType::Public);
    assert_eq!(public, vec![all[2].clone()]);
    assert!(InterfaceDetector::detect_lan(&Vec::new()).is_empty());
}

fn add_binding_case() {
    let mut config = PortConfig::new();
    config.add_binding(mock_binding(3000)).unwrap();
    assert!(config.get_binding(3000).is_some());
}

fn validate_privileged_port_case() {
    let config = PortConfig::new();
    assert!(config.validate_port(80).is_err());
    assert!(config.validate_port(3000).is_ok());
}

#[test]
fn port_config_test_add_binding() {
    add_binding_case();
}

#[test]
fn port_config_test_validate_privileged_port() {
    validate_privileged_port_case();
}

#[test]
fn network_test_add_binding() {
    add_binding_case();
}

#[test]
fn network_test_validate_privileged_port() {
    validate_privileged_port_case();
}

#[test]
fn test_remove_binding() {
    let mut config = PortConfig::new();
    config.add_binding(mock_binding(3000)).unwrap();
    assert!(config.remove_binding(3000).is_ok());
    assert!(config.get_binding(3000).is_none());
    assert!(config.remove_binding(3000).is_err());
}

#[test]
fn test_list_bindings() {
    let mut config = PortConfig::new();
    config.add_binding(mock_binding(3000)).unwrap();
    let bindings = config.list_bindings();
    assert_eq!(bindings.len(), 1);
    assert_eq!(bindings[0].port, 3000);
}

#[test]
fn test_duplicate_binding() {
    let mut config = PortConfig::new();
    let binding = mock_binding(3000);
    config.add_binding(binding.clone()).unwrap();
    assert!(config.add_binding(binding).is_err());
}

#[test]
fn port_errors_are_exact() {
    let mut config = PortConfig::default();
    assert_eq!(config.validate_port(1023), Err(PortError::Reserved(1023)));
    assert_eq!(config.validate_port(1024), Ok(()));
    assert_eq!(config.add_binding(mock_binding(80)), Err(PortError::Reserved(80)));
    assert!(config.get_binding(80).is_none());
    config.add_binding(mock_binding(3000)).unwrap();
    let mut other = mock_binding(3000);
    other.enabled = false;
    assert_eq!(config.add_binding(other), Err(PortError::AlreadyBound(3000)));
    assert_eq!(config.get_binding(3000), Some(&mock_binding(3000)));
    assert_eq!(config.remove_binding(4000), Err(PortError::NotBound(4000)));
    assert_eq!(config.list_bindings().len(), 1);

    assert_eq!(
        PortError::Reserved(80).message(),
        "Ports below 1024 are reserved for system services"
    );
    assert_eq!(PortError::AlreadyBound(3000).message(), "Port 3000 is already bound");
    assert_eq!(PortError::NotBound(4000).message(), "No binding found for port 4000");
}

fn default_config_case() {
    let config = NetworkConfig::default();
    assert_eq!(config.default_interface, InterfaceType::Loopback);
    assert!(config.port_bindings.is_empty());
}

#[test]
fn network_config_test_default_config() {
    default_config_case();
}

#[test]
fn config_test_default_config() {
    default_config_case();
    assert_eq!(NetworkConfig::new(), NetworkConfig::default());
}

#[test]
fn bindings_are_found_by_port() {
    let mut config = NetworkConfig::new();
    config.port_bindings.push(mock_binding(3000));
    let mut off = mock_binding(3001);
    off.enabled = false;
    config.port_bindings.push(off);
    config.port_bindings.push(mock_binding(3001));
    assert_eq!(config.find_binding(3000), Some(0));
    assert_eq!(config.find_binding(3001), Some(1));
    assert_eq!(config.find_binding(3002), None);
    assert!(config.wants(3000));
    assert!(config.wants(3001));
    assert!(!config.wants(3002));
    config.port_bindings.pop();
    assert!(!config.wants(3001));
    let copy = config.clone();
    assert_eq!(copy, config);
}
