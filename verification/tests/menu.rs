use chaseai::dialogs::PortConfig;
use chaseai::menu::{
    add_port, apply_command, interface_for, next_candidate_port, parse_menu_event, parse_role,
    process_menu_event, remove_port, select_interface, set_all_enabled, set_role, toggle_port,
    MenuCommand, MenuEffect, MenuOutcome, FIRST_DEFAULT_PORT,
};
use chaseai::network::{
    InterfaceType, IpAddress, NetworkConfig, NetworkInterface, PortBinding, PortRole,
};

fn loopback() -> NetworkInterface {
    NetworkInterface {
        name: "lo0".to_string(),
        ip_address: IpAddress::V4(127, 0, 0, 1),
        interface_type: InterfaceType::Loopback,
    }
}

fn lan() -> NetworkInterface {
    NetworkInterface {
        name: "en0".to_string(),
        ip_address: IpAddress::V4(192, 168, 1, 20),
        interface_type: InterfaceType::Lan,
    }
}

fn binding(port: u16, enabled: bool) -> PortBinding {
    PortBinding { port, interface: loopback(), role: PortRole::Instruction, enabled }
}

fn config_with_default_port() -> NetworkConfig {
    let mut config = NetworkConfig::new();
    config.port_bindings.push(binding(8888, true));
    config
}

fn plain(changed: bool) -> MenuOutcome {
    MenuOutcome { changed, should_exit: false, effect: MenuEffect::Nothing }
}

#[test]
fn test_process_menu_event_quit() {
    let mut config = NetworkConfig::new();
    assert!(process_menu_event(&mut config, "quit", &Vec::new()).should_exit);
}

#[test]
fn test_process_menu_event_unknown() {
    let mut config = NetworkConfig::new();
    assert!(!process_menu_event(&mut config, "unknown_event", &Vec::new()).should_exit);
}

#[test]
fn test_process_menu_event_toggle_all() {
    let mut config = NetworkConfig::new();
    config.port_bindings.push(binding(8888, true));
    config.port_bindings.push(binding(8889, false));
    process_menu_event(&mut config, "cmd:enable_all", &Vec::new());
    assert!(config.port_bindings.iter().all(|b| b.enabled));

    process_menu_event(&mut config, "cmd:disable_all", &Vec::new());
    assert!(config.port_bindings.iter().all(|b| !b.enabled));
}

#[test]
fn test_process_menu_event_interface() {
    let mut config = NetworkConfig::new();
    config.default_interface = InterfaceType::Lan;
    let event = format!("interface:{}", "lo0");
    process_menu_event(&mut config, &event, &vec![lan(), loopback()]);
    assert_eq!(config.default_interface, InterfaceType::Loopback);
}

#[test]
fn test_process_menu_event_port_toggle() {
    let mut config = config_with_default_port();
    let port = config.port_bindings[0].port;
    let id = format!("port:{}", port);

    let initial_enabled = config.port_bindings[0].enabled;
    process_menu_event(&mut config, &id, &Vec::new());
    assert_eq!(config.port_bindings[0].enabled, !initial_enabled);
}

#[test]
fn test_process_menu_event_remove_port() {
    let mut config = config_with_default_port();
    let port = config.port_bindings[0].port;
    let id = format!("remove_port:{}", port);

    process_menu_event(&mut config, &id, &Vec::new());
    assert!(!config.port_bindings.iter().any(|b| b.port == port));
}

#[test]
fn test_process_menu_event_role_change() {
    let mut config = config_with_default_port();
    let port = config.port_bindings[0].port;
    let id = format!("role:{}:Verification", port);

    process_menu_event(&mut config, &id, &Vec::new());
    assert_eq!(config.port_bindings[0].role, PortRole::Verification);
}

#[test]
fn test_process_menu_event_add_port_noop() {
    let mut config = NetworkConfig::new();
    let outcome = process_menu_event(&mut config, "cmd:add_port", &Vec::new());
    assert_eq!(
        outcome,
        MenuOutcome { changed: true, should_exit: false, effect: MenuEffect::AddPort }
    );
    assert_eq!(config, NetworkConfig::new());
}

#[test]
fn test_process_menu_event_download_config_noop() {
    let mut config = NetworkConfig::new();
    let outcome = process_menu_event(&mut config, "cmd:download_config", &Vec::new());
    assert_eq!(
        outcome,
        MenuOutcome { changed: false, should_exit: false, effect: MenuEffect::DownloadConfig }
    );
    assert_eq!(config, NetworkConfig::new());
}

#[test]
fn identifiers_are_read_exactly() {
    assert_eq!(parse_menu_event("quit"), MenuCommand::Quit);
    assert_eq!(parse_menu_event("Quit"), MenuCommand::Unknown);
    assert_eq!(parse_menu_event(""), MenuCommand::Unknown);
    assert_eq!(parse_menu_event("port:8080"), MenuCommand::TogglePort(8080));
    assert_eq!(parse_menu_event("port:+8080"), MenuCommand::TogglePort(8080));
    assert_eq!(parse_menu_event("port:0"), MenuCommand::TogglePort(0));
    assert_eq!(parse_menu_event("port:65535"), MenuCommand::TogglePort(65535));
    assert_eq!(parse_menu_event("port:65536"), MenuCommand::Unknown);
    assert_eq!(parse_menu_event("port:"), MenuCommand::Unknown);
    assert_eq!(parse_menu_event("port:80a"), MenuCommand::Unknown);
    assert_eq!(parse_menu_event("port: 80"), MenuCommand::Unknown);
    assert_eq!(parse_menu_event("remove_port:9000"), MenuCommand::RemovePort(9000));
    assert_eq!(parse_menu_event("remove_port:x"), MenuCommand::Unknown);
    assert_eq!(
        parse_menu_event("role:9000:Instruction"),
        MenuCommand::SetRole(9000, Some(PortRole::Instruction))
    );
    assert_eq!(
        parse_menu_event("role:9000:Verification"),
        MenuCommand::SetRole(9000, Some(PortRole::Verification))
    );
    assert_eq!(parse_menu_event("role:9000:Workflow"), MenuCommand::SetRole(9000, None));
    assert_eq!(parse_menu_event("role:9000"), MenuCommand::Unknown);
    assert_eq!(parse_menu_event("role:9000:Instruction:x"), MenuCommand::Unknown);
    assert_eq!(parse_menu_event("role:abc:Instruction"), MenuCommand::Unknown);
    assert_eq!(
        parse_menu_event("interface:en0"),
        MenuCommand::SelectInterface("en0".chars().collect())
    );
    assert_eq!(parse_menu_event("interface:"), MenuCommand::SelectInterface(Vec::new()));
    assert_eq!(parse_menu_event("cmd:enable_all"), MenuCommand::EnableAll);
    assert_eq!(parse_menu_event("cmd:disable_all"), MenuCommand::DisableAll);
    assert_eq!(parse_menu_event("cmd:add_port"), MenuCommand::AddPort);
    assert_eq!(parse_menu_event("cmd:download_config"), MenuCommand::DownloadConfig);
    assert_eq!(parse_menu_event("cmd:open_repo"), MenuCommand::OpenRepository);
    assert_eq!(parse_menu_event("cmd:other"), MenuCommand::Unknown);

    assert_eq!(parse_role(&"Instruction".chars().collect()), Some(PortRole::Instruction));
    assert_eq!(parse_role(&"instruction".chars().collect()), None);
}

#[test]
fn only_the_first_binding_of_a_port_is_toggled() {
    let mut config = NetworkConfig::new();
    config.port_bindings.push(binding(1, true));
    config.port_bindings.push(binding(2, true));
    config.port_bindings.push(binding(2, true));
    assert!(toggle_port(&mut config, 2));
    assert_eq!(
        config.port_bindings,
        vec![binding(1, true), binding(2, false), binding(2, true)]
    );
    assert!(!toggle_port(&mut config, 3));
    assert_eq!(process_menu_event(&mut config, "port:3", &Vec::new()), plain(false));
    assert_eq!(process_menu_event(&mut config, "port:1", &Vec::new()), plain(true));
    assert!(!config.port_bindings[0].enabled);
}

#[test]
fn removing_a_port_takes_out_all_its_bindings_and_always_counts_as_a_change() {
    let mut config = NetworkConfig::new();
    config.port_bindings.push(binding(1, true));
    config.port_bindings.push(binding(2, true));
    config.port_bindings.push(binding(1, false));
    remove_port(&mut config, 1);
    assert_eq!(config.port_bindings, vec![binding(2, true)]);
    assert_eq!(process_menu_event(&mut config, "remove_port:7", &Vec::new()), plain(true));
    assert_eq!(config.port_bindings, vec![binding(2, true)]);
}

#[test]
fn a_role_that_is_not_known_leaves_the_role_and_still_counts_as_a_change() {
    let mut config = config_with_default_port();
    assert_eq!(
        process_menu_event(&mut config, "role:8888:Workflow", &Vec::new()),
        plain(true)
    );
    assert_eq!(config.port_bindings[0].role, PortRole::Instruction);
    assert!(set_role(&mut config, 8888, Some(PortRole::Verification)));
    assert_eq!(config.port_bindings[0].role, PortRole::Verification);
    assert!(!set_role(&mut config, 1, Some(PortRole::Verification)));
    assert_eq!(
        process_menu_event(&mut config, "role:1:Instruction", &Vec::new()),
        plain(false)
    );
}

#[test]
fn selecting_an_interface_moves_every_binding() {
    let mut config = NetworkConfig::new();
    config.port_bindings.push(binding(1, true));
    config.port_bindings.push(binding(2, false));
    let name: Vec<char> = "en0".chars().collect();
    assert!(select_interface(&mut config, &name, &vec![loopback(), lan()]));
    assert_eq!(config.default_interface, InterfaceType::Lan);
    assert!(config.port_bindings.iter().all(|b| b.interface == lan()));
    assert_eq!(config.port_bindings[0].port, 1);
    assert!(!config.port_bindings[1].enabled);

    let before = config.clone();
    let missing: Vec<char> = "wlan9".chars().collect();
    assert!(!select_interface(&mut config, &missing, &vec![loopback(), lan()]));
    assert_eq!(config, before);
    assert_eq!(
        process_menu_event(&mut config, "interface:lo0", &Vec::new()),
        plain(false)
    );
    assert_eq!(config, before);
}

#[test]
fn every_binding_is_turned_on_or_off() {
    let mut config = NetworkConfig::new();
    config.port_bindings.push(binding(1, true));
    config.port_bindings.push(binding(2, false));
    set_all_enabled(&mut config, false);
    assert_eq!(config.port_bindings, vec![binding(1, false), binding(2, false)]);
    set_all_enabled(&mut config, true);
    assert_eq!(config.port_bindings, vec![binding(1, true), binding(2, true)]);
    let mut empty = NetworkConfig::new();
    assert_eq!(process_menu_event(&mut empty, "cmd:enable_all", &Vec::new()), plain(true));
}

#[test]
fn commands_without_a_change_leave_the_configuration() {
    let mut config = config_with_default_port();
    let before = config.clone();
    assert_eq!(
        apply_command(&mut config, &MenuCommand::OpenRepository, &Vec::new()),
        MenuOutcome { changed: false, should_exit: false, effect: MenuEffect::OpenRepository }
    );
    assert_eq!(
        apply_command(&mut config, &MenuCommand::Quit, &Vec::new()),
        MenuOutcome { changed: false, should_exit: true, effect: MenuEffect::Nothing }
    );
    assert_eq!(apply_command(&mut config, &MenuCommand::Unknown, &Vec::new()), plain(false));
    assert_eq!(config, before);
}

#[test]
fn the_next_candidate_port_is_the_first_that_is_not_bound() {
    let mut config = NetworkConfig::new();
    assert_eq!(FIRST_DEFAULT_PORT, 8888);
    assert_eq!(next_candidate_port(&config, 8888), 8888);
    config.port_bindings.push(binding(8888, true));
    config.port_bindings.push(binding(8890, false));
    config.port_bindings.push(binding(8889, true));
    assert_eq!(next_candidate_port(&config, 8888), 8891);
    assert_eq!(next_candidate_port(&config, 8892), 8892);
    assert_eq!(next_candidate_port(&config, 65535), 65535);
    config.port_bindings.push(binding(65534, true));
    assert_eq!(next_candidate_port(&config, 65534), 65535);
}

#[test]
fn a_port_is_added_on_the_default_kind_of_interface() {
    let mut config = config_with_default_port();
    config.default_interface = InterfaceType::Lan;
    let wanted = PortConfig { port: 9000, role: PortRole::Verification, enabled: true };
    assert!(add_port(&mut config, wanted, &vec![loopback(), lan()], loopback()));
    assert_eq!(
        config.port_bindings,
        vec![
            binding(8888, true),
            PortBinding {
                port: 9000,
                interface: lan(),
                role: PortRole::Verification,
                enabled: true,
            },
        ]
    );

    // a port that is bound already is not added again
    let again = PortConfig { port: 9000, role: PortRole::Instruction, enabled: false };
    let before = config.clone();
    assert!(!add_port(&mut config, again, &vec![lan()], loopback()));
    assert_eq!(config, before);

    // without an interface of the default kind the fallback is taken
    let other = PortConfig { port: 9001, role: PortRole::Instruction, enabled: false };
    assert!(add_port(&mut config, other, &vec![loopback()], loopback()));
    assert_eq!(config.port_bindings[2].interface, loopback());
    assert!(!config.port_bindings[2].enabled);
    assert_eq!(interface_for(&Vec::new(), InterfaceType::Public, lan()), lan());
}
