use chaseai::context::{InstructionContext, ValidationError};
use chaseai::error::ContextError;
use chaseai::manager::ContextManager;
use chaseai::network::{
    InterfaceType, IpAddress, NetworkConfig, NetworkInterface, PortBinding, PortRole,
};
use chaseai::storage::{ContextStorage, WriteOutcome};

fn binding(port: u16, enabled: bool) -> PortBinding {
    PortBinding {
        port,
        interface: NetworkInterface {
            name: "lo".to_string(),
            ip_address: IpAddress::V4(127, 0, 0, 1),
            interface_type: InterfaceType::Loopback,
        },
        role: PortRole::Instruction,
        enabled,
    }
}

fn create_test_config() -> NetworkConfig {
    let mut config = NetworkConfig::new();
    config.port_bindings.push(binding(3000, true));
    config
}

fn create_test_context() -> InstructionContext {
    InstructionContext::new(
        "sys".to_string(),
        "role".to_string(),
        "inst".to_string(),
        vec!["action".to_string()],
        false,
    )
    .unwrap()
}

fn fresh_manager() -> ContextManager {
    let storage = ContextStorage::with_path("contexts.json".to_string());
    ContextManager::new_with_storage(storage).unwrap()
}

fn lifecycle() {
    let mut manager = fresh_manager();
    let config = create_test_config();

    let context = create_test_context();

    // Create
    manager
        .set_context(3000, context.clone(), &config, WriteOutcome::Written)
        .unwrap();
    assert_eq!(manager.get_context(3000), Some(&context));

    // List
    let list = manager.list_contexts();
    assert_eq!(list.len(), 1);

    // Update
    let mut new_context = context.clone();
    new_context.role = "updated".to_string();
    manager
        .set_context(3000, new_context.clone(), &config, WriteOutcome::Written)
        .unwrap();
    assert_eq!(manager.get_context(3000).unwrap().role, "updated");

    // Delete
    manager.delete_context(3000, WriteOutcome::Written).unwrap();
    assert!(manager.get_context(3000).is_none());
}

fn invalid_port() {
    let mut manager = fresh_manager();
    let config = create_test_config(); // Only has port 3000

    let context = create_test_context();

    // Try binding to 4000 (not in config)
    let result = manager.set_context(4000, context, &config, WriteOutcome::Written);
    assert!(result.is_err());
    assert!(result.unwrap_err().message().contains("not configured"));
}

#[test]
fn manager_test_context_lifecycle() {
    lifecycle();
}

#[test]
fn manager_test_invalid_port() {
    invalid_port();
}

#[test]
fn instruction_test_context_lifecycle() {
    lifecycle();
}

#[test]
fn instruction_test_invalid_port() {
    let mut manager = fresh_manager();
    let config = create_test_config();
    let context = create_test_context();
    let result = manager.set_context(4000, context, &config, WriteOutcome::Written);
    assert!(result.is_err());
}

#[test]
fn set_context_reports_unconfigured_port_exactly() {
    let mut manager = fresh_manager();
    let config = create_test_config();
    let result = manager.set_context(4000, create_test_context(), &config, WriteOutcome::Written);
    assert_eq!(result, Err(ContextError::PortNotConfigured(4000)));
    assert!(result.unwrap_err().is_configuration_error());
    assert!(manager.get_context(4000).is_none());
    assert_eq!(manager.list_contexts().len(), 0);
}

#[test]
fn set_context_reports_disabled_port() {
    let mut manager = fresh_manager();
    let mut config = create_test_config();
    config.port_bindings.push(binding(3001, false));
    let result = manager.set_context(3001, create_test_context(), &config, WriteOutcome::Written);
    assert_eq!(result, Err(ContextError::PortDisabled(3001)));
    assert_eq!(
        ContextError::PortDisabled(3001).message(),
        "Port 3001 is disabled"
    );
    assert!(manager.get_context(3001).is_none());
}

#[test]
fn configuration_is_consulted_before_the_document() {
    let mut manager = fresh_manager();
    let config = create_test_config();
    let mut broken = create_test_context();
    broken.system = "".to_string();
    let result = manager.set_context(4000, broken, &config, WriteOutcome::Written);
    assert_eq!(result, Err(ContextError::PortNotConfigured(4000)));
}

#[test]
fn set_context_refuses_an_invalid_document_and_changes_nothing() {
    let mut manager = fresh_manager();
    let config = create_test_config();
    let good = create_test_context();
    manager
        .set_context(3000, good.clone(), &config, WriteOutcome::Written)
        .unwrap();

    let mut broken = create_test_context();
    broken.allowed_actions = vec!["Bad Action".to_string()];
    let result = manager.set_context(3000, broken, &config, WriteOutcome::Written);
    assert_eq!(
        result,
        Err(ContextError::Validation(ValidationError::InvalidAction(
            "Bad Action".to_string()
        )))
    );
    assert_eq!(manager.get_context(3000), Some(&good));
}

#[test]
fn a_failed_write_leaves_memory_and_store_as_they_were() {
    let mut manager = fresh_manager();
    let config = create_test_config();
    let result = manager.set_context(3000, create_test_context(), &config, WriteOutcome::Failed);
    assert_eq!(result, Err(ContextError::Persistence));
    assert!(manager.get_context(3000).is_none());
    assert!(manager.storage().load_all().is_empty());

    manager
        .set_context(3000, create_test_context(), &config, WriteOutcome::Written)
        .unwrap();
    let result = manager.delete_context(3000, WriteOutcome::Failed);
    assert_eq!(result, Err(ContextError::Persistence));
    assert_eq!(manager.get_context(3000), Some(&create_test_context()));
    assert_eq!(manager.storage().load_all().len(), 1);
}

#[test]
fn deleting_an_absent_port_succeeds_whatever_the_store_does() {
    let mut manager = fresh_manager();
    assert_eq!(manager.delete_context(3000, WriteOutcome::Failed), Ok(()));
    assert_eq!(manager.delete_context(3000, WriteOutcome::Written), Ok(()));
    assert!(manager.pending_delete(3000).is_none());
}

#[test]
fn a_deleted_context_is_gone_after_reloading_from_the_store() {
    let mut manager = fresh_manager();
    let mut config = create_test_config();
    config.port_bindings.push(binding(3001, true));
    manager
        .set_context(3000, create_test_context(), &config, WriteOutcome::Written)
        .unwrap();
    manager
        .set_context(3001, create_test_context(), &config, WriteOutcome::Written)
        .unwrap();
    manager.delete_context(3000, WriteOutcome::Written).unwrap();
    assert!(manager.get_context(3000).is_none());

    let entries = ContextStorage::document_for(&manager.storage().load_all());
    let store = ContextStorage::with_contents("contexts.json".to_string(), entries);
    let fresh = ContextManager::new_with_storage(store).unwrap();
    assert!(fresh.get_context(3000).is_none());
    assert_eq!(fresh.get_context(3001), Some(&create_test_context()));
}

#[test]
fn pending_set_lists_what_the_store_has_to_hold() {
    let mut manager = fresh_manager();
    let mut config = create_test_config();
    config.port_bindings.push(binding(3001, true));
    manager
        .set_context(3000, create_test_context(), &config, WriteOutcome::Written)
        .unwrap();

    let mut other = create_test_context();
    other.role = "other".to_string();
    let pending = manager.pending_set(3001, &other, &config).unwrap();
    assert_eq!(pending.len(), 2);
    assert!(pending.iter().any(|e| e.port == 3000 && e.context == create_test_context()));
    assert!(pending.iter().any(|e| e.port == 3001 && e.context == other));

    let replaced = manager.pending_set(3000, &other, &config).unwrap();
    assert_eq!(replaced.len(), 1);
    assert_eq!(replaced[0].port, 3000);
    assert_eq!(replaced[0].context, other);

    assert_eq!(
        manager.pending_set(4000, &other, &config),
        Err(ContextError::PortNotConfigured(4000))
    );

    let pending = manager.pending_delete(3000).unwrap();
    assert!(pending.is_empty());
}

#[test]
fn contexts_of_two_ports_are_kept_apart() {
    let mut manager = fresh_manager();
    let mut config = create_test_config();
    config.port_bindings.push(binding(3001, true));
    let a = create_test_context();
    let mut b = create_test_context();
    b.system = "other".to_string();
    manager
        .set_context(3000, a.clone(), &config, WriteOutcome::Written)
        .unwrap();
    manager
        .set_context(3001, b.clone(), &config, WriteOutcome::Written)
        .unwrap();
    assert_eq!(manager.get_context(3000), Some(&a));
    assert_eq!(manager.get_context(3001), Some(&b));
    let mut listed = manager.list_contexts();
    listed.sort_by_key(|entry| entry.0);
    assert_eq!(listed, vec![(3000, &a), (3001, &b)]);
}

#[test]
fn a_port_is_allowed_when_an_enabled_binding_names_it() {
    let manager = fresh_manager();
    let mut config = NetworkConfig::new();
    config.port_bindings.push(binding(3000, false));
    assert_eq!(manager.validate_port(3000, &config), Err(ContextError::PortDisabled(3000)));
    assert_eq!(manager.validate_port(3001, &config), Err(ContextError::PortNotConfigured(3001)));
    config.port_bindings.push(binding(3000, true));
    assert_eq!(manager.validate_port(3000, &config), Ok(()));
    config.port_bindings.remove(0);
    assert_eq!(manager.validate_port(3000, &config), Ok(()));
    config.port_bindings[0].enabled = false;
    assert_eq!(manager.validate_port(3000, &config), Err(ContextError::PortDisabled(3000)));
}

#[test]
fn error_messages_are_exact() {
    assert_eq!(
        ContextError::PortNotConfigured(4000).message(),
        "Port 4000 is not configured in network settings"
    );
    assert_eq!(
        ContextError::Validation(ValidationError::EmptySystem).message(),
        "System identifier cannot be empty"
    );
    assert_eq!(
        ContextError::Validation(ValidationError::InvalidAction("Run".to_string())).message(),
        "Invalid action name 'Run': must start with a lowercase letter and contain only lowercase letters, numbers, and hyphens"
    );
    assert_eq!(
        ContextError::NoConfigDirectory.message(),
        "Could not determine configuration directory"
    );
    assert!(!ContextError::Persistence.is_configuration_error());
}

#[test]
fn a_manager_without_a_configuration_directory_fails() {
    assert!(matches!(
        ContextManager::new(None),
        Err(ContextError::NoConfigDirectory)
    ));
    let manager = ContextManager::new(Some("/home/user/.config")).unwrap();
    assert_eq!(
        manager.storage().path(),
        "/home/user/.config/chaseai/contexts.json"
    );
    assert!(manager.list_contexts().is_empty());
}
