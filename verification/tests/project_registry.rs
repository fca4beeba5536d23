use project_registry::{ProjectRegistration, ProjectRegistry, RegistryError};

#[test]
fn test_register_and_validate() {
    let mut registry = ProjectRegistry::new();

    // Register a namespace
    let reg = registry
        .register_namespace("ECommerce".to_string(), "ecommerce-app".to_string())
        .unwrap();

    assert_eq!(reg.namespace, "ECommerce");
    assert_eq!(reg.project_id, "ecommerce-app");

    // Validate ownership with correct project_id
    registry
        .validate_ownership("ECommerce", "ecommerce-app")
        .unwrap();

    // Same project re-registering same namespace should succeed (multi-dev)
    let re_reg = registry
        .register_namespace("ECommerce".to_string(), "ecommerce-app".to_string())
        .unwrap();
    assert_eq!(re_reg.project_id, "ecommerce-app");

    // Different project registering same namespace should fail
    let err = registry
        .register_namespace("ECommerce".to_string(), "other-project".to_string())
        .unwrap_err();
    assert!(err.message().contains("already owned"));
}

#[test]
fn test_same_project_updates_timestamp() {
    let mut registry = ProjectRegistry::new();

    let first = registry
        .register_namespace("ECommerce".to_string(), "ecommerce-app".to_string())
        .unwrap();

    let second = registry
        .register_namespace("ECommerce".to_string(), "ecommerce-app".to_string())
        .unwrap();

    assert_eq!(first.first_deployed, second.first_deployed);
    assert!(second.last_deployed >= first.last_deployed);
}

#[test]
fn test_invalid_ownership() {
    let mut registry = ProjectRegistry::new();

    registry
        .register_namespace("ECommerce".to_string(), "ecommerce-app".to_string())
        .unwrap();

    // Validate with wrong project_id should fail
    let err = registry
        .validate_ownership("ECommerce", "wrong-project")
        .unwrap_err();
    assert!(err.message().contains("already owned"));

    // Validate with correct project_id should succeed
    registry
        .validate_ownership("ECommerce", "ecommerce-app")
        .unwrap();
}

#[test]
fn test_unregistered_namespace_passes_validation() {
    let registry = ProjectRegistry::new();

    // Validating a namespace that doesn't exist should pass (no owner yet)
    registry
        .validate_ownership("NewNamespace", "any-project")
        .unwrap();
}

#[test]
fn test_update_registration() {
    let mut registry = ProjectRegistry::new();

    registry
        .register_namespace("ECommerce".to_string(), "ecommerce-app".to_string())
        .unwrap();

    // Update with table names
    registry
        .update_registration(
            "ECommerce",
            vec!["products".to_string(), "orders".to_string()],
        )
        .unwrap();

    // Verify update
    let reg = registry.get_registration("ECommerce").unwrap().unwrap();
    assert_eq!(reg.table_names.len(), 2);
    assert_eq!(reg.table_names[0], "products");
}

#[test]
fn test_get_all_registrations() {
    let mut registry = ProjectRegistry::new();

    registry
        .register_namespace("ECommerce".to_string(), "ecommerce-app".to_string())
        .unwrap();

    registry
        .register_namespace("UserService".to_string(), "user-service".to_string())
        .unwrap();

    let all = registry.get_all_registrations().unwrap();
    assert_eq!(all.len(), 2);
}

fn registration(namespace: &str, project_id: &str, first: i64, last: i64, tables: &[&str]) -> ProjectRegistration {
    ProjectRegistration {
        namespace: namespace.to_string(),
        project_id: project_id.to_string(),
        first_deployed: first,
        last_deployed: last,
        table_names: tables.iter().map(|t| t.to_string()).collect(),
    }
}

#[test]
fn fresh_claim_has_both_times_and_no_tables() {
    let mut registry = ProjectRegistry::new();
    let reg = registry
        .register_namespace_at("Analytics_V2".to_string(), "analytics".to_string(), 1_700_000_000)
        .unwrap();
    assert_eq!(reg.namespace, "Analytics_V2");
    assert_eq!(reg.project_id, "analytics");
    assert_eq!(reg.first_deployed, 1_700_000_000);
    assert_eq!(reg.last_deployed, 1_700_000_000);
    assert!(reg.table_names.is_empty());
    let stored = registry.get_registration("Analytics_V2").unwrap().unwrap();
    assert_eq!(stored.first_deployed, 1_700_000_000);
}

#[test]
fn reclaim_keeps_first_deployed_and_tables() {
    let mut registry = ProjectRegistry::new();
    registry
        .register_namespace_at("ECommerce".to_string(), "ecommerce-app".to_string(), 100)
        .unwrap();
    registry
        .update_registration_at("ECommerce", vec!["products".to_string()], 150)
        .unwrap();
    let again = registry
        .register_namespace_at("ECommerce".to_string(), "ecommerce-app".to_string(), 200)
        .unwrap();
    assert_eq!(again.first_deployed, 100);
    assert_eq!(again.last_deployed, 200);
    assert_eq!(again.table_names, vec!["products".to_string()]);
    let stored = registry.get_registration("ECommerce").unwrap().unwrap();
    assert_eq!(stored.last_deployed, 200);
    assert_eq!(stored.table_names, vec!["products".to_string()]);
}

#[test]
fn refused_claim_names_owner_and_changes_nothing() {
    let mut registry = ProjectRegistry::new();
    registry
        .register_namespace_at("ECommerce".to_string(), "ecommerce-app".to_string(), 10)
        .unwrap();
    let err = registry
        .register_namespace_at("ECommerce".to_string(), "other-project".to_string(), 20)
        .unwrap_err();
    match &err {
        RegistryError::NamespaceConflict { namespace, owner } => {
            assert_eq!(namespace, "ECommerce");
            assert_eq!(owner, "ecommerce-app");
        }
        RegistryError::NamespaceNotRegistered | RegistryError::ClockBeforeEpoch => panic!("wrong error"),
    }
    assert_eq!(
        err.message(),
        "Namespace 'ECommerce' is already owned by project 'ecommerce-app'. Use a different namespace or the same project_id."
    );
    let stored = registry.get_registration("ECommerce").unwrap().unwrap();
    assert_eq!(stored.project_id, "ecommerce-app");
    assert_eq!(stored.last_deployed, 10);
}

#[test]
fn update_of_unregistered_namespace_is_refused() {
    let mut registry = ProjectRegistry::new();
    let err = registry
        .update_registration("Missing", vec!["t".to_string()])
        .unwrap_err();
    assert!(matches!(err, RegistryError::NamespaceNotRegistered));
    assert_eq!(err.message(), "Namespace not registered");
    assert!(registry.get_registration("Missing").unwrap().is_none());
    assert!(registry.get_all_registrations().unwrap().is_empty());
}

#[test]
fn update_sets_tables_and_time_only() {
    let mut registry = ProjectRegistry::new();
    registry
        .register_namespace_at("UserService".to_string(), "user-service".to_string(), 5)
        .unwrap();
    registry
        .update_registration_at("UserService", vec!["users".to_string(), "sessions".to_string()], 9)
        .unwrap();
    let reg = registry.get_registration("UserService").unwrap().unwrap();
    assert_eq!(reg.project_id, "user-service");
    assert_eq!(reg.first_deployed, 5);
    assert_eq!(reg.last_deployed, 9);
    assert_eq!(reg.table_names, vec!["users".to_string(), "sessions".to_string()]);
}

#[test]
fn other_namespaces_are_untouched() {
    let mut registry = ProjectRegistry::new();
    registry
        .register_namespace_at("A".to_string(), "p".to_string(), 1)
        .unwrap();
    registry
        .register_namespace_at("B".to_string(), "q".to_string(), 2)
        .unwrap();
    registry
        .update_registration_at("B", vec!["x".to_string()], 3)
        .unwrap();
    let a = registry.get_registration("A").unwrap().unwrap();
    assert_eq!(a.project_id, "p");
    assert_eq!(a.first_deployed, 1);
    assert_eq!(a.last_deployed, 1);
    assert!(a.table_names.is_empty());
}

#[test]
fn get_registration_of_unknown_namespace_is_none() {
    let registry = ProjectRegistry::default();
    assert!(registry.get_registration("Nobody").unwrap().is_none());
    assert!(registry.get_all_registrations().unwrap().is_empty());
}

#[test]
fn all_registrations_lists_each_once() {
    let mut registry = ProjectRegistry::new();
    registry.register_namespace_at("A".to_string(), "p".to_string(), 1).unwrap();
    registry.register_namespace_at("B".to_string(), "q".to_string(), 2).unwrap();
    registry.register_namespace_at("A".to_string(), "p".to_string(), 3).unwrap();
    let mut all: Vec<(String, i64)> = registry
        .get_all_registrations()
        .unwrap()
        .into_iter()
        .map(|r| (r.namespace, r.last_deployed))
        .collect();
    all.sort();
    assert_eq!(all, vec![("A".to_string(), 3), ("B".to_string(), 2)]);
}

#[test]
fn rebuild_from_entries_gives_same_registrations() {
    let mut registry = ProjectRegistry::new();
    registry.register_namespace_at("A".to_string(), "p".to_string(), 1).unwrap();
    registry.register_namespace_at("B".to_string(), "q".to_string(), 2).unwrap();
    registry.update_registration_at("B", vec!["t1".to_string()], 4).unwrap();
    let rebuilt = ProjectRegistry::from_entries(registry.entries());
    let b = rebuilt.get_registration("B").unwrap().unwrap();
    assert_eq!(b.project_id, "q");
    assert_eq!(b.first_deployed, 2);
    assert_eq!(b.last_deployed, 4);
    assert_eq!(b.table_names, vec!["t1".to_string()]);
    assert_eq!(rebuilt.get_all_registrations().unwrap().len(), 2);
    rebuilt.validate_ownership("A", "q").unwrap_err();
}

#[test]
fn from_entries_later_pair_wins() {
    let entries = vec![
        ("A".to_string(), registration("A", "p", 1, 1, &[])),
        ("B".to_string(), registration("B", "q", 2, 2, &["x"])),
        ("A".to_string(), registration("A", "r", 3, 4, &["y"])),
    ];
    let registry = ProjectRegistry::from_entries(entries);
    assert_eq!(registry.get_all_registrations().unwrap().len(), 2);
    let a = registry.get_registration("A").unwrap().unwrap();
    assert_eq!(a.project_id, "r");
    assert_eq!(a.last_deployed, 4);
    assert_eq!(registry.entries().len(), 2);
}

#[test]
fn entry_key_governs_lookup() {
    // A stored key that differs from the registration's own namespace field
    // is what lookups go by.
    let registry = ProjectRegistry::from_entries(vec![(
        "Key".to_string(),
        registration("Other", "p", 1, 1, &[]),
    )]);
    assert!(registry.get_registration("Other").unwrap().is_none());
    let r = registry.get_registration("Key").unwrap().unwrap();
    assert_eq!(r.namespace, "Other");
}

#[test]
fn clock_stamps_after_the_epoch() {
    let mut registry = ProjectRegistry::new();
    let reg = registry
        .register_namespace("ECommerce".to_string(), "ecommerce-app".to_string())
        .unwrap();
    assert!(reg.first_deployed > 1_600_000_000);
    assert_eq!(reg.first_deployed, reg.last_deployed);
}

#[test]
fn registration_clone_keeps_fields() {
    let r = registration("A", "p", 1, 2, &["t"]);
    let c = r.clone();
    assert_eq!(c.namespace, "A");
    assert_eq!(c.project_id, "p");
    assert_eq!(c.first_deployed, 1);
    assert_eq!(c.last_deployed, 2);
    assert_eq!(c.table_names, vec!["t".to_string()]);
}

#[test]
fn clock_error_message() {
    assert_eq!(
        RegistryError::ClockBeforeEpoch.message(),
        "System clock reads a time before the Unix epoch"
    );
}
