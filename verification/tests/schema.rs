use tikeo::notification_schema::{
    notification_center_indexes, notification_menu_binding_id, notification_menu_roles,
    notification_permission_seeds, notification_role_grants, notification_template_indexes,
};
use tikeo::storage_compat::{
    auth_schema_statements, broadcast_schema_statements, column_listed,
    ADD_EXECUTION_MODE_COLUMN_SQL, CREATE_JOB_INSTANCE_ATTEMPTS_SQL, CREATE_USERS_SQL,
};

#[test]
fn notification_permissions_and_grants() {
    let seeds = notification_permission_seeds();
    let ids: Vec<&str> = seeds.iter().map(|s| s.id).collect();
    assert_eq!(
        ids,
        vec![
            "perm-audit-manage",
            "perm-notifications-read",
            "perm-notifications-manage",
            "perm-notifications-test"
        ]
    );
    let grants = notification_role_grants();
    assert_eq!(grants.len(), 3);
    assert_eq!(grants[2].role_id, "role-viewer");
    assert_eq!(grants[2].permission_ids, vec!["perm-notifications-read"]);
    assert_eq!(grants[1].permission_ids.len(), 5);
    assert_eq!(notification_menu_roles(), vec!["role-owner", "role-operator", "role-viewer"]);
    assert_eq!(notification_menu_binding_id("role-owner"), "rmp-role-owner-_notifications");
}

#[test]
fn notification_indexes() {
    let center = notification_center_indexes();
    assert_eq!(center.len(), 4);
    assert!(center[0].unique);
    assert_eq!(center[0].columns, vec!["scope_type", "namespace", "app", "worker_pool", "name"]);
    let templates = notification_template_indexes();
    assert_eq!(templates.len(), 2);
    assert_eq!(templates[0].name, "idx_notification_templates_key");
    assert!(templates[0].unique);
    assert_eq!(templates[1].columns, vec!["provider", "message_type"]);
    assert!(!templates[1].unique);
}

#[test]
fn broadcast_schema_adds_missing_column_first() {
    let without = broadcast_schema_statements(false);
    assert_eq!(without.len(), 4);
    assert_eq!(without[0], ADD_EXECUTION_MODE_COLUMN_SQL);
    assert_eq!(without[1], CREATE_JOB_INSTANCE_ATTEMPTS_SQL);
    let with = broadcast_schema_statements(true);
    assert_eq!(with.len(), 3);
    assert_eq!(with[0], CREATE_JOB_INSTANCE_ATTEMPTS_SQL);
}

#[test]
fn auth_schema_seeds_admin_at_given_time() {
    let statements = auth_schema_statements("2026-01-01T00:00:00Z");
    assert_eq!(statements.len(), 6);
    assert_eq!(statements[0], CREATE_USERS_SQL);
    assert!(statements[5].ends_with("'2026-01-01T00:00:00Z')"));
    assert!(statements[5].starts_with("INSERT OR IGNORE INTO users"));
}

#[test]
fn column_listing() {
    let names = vec!["id".to_owned(), "execution_mode".to_owned()];
    assert!(column_listed(&names, "execution_mode"));
    assert!(!column_listed(&names, "status"));
    assert!(!column_listed(&Vec::new(), "id"));
}
