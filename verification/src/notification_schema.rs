//! Notification center schema: migration names, lookup indexes, and the
//! permissions, role grants and menu bindings that the migration seeds.
use vstd::prelude::*;

verus! {

/// Migration creating channels, policies, messages and delivery attempts.
pub const NOTIFICATION_CENTER_MIGRATION: &'static str = "m20260611_000001_notification_center";

/// Migration creating notification templates.
pub const NOTIFICATION_TEMPLATES_MIGRATION: &'static str = "m20260611_000002_notification_templates";

/// Migration removing example notification channels.
pub const NOTIFICATION_CHANNEL_EXAMPLES_CLEANUP_MIGRATION: &'static str =
    "m20260614_000001_notification_channel_examples_cleanup";

/// Statement removing the example notification channels.
pub const CLEANUP_NOTIFICATION_CHANNEL_EXAMPLES_SQL: &'static str =
    "DELETE FROM notification_channels WHERE id LIKE 'notification-channel-example-%'";

/// Menu key of the notification center.
pub const NOTIFICATION_MENU_KEY: &'static str = "/notifications";

/// A permission row seeded by the notification center migration.
#[derive(Debug)]
pub struct PermissionSeed {
    /// Permission id.
    pub id: &'static str,
    /// Protected resource.
    pub resource: &'static str,
    /// Permitted action.
    pub action: &'static str,
    /// Human-readable description.
    pub description: &'static str,
}

/// Permissions granted to one role.
#[derive(Debug)]
pub struct RoleGrant {
    /// Role id.
    pub role_id: &'static str,
    /// Granted permission ids.
    pub permission_ids: Vec<&'static str>,
}

/// A lookup index of the notification center tables.
#[derive(Debug)]
pub struct IndexSpec {
    /// Index name.
    pub name: &'static str,
    /// Indexed table.
    pub table: &'static str,
    /// Indexed columns, in order.
    pub columns: Vec<&'static str>,
    /// Whether the index enforces uniqueness.
    pub unique: bool,
}

/// Identity of a seeded permission: id, resource and action.
pub open spec fn permission_key(p: PermissionSeed) -> (Seq<char>, Seq<char>, Seq<char>) {
    (p.id@, p.resource@, p.action@)
}

/// Views of a list of texts.
pub open spec fn str_views(v: Seq<&'static str>) -> Seq<Seq<char>> {
    v.map_values(|s: &'static str| s@)
}

/// Permission rows back-filled for the audit and notification resources.
pub fn notification_permission_seeds() -> (seeds: Vec<PermissionSeed>)
    ensures
        seeds@.len() == 4,
        permission_key(seeds@[0]) == ("perm-audit-manage"@, "audit"@, "manage"@),
        seeds@[0].description@ == "Manage alert rules, alert recovery, and audit-governed operations"@,
        permission_key(seeds@[1]) == ("perm-notifications-read"@, "notifications"@, "read"@),
        seeds@[1].description@ == "Read notification channels, policies, messages, and delivery state"@,
        permission_key(seeds@[2]) == ("perm-notifications-manage"@, "notifications"@, "manage"@),
        seeds@[2].description@ == "Manage notification channels, policies, and provider readiness"@,
        permission_key(seeds@[3]) == ("perm-notifications-test"@, "notifications"@, "test"@),
        seeds@[3].description@ == "Send notification channel test messages"@,
{
    vec![
        PermissionSeed {
            id: "perm-audit-manage",
            resource: "audit",
            action: "manage",
            description: "Manage alert rules, alert recovery, and audit-governed operations",
        },
        PermissionSeed {
            id: "perm-notifications-read",
            resource: "notifications",
            action: "read",
            description: "Read notification channels, policies, messages, and delivery state",
        },
        PermissionSeed {
            id: "perm-notifications-manage",
            resource: "notifications",
            action: "manage",
            description: "Manage notification channels, policies, and provider readiness",
        },
        PermissionSeed {
            id: "perm-notifications-test",
            resource: "notifications",
            action: "test",
            description: "Send notification channel test messages",
        },
    ]
}

/// Role grants seeded with the notification permissions: owners manage and test,
/// operators also read audit logs, viewers only read notifications.
pub fn notification_role_grants() -> (grants: Vec<RoleGrant>)
    ensures
        grants@.len() == 3,
        grants@[0].role_id@ == "role-owner"@,
        str_views(grants@[0].permission_ids@) == seq![
            "perm-audit-manage"@,
            "perm-notifications-read"@,
            "perm-notifications-manage"@,
            "perm-notifications-test"@,
        ],
        grants@[1].role_id@ == "role-operator"@,
        str_views(grants@[1].permission_ids@) == seq![
            "perm-audit-read"@,
            "perm-audit-manage"@,
            "perm-notifications-read"@,
            "perm-notifications-manage"@,
            "perm-notifications-test"@,
        ],
        grants@[2].role_id@ == "role-viewer"@,
        str_views(grants@[2].permission_ids@) == seq!["perm-notifications-read"@],
{
    let owner = RoleGrant {
        role_id: "role-owner",
        permission_ids: vec![
            "perm-audit-manage",
            "perm-notifications-read",
            "perm-notifications-manage",
            "perm-notifications-test",
        ],
    };
    assert(str_views(owner.permission_ids@) =~= seq![
        "perm-audit-manage"@,
        "perm-notifications-read"@,
        "perm-notifications-manage"@,
        "perm-notifications-test"@,
    ]);
    let operator = RoleGrant {
        role_id: "role-operator",
        permission_ids: vec![
            "perm-audit-read",
            "perm-audit-manage",
            "perm-notifications-read",
            "perm-notifications-manage",
            "perm-notifications-test",
        ],
    };
    assert(str_views(operator.permission_ids@) =~= seq![
        "perm-audit-read"@,
        "perm-audit-manage"@,
        "perm-notifications-read"@,
        "perm-notifications-manage"@,
        "perm-notifications-test"@,
    ]);
    let viewer = RoleGrant { role_id: "role-viewer", permission_ids: vec!["perm-notifications-read"] };
    assert(str_views(viewer.permission_ids@) =~= seq!["perm-notifications-read"@]);
    vec![owner, operator, viewer]
}

/// Roles that see the notification center menu.
pub fn notification_menu_roles() -> (roles: Vec<&'static str>)
    ensures
        str_views(roles@) == seq!["role-owner"@, "role-operator"@, "role-viewer"@],
{
    let roles = vec!["role-owner", "role-operator", "role-viewer"];
    assert(str_views(roles@) =~= seq!["role-owner"@, "role-operator"@, "role-viewer"@]);
    roles
}

/// Id of the notification menu binding of a role: `rmp-{role_id}-_notifications`.
pub fn notification_menu_binding_id(role_id: &str) -> (id: String)
    ensures
        id@ == "rmp-"@ + role_id@ + "-_notifications"@,
{
    let mut id = String::from_str("rmp-");
    id.append(role_id);
    id.append("-_notifications");
    id
}

/// Lookup indexes created with the notification center tables.
pub fn notification_center_indexes() -> (indexes: Vec<IndexSpec>)
    ensures
        indexes@.len() == 4,
        indexes@[0].name@ == "idx_notification_channels_scope_name"@,
        indexes@[0].table@ == "notification_channels"@,
        str_views(indexes@[0].columns@) == seq!["scope_type"@, "namespace"@, "app"@, "worker_pool"@, "name"@],
        indexes@[0].unique,
        indexes@[1].name@ == "idx_notification_policies_owner"@,
        indexes@[1].table@ == "notification_policies"@,
        str_views(indexes@[1].columns@) == seq!["owner_type"@, "owner_id"@],
        !indexes@[1].unique,
        indexes@[2].name@ == "idx_notification_messages_status"@,
        indexes@[2].table@ == "notification_messages"@,
        str_views(indexes@[2].columns@) == seq!["status"@, "created_at"@],
        !indexes@[2].unique,
        indexes@[3].name@ == "idx_notification_delivery_attempts_retry"@,
        indexes@[3].table@ == "notification_delivery_attempts"@,
        str_views(indexes@[3].columns@) == seq!["retry_state"@, "next_retry_at"@],
        !indexes@[3].unique,
{
    let channels = IndexSpec {
        name: "idx_notification_channels_scope_name",
        table: "notification_channels",
        columns: vec!["scope_type", "namespace", "app", "worker_pool", "name"],
        unique: true,
    };
    assert(str_views(channels.columns@) =~= seq!["scope_type"@, "namespace"@, "app"@, "worker_pool"@, "name"@]);
    let policies = IndexSpec {
        name: "idx_notification_policies_owner",
        table: "notification_policies",
        columns: vec!["owner_type", "owner_id"],
        unique: false,
    };
    assert(str_views(policies.columns@) =~= seq!["owner_type"@, "owner_id"@]);
    let messages = IndexSpec {
        name: "idx_notification_messages_status",
        table: "notification_messages",
        columns: vec!["status", "created_at"],
        unique: false,
    };
    assert(str_views(messages.columns@) =~= seq!["status"@, "created_at"@]);
    let attempts = IndexSpec {
        name: "idx_notification_delivery_attempts_retry",
        table: "notification_delivery_attempts",
        columns: vec!["retry_state", "next_retry_at"],
        unique: false,
    };
    assert(str_views(attempts.columns@) =~= seq!["retry_state"@, "next_retry_at"@]);
    vec![channels, policies, messages, attempts]
}

/// Lookup indexes created with the notification templates table.
pub fn notification_template_indexes() -> (indexes: Vec<IndexSpec>)
    ensures
        indexes@.len() == 2,
        indexes@[0].name@ == "idx_notification_templates_key"@,
        indexes@[0].table@ == "notification_templates"@,
        str_views(indexes@[0].columns@) == seq!["template_key"@],
        indexes@[0].unique,
        indexes@[1].name@ == "idx_notification_templates_provider"@,
        indexes@[1].table@ == "notification_templates"@,
        str_views(indexes@[1].columns@) == seq!["provider"@, "message_type"@],
        !indexes@[1].unique,
{
    let key = IndexSpec {
        name: "idx_notification_templates_key",
        table: "notification_templates",
        columns: vec!["template_key"],
        unique: true,
    };
    assert(str_views(key.columns@) =~= seq!["template_key"@]);
    let provider = IndexSpec {
        name: "idx_notification_templates_provider",
        table: "notification_templates",
        columns: vec!["provider", "message_type"],
        unique: false,
    };
    assert(str_views(provider.columns@) =~= seq!["provider"@, "message_type"@]);
    vec![key, provider]
}

} // verus!
