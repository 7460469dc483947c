//! Notification templates: creation, partial updates and list filters.
use vstd::prelude::*;

verus! {

/// Prefix of generated notification template ids.
pub const TEMPLATE_ID_PREFIX: &'static str = "notification-template";

/// Input of template creation.
#[derive(Debug)]
pub struct CreateNotificationTemplate {
    pub template_key: String,
    pub name: String,
    pub description: Option<String>,
    pub provider: String,
    pub message_type: String,
    pub enabled: bool,
    pub body_json: String,
    pub variables_json: String,
}

/// Partial template update: each present field replaces the stored one; a
/// present `None` inside `description` or `updated_by` clears it.
#[derive(Debug, Default)]
pub struct UpdateNotificationTemplate {
    pub template_key: Option<String>,
    pub name: Option<String>,
    pub description: Option<Option<String>>,
    pub provider: Option<String>,
    pub message_type: Option<String>,
    pub enabled: Option<bool>,
    pub body_json: Option<String>,
    pub variables_json: Option<String>,
    pub updated_by: Option<Option<String>>,
}

/// Template list filters; each present filter must match exactly.
#[derive(Debug, Default)]
pub struct NotificationTemplateFilters {
    pub provider: Option<String>,
    pub message_type: Option<String>,
    pub enabled: Option<bool>,
}

/// Stored notification template.
#[derive(Debug)]
pub struct NotificationTemplateSummary {
    pub id: String,
    pub template_key: String,
    pub name: String,
    pub description: Option<String>,
    pub provider: String,
    pub message_type: String,
    pub enabled: bool,
    pub body_json: String,
    pub variables_json: String,
    pub created_by: Option<String>,
    pub updated_by: Option<String>,
    pub created_at: String,
    pub updated_at: String,
}

/// Replacement of a field by a present value.
pub open spec fn patched<T>(current: T, update: Option<T>) -> T {
    match update {
        Some(v) => v,
        None => current,
    }
}

/// Stored template after a partial update at time `now`.
pub open spec fn updated_template(
    row: NotificationTemplateSummary,
    input: UpdateNotificationTemplate,
    now: String,
) -> NotificationTemplateSummary {
    NotificationTemplateSummary {
        id: row.id,
        template_key: patched(row.template_key, input.template_key),
        name: patched(row.name, input.name),
        description: patched(row.description, input.description),
        provider: patched(row.provider, input.provider),
        message_type: patched(row.message_type, input.message_type),
        enabled: patched(row.enabled, input.enabled),
        body_json: patched(row.body_json, input.body_json),
        variables_json: patched(row.variables_json, input.variables_json),
        created_by: row.created_by,
        updated_by: patched(row.updated_by, input.updated_by),
        created_at: row.created_at,
        updated_at: now,
    }
}

/// Whether a template passes the list filters.
pub open spec fn filters_match(row: NotificationTemplateSummary, filters: NotificationTemplateFilters) -> bool {
    &&& (filters.provider matches Some(p) ==> p@ == row.provider@)
    &&& (filters.message_type matches Some(m) ==> m@ == row.message_type@)
    &&& (filters.enabled matches Some(e) ==> e == row.enabled)
}

/// The template stored by a creation, under a fresh id at time `now`.
pub fn new_template_summary(id: String, input: CreateNotificationTemplate, now: String) -> (row:
    NotificationTemplateSummary)
    ensures
        row == (NotificationTemplateSummary {
            id: id,
            template_key: input.template_key,
            name: input.name,
            description: input.description,
            provider: input.provider,
            message_type: input.message_type,
            enabled: input.enabled,
            body_json: input.body_json,
            variables_json: input.variables_json,
            created_by: None,
            updated_by: None,
            created_at: now,
            updated_at: now,
        }),
{
    NotificationTemplateSummary {
        id,
        template_key: input.template_key,
        name: input.name,
        description: input.description,
        provider: input.provider,
        message_type: input.message_type,
        enabled: input.enabled,
        body_json: input.body_json,
        variables_json: input.variables_json,
        created_by: None,
        updated_by: None,
        created_at: now.clone(),
        updated_at: now,
    }
}

/// Applies a partial update to a stored template at time `now`.
pub fn apply_template_update(
    row: NotificationTemplateSummary,
    input: UpdateNotificationTemplate,
    now: String,
) -> (res: NotificationTemplateSummary)
    ensures
        res == updated_template(row, input, now),
{
    let mut active = row;
    if let Some(value) = input.template_key {
        active.template_key = value;
    }
    if let Some(value) = input.name {
        active.name = value;
    }
    if let Some(value) = input.description {
        active.description = value;
    }
    if let Some(value) = input.provider {
        active.provider = value;
    }
    if let Some(value) = input.message_type {
        active.message_type = value;
    }
    if let Some(value) = input.enabled {
        active.enabled = value;
    }
    if let Some(value) = input.body_json {
        active.body_json = value;
    }
    if let Some(value) = input.variables_json {
        active.variables_json = value;
    }
    if let Some(value) = input.updated_by {
        active.updated_by = value;
    }
    active.updated_at = now;
    active
}

/// Whether a stored template passes the list filters.
pub fn template_matches_filters(row: &NotificationTemplateSummary, filters: &NotificationTemplateFilters) -> (res:
    bool)
    ensures
        res == filters_match(*row, *filters),
{
    let provider_ok = match &filters.provider {
        Some(p) => *p == row.provider,
        None => true,
    };
    let message_type_ok = match &filters.message_type {
        Some(m) => *m == row.message_type,
        None => true,
    };
    let enabled_ok = match filters.enabled {
        Some(e) => e == row.enabled,
        None => true,
    };
    provider_ok && message_type_ok && enabled_ok
}

/// An update with no fields only moves the update time.
pub proof fn lemma_empty_update_only_touches_time(row: NotificationTemplateSummary, now: String)
    ensures
        updated_template(row, UpdateNotificationTemplate {
            template_key: None,
            name: None,
            description: None,
            provider: None,
            message_type: None,
            enabled: None,
            body_json: None,
            variables_json: None,
            updated_by: None,
        }, now) == (NotificationTemplateSummary { updated_at: now, ..row }),
{
}

/// Applying the same update twice at the same time gives the same template as
/// applying it once.
pub proof fn lemma_update_idempotent(
    row: NotificationTemplateSummary,
    input: UpdateNotificationTemplate,
    now: String,
)
    ensures
        updated_template(updated_template(row, input, now), input, now) == updated_template(
            row,
            input,
            now,
        ),
{
}

/// An update keeps the identity and creation record of a template, and each
/// present field reads back as written.
pub proof fn lemma_update_reads_back(
    row: NotificationTemplateSummary,
    input: UpdateNotificationTemplate,
    now: String,
)
    ensures
        updated_template(row, input, now).id == row.id,
        updated_template(row, input, now).created_by == row.created_by,
        updated_template(row, input, now).created_at == row.created_at,
        updated_template(row, input, now).updated_at == now,
        input.template_key matches Some(k) ==> updated_template(row, input, now).template_key == k,
        input.name matches Some(n) ==> updated_template(row, input, now).name == n,
        input.description matches Some(d) ==> updated_template(row, input, now).description == d,
        input.provider matches Some(p) ==> updated_template(row, input, now).provider == p,
        input.message_type matches Some(m) ==> updated_template(row, input, now).message_type == m,
        input.enabled matches Some(e) ==> updated_template(row, input, now).enabled == e,
        input.body_json matches Some(b) ==> updated_template(row, input, now).body_json == b,
        input.variables_json matches Some(v) ==> updated_template(row, input, now).variables_json == v,
        input.updated_by matches Some(u) ==> updated_template(row, input, now).updated_by == u,
{
}

/// A template is listed under filters exactly when each filter that is
/// present equals the template's field: a provider, message type or enabled
/// filter that differs from the template excludes it, and absent filters
/// exclude nothing.
pub proof fn lemma_filters_select_exact_fields(
    row: NotificationTemplateSummary,
    filters: NotificationTemplateFilters,
)
    ensures
        filters_match(row, filters) <==> ((filters.provider.is_none() || filters.provider.unwrap()@
            == row.provider@) && (filters.message_type.is_none() || filters.message_type.unwrap()@
            == row.message_type@) && (filters.enabled.is_none() || filters.enabled.unwrap()
            == row.enabled)),
        filters.provider matches Some(p) && p@ != row.provider@ ==> !filters_match(row, filters),
        filters.message_type matches Some(m) && m@ != row.message_type@ ==> !filters_match(row, filters),
        filters.enabled matches Some(e) && e != row.enabled ==> !filters_match(row, filters),
        filters.provider.is_none() && filters.message_type.is_none() && filters.enabled.is_none()
            ==> filters_match(row, filters),
{
}

} // verus!
