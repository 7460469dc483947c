use tikeo::api_error::{ApiError, NOT_IMPLEMENTED_STATUS};
use tikeo::management_api::{ApiResponse, ScriptReleaseGrantSet, ScriptReleaseGrants, SUCCESS_CODE};
use tikeo::notification_templates::{
    apply_template_update, new_template_summary, template_matches_filters,
    CreateNotificationTemplate, NotificationTemplateFilters, NotificationTemplateSummary,
    UpdateNotificationTemplate,
};
use tikeo::raft_store::{
    upsert_member_row, upsert_metadata_row, RaftMemberSummary, RaftMetadataSummary,
    UpsertRaftMember, UpsertRaftMetadata,
};

fn created() -> NotificationTemplateSummary {
    new_template_summary(
        "notification-template-1".to_owned(),
        CreateNotificationTemplate {
            template_key: "ops.webhook.failure".to_owned(),
            name: "Ops webhook failure".to_owned(),
            description: Some("Provider-specific webhook template".to_owned()),
            provider: "webhook".to_owned(),
            message_type: "json".to_owned(),
            enabled: true,
            body_json: "{\"subject\":\"Templated {{subject}}\"}".to_owned(),
            variables_json: "[]".to_owned(),
        },
        "2026-01-01T00:00:00Z".to_owned(),
    )
}

#[test]
fn new_template_copies_input() {
    let row = created();
    assert_eq!(row.id, "notification-template-1");
    assert_eq!(row.template_key, "ops.webhook.failure");
    assert_eq!(row.provider, "webhook");
    assert_eq!(row.created_by, None);
    assert_eq!(row.updated_by, None);
    assert_eq!(row.created_at, "2026-01-01T00:00:00Z");
    assert_eq!(row.updated_at, "2026-01-01T00:00:00Z");
}

#[test]
fn template_update_patches_present_fields() {
    let update = UpdateNotificationTemplate {
        name: Some("Renamed".to_owned()),
        description: Some(None),
        enabled: Some(false),
        updated_by: Some(Some("alice".to_owned())),
        ..UpdateNotificationTemplate::default()
    };
    let row = apply_template_update(created(), update, "2026-02-02T00:00:00Z".to_owned());
    assert_eq!(row.id, "notification-template-1");
    assert_eq!(row.name, "Renamed");
    assert_eq!(row.description, None);
    assert!(!row.enabled);
    assert_eq!(row.template_key, "ops.webhook.failure");
    assert_eq!(row.provider, "webhook");
    assert_eq!(row.updated_by, Some("alice".to_owned()));
    assert_eq!(row.created_at, "2026-01-01T00:00:00Z");
    assert_eq!(row.updated_at, "2026-02-02T00:00:00Z");
}

#[test]
fn empty_template_update_only_moves_time() {
    let row = apply_template_update(
        created(),
        UpdateNotificationTemplate::default(),
        "2026-03-03T00:00:00Z".to_owned(),
    );
    let original = created();
    assert_eq!(row.name, original.name);
    assert_eq!(row.description, original.description);
    assert_eq!(row.enabled, original.enabled);
    assert_eq!(row.body_json, original.body_json);
    assert_eq!(row.updated_at, "2026-03-03T00:00:00Z");
}

#[test]
fn template_filters() {
    let row = created();
    assert!(template_matches_filters(&row, &NotificationTemplateFilters::default()));
    let filters = NotificationTemplateFilters {
        provider: Some("webhook".to_owned()),
        message_type: Some("json".to_owned()),
        enabled: Some(true),
    };
    assert!(template_matches_filters(&row, &filters));
    let filters = NotificationTemplateFilters {
        provider: Some("slack".to_owned()),
        ..NotificationTemplateFilters::default()
    };
    assert!(!template_matches_filters(&row, &filters));
    let filters = NotificationTemplateFilters {
        enabled: Some(false),
        ..NotificationTemplateFilters::default()
    };
    assert!(!template_matches_filters(&row, &filters));
}

fn metadata_input(term: i64) -> UpsertRaftMetadata {
    UpsertRaftMetadata {
        cluster_id: "tikeo".to_owned(),
        node_id: "scheduler-0".to_owned(),
        current_term: term,
        voted_for: Some("scheduler-1".to_owned()),
        commit_index: 7,
        applied_index: 6,
    }
}

#[test]
fn metadata_upsert_inserts_then_updates_in_place() {
    let first = upsert_metadata_row(None, metadata_input(3), "raft_meta-1".to_owned(), "t1".to_owned());
    assert_eq!(first.id, "raft_meta-1");
    assert_eq!(first.node_id, "scheduler-0");
    assert_eq!(first.current_term, 3);
    assert_eq!(first.updated_at, "t1");
    let existing = RaftMetadataSummary { ..first };
    let second = upsert_metadata_row(
        Some(existing),
        metadata_input(4),
        "raft_meta-2".to_owned(),
        "t2".to_owned(),
    );
    assert_eq!(second.id, "raft_meta-1");
    assert_eq!(second.current_term, 4);
    assert_eq!(second.voted_for, Some("scheduler-1".to_owned()));
    assert_eq!(second.commit_index, 7);
    assert_eq!(second.applied_index, 6);
    assert_eq!(second.updated_at, "t2");
}

#[test]
fn member_upsert_keeps_id_and_creation_time() {
    let input = UpsertRaftMember {
        node_id: "scheduler-1".to_owned(),
        endpoint: "http://scheduler-1:9999".to_owned(),
        status: "active".to_owned(),
    };
    let first = upsert_member_row(None, input, "raft_member-1".to_owned(), "t1".to_owned());
    assert_eq!(first.created_at, "t1");
    let existing = RaftMemberSummary { ..first };
    let moved = UpsertRaftMember {
        node_id: "scheduler-1".to_owned(),
        endpoint: "http://scheduler-1.new:9999".to_owned(),
        status: "draining".to_owned(),
    };
    let second = upsert_member_row(Some(existing), moved, "raft_member-2".to_owned(), "t2".to_owned());
    assert_eq!(second.id, "raft_member-1");
    assert_eq!(second.endpoint, "http://scheduler-1.new:9999");
    assert_eq!(second.status, "draining");
    assert_eq!(second.created_at, "t1");
    assert_eq!(second.updated_at, "t2");
}

#[test]
fn api_error_not_implemented() {
    let error = ApiError::NotImplemented {
        message: "raft transport is not implemented".to_owned(),
    };
    assert_eq!(error.status_code(), 501);
    assert_eq!(NOT_IMPLEMENTED_STATUS, 501);
    assert_eq!(error.code(), "not_implemented");
    assert_eq!(error.message(), "raft transport is not implemented");
}

#[test]
fn api_response_success_envelope() {
    let response = ApiResponse::success(5u32);
    assert_eq!(response.code, SUCCESS_CODE);
    assert_eq!(response.code, 0);
    assert_eq!(response.message, "success");
    assert_eq!(response.data, Some(5));
}

#[test]
fn script_release_grants_convert() {
    let grants = ScriptReleaseGrants {
        url: vec!["api.example.com".to_owned()],
        file_read: vec!["/data/in".to_owned()],
        file_write: Vec::new(),
        secret: vec!["env:TOKEN".to_owned()],
    };
    let set = ScriptReleaseGrantSet::from(grants);
    assert_eq!(set.url, vec!["api.example.com".to_owned()]);
    assert_eq!(set.file_read, vec!["/data/in".to_owned()]);
    assert!(set.file_write.is_empty());
    assert_eq!(set.secret, vec!["env:TOKEN".to_owned()]);
}
