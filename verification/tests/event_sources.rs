use tikeo::event_sources::{webhook_event_labels, webhook_trigger_job};

#[test]
fn webhook_action_names_job() {
    assert_eq!(webhook_trigger_job("billing-nightly:trigger"), Some("billing-nightly".to_owned()));
    assert_eq!(webhook_trigger_job("a:b:trigger"), Some("a:b".to_owned()));
    assert_eq!(webhook_trigger_job(":trigger"), None);
    assert_eq!(webhook_trigger_job("billing-nightly"), None);
    assert_eq!(webhook_trigger_job("billing:Trigger"), None);
    assert_eq!(webhook_trigger_job("\u{e9}t\u{e9}:trigger"), Some("\u{e9}t\u{e9}".to_owned()));
}

#[test]
fn webhook_labels_default_and_trim() {
    let labels = webhook_event_labels(&None, &None);
    assert_eq!(labels.source, "webhook");
    assert_eq!(labels.event_type, "webhook.event");
    assert_eq!(labels.worker_id, "event-source:webhook");
    let labels = webhook_event_labels(&Some("  github ".to_owned()), &Some("   ".to_owned()));
    assert_eq!(labels.source, "github");
    assert_eq!(labels.event_type, "webhook.event");
    assert_eq!(labels.worker_id, "event-source:github");
    let labels = webhook_event_labels(&Some(String::new()), &Some(" push\n".to_owned()));
    assert_eq!(labels.source, "webhook");
    assert_eq!(labels.event_type, "push");
}
