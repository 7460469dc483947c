use tikeo::management_api::JobSummary;
use tikeo::scheduling::{advice_status, required_capability_for_job, scheduling_advice};

fn job(processor: Option<&str>, script: Option<&str>) -> JobSummary {
    JobSummary {
        version_number: 1,
        id: "job-1".to_owned(),
        namespace: "default".to_owned(),
        app: "billing".to_owned(),
        name: "billing-nightly".to_owned(),
        schedule_type: "api".to_owned(),
        schedule_expr: None,
        processor_name: processor.map(str::to_owned),
        script_id: script.map(str::to_owned),
        enabled: true,
        canary_job_id: None,
        canary_percent: 0,
    }
}

#[test]
fn required_capability_prefers_script_then_processor_then_name() {
    assert_eq!(
        required_capability_for_job(&job(Some("demo.fail"), Some("script-1"))),
        Some("script".to_owned())
    );
    assert_eq!(
        required_capability_for_job(&job(Some("  demo.fail "), Some("  "))),
        Some("processor:demo.fail".to_owned())
    );
    assert_eq!(
        required_capability_for_job(&job(Some("   "), None)),
        Some("processor:billing-nightly".to_owned())
    );
    assert_eq!(
        required_capability_for_job(&job(None, None)),
        Some("processor:billing-nightly".to_owned())
    );
}

#[test]
fn advice_status_levels() {
    let none: Vec<String> = Vec::new();
    assert_eq!(
        advice_status(&none, 3),
        (
            false,
            "error".to_owned(),
            "no online worker advertises the required capability".to_owned()
        )
    );
    let two = vec!["w1".to_owned(), "w2".to_owned()];
    assert_eq!(
        advice_status(&two, 0),
        (true, "ok".to_owned(), "2 eligible worker(s) online".to_owned())
    );
    assert_eq!(
        advice_status(&two, 1),
        (
            true,
            "warning".to_owned(),
            "2 eligible worker(s), but recent failures exist".to_owned()
        )
    );
    let twelve: Vec<String> = (0..12).map(|i| format!("w{i}")).collect();
    assert_eq!(advice_status(&twelve, 0).2, "12 eligible worker(s) online");
}

#[test]
fn scheduling_advice_counts_failures_in_recent_window() {
    let mut statuses: Vec<String> = Vec::new();
    statuses.push("failed".to_owned());
    for _ in 0..19 {
        statuses.push("succeeded".to_owned());
    }
    for _ in 0..5 {
        statuses.push("failed".to_owned());
    }
    let advice = scheduling_advice(&job(Some("demo"), None), vec!["w1".to_owned()], &statuses);
    assert!(advice.ready);
    assert_eq!(advice.severity, "warning");
    assert_eq!(advice.reason, "1 eligible worker(s), but recent failures exist");
    assert_eq!(advice.required_capability, Some("processor:demo".to_owned()));
    assert_eq!(advice.eligible_workers, vec!["w1".to_owned()]);
    assert_eq!(advice.recent_instances, 20);
    assert_eq!(advice.recent_failures, 1);
}

#[test]
fn scheduling_advice_without_workers_or_history() {
    let advice = scheduling_advice(&job(None, None), Vec::new(), &Vec::new());
    assert!(!advice.ready);
    assert_eq!(advice.severity, "error");
    assert_eq!(advice.recent_instances, 0);
    assert_eq!(advice.recent_failures, 0);
}
