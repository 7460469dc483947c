use tikeo::workflow::config::{
    workflow_config_bool, workflow_config_i64, workflow_config_nonempty_array,
    workflow_config_string,
};
use tikeo::workflow::graph::{
    edge_condition_satisfied, has_cycle, incoming_edge_indices, next_nodes_for_status,
    predecessors_satisfied, start_node_keys,
};
use tikeo::workflow::model::{
    ConfigEntry, ConfigValue, WorkflowDefinition, WorkflowEdgeSpec, WorkflowNodeSpec,
};
use tikeo::workflow::validation::validate_workflow_definition;

fn node(key: &str, kind: Option<&str>) -> WorkflowNodeSpec {
    WorkflowNodeSpec {
        key: key.to_owned(),
        kind: kind.map(str::to_owned),
        job_id: Some(format!("job-{key}")),
        config: None,
        child_workflow_id: None,
        map_items: None,
    }
}

fn edge(from: &str, to: &str, condition: Option<&str>) -> WorkflowEdgeSpec {
    WorkflowEdgeSpec {
        from: from.to_owned(),
        to: to.to_owned(),
        condition: condition.map(str::to_owned),
    }
}

fn config(entries: Vec<(&str, ConfigValue)>) -> Option<ConfigValue> {
    Some(ConfigValue::Object(
        entries
            .into_iter()
            .map(|(key, value)| ConfigEntry {
                key: key.to_owned(),
                value,
            })
            .collect(),
    ))
}

fn text(value: &str) -> ConfigValue {
    ConfigValue::Text(value.to_owned())
}

fn chain() -> WorkflowDefinition {
    WorkflowDefinition {
        nodes: vec![node("a", None), node("b", Some("job")), node("c", None)],
        edges: vec![
            edge("a", "b", None),
            edge("a", "c", Some("on_failure")),
            edge("b", "c", Some("on_success")),
        ],
    }
}

#[test]
fn valid_chain_has_no_errors() {
    let result = validate_workflow_definition(&chain());
    assert!(result.valid);
    assert!(result.errors.is_empty());
}

#[test]
fn empty_workflow_is_rejected() {
    let result = validate_workflow_definition(&WorkflowDefinition {
        nodes: Vec::new(),
        edges: Vec::new(),
    });
    assert!(!result.valid);
    assert_eq!(result.errors, vec!["workflow must contain at least one node".to_owned()]);
}

#[test]
fn key_kind_and_job_errors_are_reported_in_order() {
    let mut blank = node("  ", None);
    blank.job_id = None;
    let definition = WorkflowDefinition {
        nodes: vec![blank, node("a", None), node("a", Some("teleport"))],
        edges: Vec::new(),
    };
    let result = validate_workflow_definition(&definition);
    assert!(!result.valid);
    assert_eq!(
        result.errors,
        vec![
            "node key cannot be empty".to_owned(),
            "duplicate node key: a".to_owned(),
            "job node    requires job_id".to_owned(),
            "unsupported node kind: teleport".to_owned(),
        ]
    );
}

#[test]
fn node_configuration_requirements_are_reported() {
    let mut http = node("fetch", Some("http"));
    http.config = config(vec![("url", text("   "))]);
    let mut sql = node("query", Some("sql"));
    sql.config = config(vec![
        ("databaseUrl", text("postgres://db")),
        ("sql", text("select 1")),
        ("allowedDatabaseUrls", ConfigValue::Array(Vec::new())),
    ]);
    let mut map = node("fan", Some("map"));
    map.map_items = Some(Vec::new());
    let sub = node("child", Some("sub_workflow"));
    let definition = WorkflowDefinition {
        nodes: vec![http, sql, map, sub],
        edges: Vec::new(),
    };
    let result = validate_workflow_definition(&definition);
    assert_eq!(
        result.errors,
        vec![
            "http node fetch requires config.url".to_owned(),
            "sql node query requires config.allowedDatabaseUrls".to_owned(),
            "map node fan requires map_items".to_owned(),
            "sub_workflow node child requires child_workflow_id".to_owned(),
        ]
    );
}

#[test]
fn file_cleanup_accepts_single_path() {
    let mut cleanup = node("clean", Some("file_cleanup"));
    cleanup.config = config(vec![
        ("path", text("/tmp/out")),
        ("allowedRoots", ConfigValue::Array(vec![text("/tmp")])),
    ]);
    let result = validate_workflow_definition(&WorkflowDefinition {
        nodes: vec![cleanup],
        edges: Vec::new(),
    });
    assert!(result.valid, "{:?}", result.errors);
}

#[test]
fn edge_errors_start_nodes_and_cycles_are_reported() {
    let definition = WorkflowDefinition {
        nodes: vec![node("a", None), node("b", None)],
        edges: vec![
            edge("a", "b", Some("sometimes")),
            edge("b", "a", None),
            edge("a", "ghost", None),
        ],
    };
    let result = validate_workflow_definition(&definition);
    assert!(!result.valid);
    assert_eq!(
        result.errors,
        vec![
            "unsupported edge condition: sometimes".to_owned(),
            "edge references missing to node: ghost".to_owned(),
            "workflow must contain at least one start node".to_owned(),
            "workflow graph must be acyclic".to_owned(),
        ]
    );
}

#[test]
fn cycle_detection() {
    assert!(!has_cycle(&chain()));
    let self_loop = WorkflowDefinition {
        nodes: vec![node("a", None)],
        edges: vec![edge("a", "a", None)],
    };
    assert!(has_cycle(&self_loop));
    let reachable_cycle = WorkflowDefinition {
        nodes: vec![node("a", None)],
        edges: vec![edge("a", "x", None), edge("x", "y", None), edge("y", "x", None)],
    };
    assert!(has_cycle(&reachable_cycle));
    let diamond = WorkflowDefinition {
        nodes: vec![node("a", None), node("b", None), node("c", None), node("d", None)],
        edges: vec![
            edge("a", "b", None),
            edge("a", "c", None),
            edge("b", "d", None),
            edge("c", "d", None),
        ],
    };
    assert!(!has_cycle(&diamond));
}

#[test]
fn edge_conditions() {
    assert!(edge_condition_satisfied("succeeded", "always"));
    assert!(edge_condition_satisfied("failed", "always"));
    assert!(edge_condition_satisfied("skipped", "always"));
    assert!(!edge_condition_satisfied("running", "always"));
    assert!(edge_condition_satisfied("failed", "on_failure"));
    assert!(!edge_condition_satisfied("succeeded", "on_failure"));
    assert!(edge_condition_satisfied("succeeded", "on_success"));
    assert!(!edge_condition_satisfied("failed", "on_success"));
    assert!(!edge_condition_satisfied("skipped", "on_success"));
    assert!(edge_condition_satisfied("succeeded", "unknown"));
}

#[test]
fn conditions_are_exclusive_and_imply_always() {
    for status in ["succeeded", "failed", "skipped", "running", ""] {
        let on_success = edge_condition_satisfied(status, "on_success");
        let on_failure = edge_condition_satisfied(status, "on_failure");
        assert!(!(on_success && on_failure));
        if on_success || on_failure {
            assert!(edge_condition_satisfied(status, "always"));
        }
    }
}

#[test]
fn next_nodes_follow_conditions_in_edge_order() {
    let definition = chain();
    assert_eq!(next_nodes_for_status(&definition, "a", "succeeded"), vec!["b".to_owned()]);
    assert_eq!(
        next_nodes_for_status(&definition, "a", "failed"),
        vec!["b".to_owned(), "c".to_owned()]
    );
    assert_eq!(next_nodes_for_status(&definition, "b", "succeeded"), vec!["c".to_owned()]);
    assert!(next_nodes_for_status(&definition, "b", "failed").is_empty());
    assert!(next_nodes_for_status(&definition, "c", "succeeded").is_empty());
}

#[test]
fn incoming_edges_of_a_node() {
    let definition = chain();
    assert_eq!(incoming_edge_indices(&definition, "c"), vec![1, 2]);
    assert_eq!(incoming_edge_indices(&definition, "b"), vec![0]);
    assert!(incoming_edge_indices(&definition, "a").is_empty());
}

#[test]
fn start_nodes_are_untargeted_keys_once_each() {
    let definition = WorkflowDefinition {
        nodes: vec![node("a", None), node("b", None), node("a", None), node("c", None)],
        edges: vec![edge("a", "b", None)],
    };
    assert_eq!(start_node_keys(&definition), vec!["a".to_owned(), "c".to_owned()]);
}

#[test]
fn config_readers() {
    let mut n = node("n", None);
    n.config = config(vec![
        ("name", text("  report ")),
        ("blank", text("   ")),
        ("count", ConfigValue::Integer(42)),
        ("countText", text(" -17 ")),
        ("tooBig", text("9223372036854775808")),
        ("huge", ConfigValue::LargeUnsigned(9_223_372_036_854_775_808)),
        ("flag", ConfigValue::Bool(true)),
        ("word", text(" YES ")),
        ("fail", text("Failed")),
        ("other", text("maybe")),
        ("list", ConfigValue::Array(vec![ConfigValue::Null])),
        ("empty", ConfigValue::Array(Vec::new())),
    ]);
    assert_eq!(workflow_config_string(&n, "name"), Some("  report "));
    assert_eq!(workflow_config_string(&n, "blank"), None);
    assert_eq!(workflow_config_string(&n, "count"), None);
    assert_eq!(workflow_config_string(&n, "absent"), None);
    assert_eq!(workflow_config_i64(&n, "count"), Some(42));
    assert_eq!(workflow_config_i64(&n, "countText"), Some(-17));
    assert_eq!(workflow_config_i64(&n, "tooBig"), None);
    assert_eq!(workflow_config_i64(&n, "huge"), None);
    assert_eq!(workflow_config_i64(&n, "name"), None);
    assert_eq!(workflow_config_bool(&n, "flag"), Some(true));
    assert_eq!(workflow_config_bool(&n, "word"), Some(true));
    assert_eq!(workflow_config_bool(&n, "fail"), Some(false));
    assert_eq!(workflow_config_bool(&n, "other"), None);
    assert_eq!(workflow_config_bool(&n, "count"), None);
    assert!(workflow_config_nonempty_array(&n, "list"));
    assert!(!workflow_config_nonempty_array(&n, "empty"));
    assert!(!workflow_config_nonempty_array(&n, "name"));
}

#[test]
fn predecessors_decide_whether_a_node_runs() {
    let definition = chain();
    let some = |s: &str| Some(s.to_owned());
    // c has incoming edges a -on_failure-> c and b -on_success-> c.
    assert_eq!(
        predecessors_satisfied(&definition, "c", &vec![some("failed"), some("succeeded")]),
        Ok(true)
    );
    assert_eq!(
        predecessors_satisfied(&definition, "c", &vec![some("succeeded"), some("succeeded")]),
        Ok(false)
    );
    assert_eq!(
        predecessors_satisfied(&definition, "c", &vec![some("failed"), None]),
        Err("b".to_owned())
    );
    assert_eq!(
        predecessors_satisfied(&definition, "c", &vec![some("running"), None]),
        Ok(false)
    );
    assert_eq!(predecessors_satisfied(&definition, "a", &Vec::new()), Ok(true));
}
