//! Workflow definitions: nodes, edges and the configuration values that
//! node validation reads.
use vstd::prelude::*;

verus! {

/// A node configuration value, as parsed from the JSON document of a workflow
/// definition.
#[derive(Debug)]
pub enum ConfigValue {
    /// JSON `null`.
    Null,
    /// JSON `true` / `false`.
    Bool(bool),
    /// A JSON number that is an integer within the range of `i64`.
    Integer(i64),
    /// A JSON number that is an integer above `i64::MAX`.
    LargeUnsigned(u64),
    /// A JSON number with a fractional part or an exponent; its value is not read.
    Fraction,
    /// A JSON string.
    Text(String),
    /// A JSON array.
    Array(Vec<ConfigValue>),
    /// A JSON object, as its entries; a parsed object holds each key once.
    Object(Vec<ConfigEntry>),
}

/// One entry of a JSON object.
#[derive(Debug)]
pub struct ConfigEntry {
    /// Entry key.
    pub key: String,
    /// Entry value.
    pub value: ConfigValue,
}

/// One workflow node.
#[derive(Debug)]
pub struct WorkflowNodeSpec {
    /// Node key, unique within the definition.
    pub key: String,
    /// Node kind; `job` when omitted.
    pub kind: Option<String>,
    /// Referenced job for job nodes.
    pub job_id: Option<String>,
    /// Kind-specific configuration object.
    pub config: Option<ConfigValue>,
    /// Child workflow for `sub_workflow` nodes.
    pub child_workflow_id: Option<String>,
    /// Fan-out items for `map` and `map_reduce` nodes.
    pub map_items: Option<Vec<ConfigValue>>,
}

/// One directed workflow edge.
#[derive(Debug)]
pub struct WorkflowEdgeSpec {
    /// Source node key.
    pub from: String,
    /// Target node key.
    pub to: String,
    /// Edge condition: `always` (default), `on_success` or `on_failure`.
    pub condition: Option<String>,
}

/// A workflow DAG definition.
#[derive(Debug)]
pub struct WorkflowDefinition {
    /// Nodes in definition order.
    pub nodes: Vec<WorkflowNodeSpec>,
    /// Edges in definition order.
    pub edges: Vec<WorkflowEdgeSpec>,
}

/// Result of validating a workflow definition.
#[derive(Debug)]
pub struct WorkflowValidationResult {
    /// Whether the definition has no validation errors.
    pub valid: bool,
    /// Human-readable validation errors in discovery order.
    pub errors: Vec<String>,
}

/// Views of a sequence of strings.
pub open spec fn text_views(v: Seq<String>) -> Seq<Seq<char>> {
    v.map_values(|s: String| s@)
}

/// Value stored under `key` in a list of object entries (the first match).
pub open spec fn entry_lookup(entries: Seq<ConfigEntry>, key: Seq<char>) -> Option<ConfigValue>
    decreases entries.len(),
{
    if entries.len() == 0 {
        None
    } else if entries[0].key@ == key {
        Some(entries[0].value)
    } else {
        entry_lookup(entries.drop_first(), key)
    }
}

/// Value stored under `key` in a node configuration; `None` when the
/// configuration is absent or not an object.
pub open spec fn config_get(config: Option<ConfigValue>, key: Seq<char>) -> Option<ConfigValue> {
    match config {
        Some(ConfigValue::Object(entries)) => entry_lookup(entries@, key),
        _ => None,
    }
}

/// Condition of an edge, `always` when omitted.
pub open spec fn edge_condition(edge: WorkflowEdgeSpec) -> Seq<char> {
    match edge.condition {
        Some(c) => c@,
        None => "always"@,
    }
}

/// Kind of a node, `job` when omitted.
pub open spec fn node_kind(node: WorkflowNodeSpec) -> Seq<char> {
    match node.kind {
        Some(k) => k@,
        None => "job"@,
    }
}

/// Whether some edge goes from `from` to `to`.
pub open spec fn has_edge(edges: Seq<WorkflowEdgeSpec>, from: Seq<char>, to: Seq<char>) -> bool {
    exists|k: int| 0 <= k < edges.len() && #[trigger] edges[k].from@ == from && edges[k].to@ == to
}

/// Whether some node has the given key.
pub open spec fn has_node_key(nodes: Seq<WorkflowNodeSpec>, key: Seq<char>) -> bool {
    exists|i: int| 0 <= i < nodes.len() && #[trigger] nodes[i].key@ == key
}

/// Whether some edge targets the given key.
pub open spec fn is_edge_target(edges: Seq<WorkflowEdgeSpec>, key: Seq<char>) -> bool {
    exists|k: int| 0 <= k < edges.len() && #[trigger] edges[k].to@ == key
}

/// Looks up `key` in a list of object entries.
pub fn lookup_entry<'a>(entries: &'a Vec<ConfigEntry>, key: &str) -> (res: Option<&'a ConfigValue>)
    ensures
        match res {
            Some(v) => entry_lookup(entries@, key@) == Some(*v),
            None => entry_lookup(entries@, key@).is_none(),
        },
{
    let mut i: usize = 0;
    assert(entries@.subrange(0, entries.len() as int) =~= entries@);
    while i < entries.len()
        invariant
            i <= entries.len(),
            entry_lookup(entries@, key@) == entry_lookup(entries@.subrange(i as int, entries.len() as int), key@),
        decreases entries.len() - i,
    {
        let ghost rest = entries@.subrange(i as int, entries.len() as int);
        assert(rest[0] == entries@[i as int]);
        if crate::text::text_eq(entries[i].key.as_str(), key) {
            return Some(&entries[i].value);
        }
        assert(rest.drop_first() =~= entries@.subrange(i + 1, entries.len() as int));
        i = i + 1;
    }
    None
}

/// Looks up `key` in a node configuration.
pub fn config_lookup<'a>(config: &'a Option<ConfigValue>, key: &str) -> (res: Option<&'a ConfigValue>)
    ensures
        match res {
            Some(v) => config_get(*config, key@) == Some(*v),
            None => config_get(*config, key@).is_none(),
        },
{
    match config {
        Some(ConfigValue::Object(entries)) => lookup_entry(entries, key),
        _ => None,
    }
}

} // verus!
