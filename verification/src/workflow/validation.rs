//! Structural validation of workflow definitions.
use vstd::prelude::*;
use crate::text::{is_blank, is_blank_text, text_eq};
use crate::workflow::config::{
    config_nonempty_array, config_text, workflow_config_nonempty_array, workflow_config_string,
};
use crate::workflow::graph::{definition_has_cycle, has_cycle, is_start_key, start_node_keys};
use crate::workflow::model::{
    config_get, edge_condition, has_node_key, node_kind, text_views, ConfigValue, WorkflowDefinition,
    WorkflowEdgeSpec, WorkflowNodeSpec, WorkflowValidationResult,
};

verus! {

/// A one-message list when `b` holds, an empty list otherwise.
pub open spec fn cond_msg(b: bool, m: Seq<char>) -> Seq<Seq<char>> {
    if b {
        seq![m]
    } else {
        seq![]
    }
}

/// "`{prefix} node {key} requires {what}`".
pub open spec fn requirement_msg(prefix: Seq<char>, key: Seq<char>, what: Seq<char>) -> Seq<char> {
    prefix + " node "@ + key + " requires "@ + what
}

/// Node kinds a workflow may use.
pub open spec fn is_allowed_kind(k: Seq<char>) -> bool {
    ||| k == "start"@
    ||| k == "end"@
    ||| k == "job"@
    ||| k == "script"@
    ||| k == "http"@
    ||| k == "grpc"@
    ||| k == "sql"@
    ||| k == "condition"@
    ||| k == "parallel"@
    ||| k == "join"@
    ||| k == "delay"@
    ||| k == "approval"@
    ||| k == "notification"@
    ||| k == "compensation"@
    ||| k == "file_cleanup"@
    ||| k == "map"@
    ||| k == "map_reduce"@
    ||| k == "sub_workflow"@
}

/// Edge conditions a workflow may use.
pub open spec fn is_allowed_condition(c: Seq<char>) -> bool {
    c == "always"@ || c == "on_success"@ || c == "on_failure"@
}

/// An optional identifier that is absent or empty.
pub open spec fn missing_text(o: Option<String>) -> bool {
    match o {
        Some(s) => s@.len() == 0,
        None => true,
    }
}

/// Map items that are absent or empty.
pub open spec fn missing_items(o: Option<Vec<crate::workflow::model::ConfigValue>>) -> bool {
    match o {
        Some(v) => v@.len() == 0,
        None => true,
    }
}

/// Key errors of the last node, given the nodes before it.
pub open spec fn node_key_errors(prev: Seq<WorkflowNodeSpec>, n: WorkflowNodeSpec) -> Seq<Seq<char>> {
    cond_msg(is_blank(n.key@), "node key cannot be empty"@) + cond_msg(
        has_node_key(prev, n.key@),
        "duplicate node key: "@ + n.key@,
    )
}

/// Key errors of all nodes, in node order.
pub open spec fn key_errors(nodes: Seq<WorkflowNodeSpec>) -> Seq<Seq<char>>
    decreases nodes.len(),
{
    if nodes.len() == 0 {
        seq![]
    } else {
        key_errors(nodes.drop_last()) + node_key_errors(nodes.drop_last(), nodes.last())
    }
}

/// Kind and configuration errors of one node, in checking order.
pub open spec fn kind_errors(n: WorkflowNodeSpec) -> Seq<Seq<char>> {
    kind_errors_basic(n) + kind_errors_remote(n) + kind_errors_local(n)
}

/// Errors of the kind itself and of job, condition and http nodes.
pub open spec fn kind_errors_basic(n: WorkflowNodeSpec) -> Seq<Seq<char>> {
    let kind = node_kind(n);
    let key = n.key@;
    let c = n.config;
    cond_msg(!is_allowed_kind(kind), "unsupported node kind: "@ + kind) + cond_msg(
        kind == "job"@ && missing_text(n.job_id),
        requirement_msg("job"@, key, "job_id"@),
    ) + cond_msg(
        kind == "condition"@ && config_text(c, "expression"@).is_none(),
        requirement_msg("condition"@, key, "config.expression"@),
    ) + cond_msg(
        kind == "http"@ && config_text(c, "url"@).is_none(),
        requirement_msg("http"@, key, "config.url"@),
    )
}

/// Errors of grpc and sql nodes.
pub open spec fn kind_errors_remote(n: WorkflowNodeSpec) -> Seq<Seq<char>> {
    let kind = node_kind(n);
    let key = n.key@;
    let c = n.config;
    cond_msg(
        kind == "grpc"@ && config_text(c, "endpoint"@).is_none(),
        requirement_msg("grpc"@, key, "config.endpoint"@),
    ) + cond_msg(
        kind == "grpc"@ && config_text(c, "service"@).is_none(),
        requirement_msg("grpc"@, key, "config.service"@),
    ) + cond_msg(
        kind == "grpc"@ && config_text(c, "method"@).is_none(),
        requirement_msg("grpc"@, key, "config.method"@),
    ) + cond_msg(
        kind == "sql"@ && config_text(c, "databaseUrl"@).is_none(),
        requirement_msg("sql"@, key, "config.databaseUrl"@),
    ) + cond_msg(
        kind == "sql"@ && config_text(c, "sql"@).is_none(),
        requirement_msg("sql"@, key, "config.sql"@),
    ) + cond_msg(
        kind == "sql"@ && !config_nonempty_array(c, "allowedDatabaseUrls"@),
        requirement_msg("sql"@, key, "config.allowedDatabaseUrls"@),
    )
}

/// Errors of script, approval, compensation, file_cleanup, sub_workflow and map nodes.
pub open spec fn kind_errors_local(n: WorkflowNodeSpec) -> Seq<Seq<char>> {
    let kind = node_kind(n);
    let key = n.key@;
    let c = n.config;
    cond_msg(
        kind == "script"@ && config_text(c, "source"@).is_none(),
        requirement_msg("script"@, key, "config.source"@),
    ) + cond_msg(
        kind == "approval"@ && config_text(c, "approvers"@).is_none(),
        requirement_msg("approval"@, key, "config.approvers"@),
    ) + cond_msg(
        kind == "compensation"@ && config_text(c, "compensates"@).is_none(),
        requirement_msg("compensation"@, key, "config.compensates"@),
    ) + cond_msg(
        kind == "file_cleanup"@ && !(config_nonempty_array(c, "paths"@) || config_text(
            c,
            "path"@,
        ).is_some()),
        requirement_msg("file_cleanup"@, key, "config.paths"@),
    ) + cond_msg(
        kind == "file_cleanup"@ && !config_nonempty_array(c, "allowedRoots"@),
        requirement_msg("file_cleanup"@, key, "config.allowedRoots"@),
    ) + cond_msg(
        kind == "sub_workflow"@ && missing_text(n.child_workflow_id),
        requirement_msg("sub_workflow"@, key, "child_workflow_id"@),
    ) + cond_msg(
        (kind == "map"@ || kind == "map_reduce"@) && missing_items(n.map_items),
        requirement_msg(kind, key, "map_items"@),
    )
}

/// Kind and configuration errors of all nodes, in node order.
pub open spec fn all_kind_errors(nodes: Seq<WorkflowNodeSpec>) -> Seq<Seq<char>>
    decreases nodes.len(),
{
    if nodes.len() == 0 {
        seq![]
    } else {
        all_kind_errors(nodes.drop_last()) + kind_errors(nodes.last())
    }
}

/// Errors of one edge against the node keys.
pub open spec fn edge_errors(nodes: Seq<WorkflowNodeSpec>, e: WorkflowEdgeSpec) -> Seq<Seq<char>> {
    cond_msg(!has_node_key(nodes, e.from@), "edge references missing from node: "@ + e.from@)
        + cond_msg(!has_node_key(nodes, e.to@), "edge references missing to node: "@ + e.to@)
        + cond_msg(
        !is_allowed_condition(edge_condition(e)),
        "unsupported edge condition: "@ + edge_condition(e),
    )
}

/// Errors of all edges, in edge order.
pub open spec fn all_edge_errors(nodes: Seq<WorkflowNodeSpec>, edges: Seq<WorkflowEdgeSpec>) -> Seq<
    Seq<char>,
>
    decreases edges.len(),
{
    if edges.len() == 0 {
        seq![]
    } else {
        all_edge_errors(nodes, edges.drop_last()) + edge_errors(nodes, edges.last())
    }
}

/// Every validation error of a workflow definition, in reporting order:
/// emptiness, node keys, node kinds and configuration, edges, start nodes, cycles.
pub open spec fn workflow_errors(definition: WorkflowDefinition) -> Seq<Seq<char>> {
    let nodes = definition.nodes@;
    let edges = definition.edges@;
    cond_msg(nodes.len() == 0, "workflow must contain at least one node"@) + key_errors(nodes)
        + all_kind_errors(nodes) + all_edge_errors(nodes, edges) + cond_msg(
        nodes.len() > 0 && !(exists|k: Seq<char>| is_start_key(definition, k)),
        "workflow must contain at least one start node"@,
    ) + cond_msg(definition_has_cycle(definition), "workflow graph must be acyclic"@)
}

/// Appends a message that is present exactly when its condition holds.
fn push_when(out: &mut Vec<String>, msg: Option<String>, Ghost(b): Ghost<bool>, Ghost(m): Ghost<Seq<char>>)
    requires
        msg.is_some() == b,
        msg matches Some(s) ==> s@ == m,
    ensures
        text_views(final(out)@) == text_views(old(out)@) + cond_msg(b, m),
{
    let ghost before = text_views(out@);
    match msg {
        Some(s) => {
            out.push(s);
            assert(text_views(out@) =~= before + cond_msg(b, m));
        },
        None => {
            assert(text_views(out@) =~= before + cond_msg(b, m));
        },
    }
}

/// "`{prefix}{subject}`".
fn prefixed(prefix: &str, subject: &str) -> (res: String)
    ensures
        res@ == prefix@ + subject@,
{
    let mut s = String::from_str(prefix);
    s.append(subject);
    s
}

/// "`{prefix} node {key} requires {what}`".
fn requirement_message(prefix: &str, key: &str, what: &str) -> (res: String)
    ensures
        res@ == requirement_msg(prefix@, key@, what@),
{
    let mut s = String::from_str(prefix);
    s.append(" node ");
    s.append(key);
    s.append(" requires ");
    s.append(what);
    s
}

/// Whether a node kind is supported.
fn allowed_kind(k: &str) -> (res: bool)
    ensures
        res == is_allowed_kind(k@),
{
    text_eq(k, "start") || text_eq(k, "end") || text_eq(k, "job") || text_eq(k, "script")
        || text_eq(k, "http") || text_eq(k, "grpc") || text_eq(k, "sql") || text_eq(k, "condition")
        || text_eq(k, "parallel") || text_eq(k, "join") || text_eq(k, "delay") || text_eq(
        k,
        "approval",
    ) || text_eq(k, "notification") || text_eq(k, "compensation") || text_eq(k, "file_cleanup")
        || text_eq(k, "map") || text_eq(k, "map_reduce") || text_eq(k, "sub_workflow")
}

/// Kind of a node, `job` when omitted.
fn kind_of(node: &WorkflowNodeSpec) -> (res: &str)
    ensures
        res@ == node_kind(*node),
{
    match &node.kind {
        Some(k) => k.as_str(),
        None => "job",
    }
}

/// Whether an optional identifier is absent or empty.
fn is_missing(o: &Option<String>) -> (res: bool)
    ensures
        res == missing_text(*o),
{
    match o {
        Some(s) => s.unicode_len() == 0,
        None => true,
    }
}

/// The message for a missing text setting of a node kind.
fn missing_setting(
    node: &WorkflowNodeSpec,
    kind: &str,
    expected: &str,
    setting: &str,
    what: &str,
) -> (res: Option<String>)
    ensures
        res.is_some() == (kind@ == expected@ && config_text(node.config, setting@).is_none()),
        res matches Some(s) ==> s@ == requirement_msg(expected@, node.key@, what@),
{
    if text_eq(kind, expected) && workflow_config_string(node, setting).is_none() {
        Some(requirement_message(expected, node.key.as_str(), what))
    } else {
        None
    }
}

/// Kind and configuration errors of one node.
fn node_kind_errors(node: &WorkflowNodeSpec) -> (res: Vec<String>)
    ensures
        text_views(res@) == kind_errors(*node),
{
    let mut out = basic_kind_errors(node);
    let ghost a = text_views(out@);
    let mut more = remote_kind_errors(node);
    out.append(&mut more);
    assert(text_views(out@) =~= a + kind_errors_remote(*node));
    let ghost ab = text_views(out@);
    let mut rest = local_kind_errors(node);
    out.append(&mut rest);
    assert(text_views(out@) =~= ab + kind_errors_local(*node));
    out
}

/// Errors of the kind itself and of job, condition and http nodes.
fn basic_kind_errors(node: &WorkflowNodeSpec) -> (res: Vec<String>)
    ensures
        text_views(res@) == kind_errors_basic(*node),
{
    let kind = kind_of(node);
    let key = node.key.as_str();
    let ghost c = node.config;
    let mut out: Vec<String> = Vec::new();
    let ghost m = "unsupported node kind: "@ + kind@;
    let msg = if !allowed_kind(kind) {
        Some(prefixed("unsupported node kind: ", kind))
    } else {
        None
    };
    push_when(&mut out, msg, Ghost(!is_allowed_kind(kind@)), Ghost(m));
    assert(text_views(out@) =~= cond_msg(!is_allowed_kind(kind@), m));
    let msg = if text_eq(kind, "job") && is_missing(&node.job_id) {
        Some(requirement_message("job", key, "job_id"))
    } else {
        None
    };
    push_when(
        &mut out,
        msg,
        Ghost((kind@ == "job"@ && missing_text(node.job_id))),
        Ghost(requirement_msg("job"@, key@, "job_id"@)),
    );
    let msg = missing_setting(node, kind, "condition", "expression", "config.expression");
    push_when(
        &mut out,
        msg,
        Ghost((kind@ == "condition"@ && config_text(c, "expression"@).is_none())),
        Ghost(requirement_msg("condition"@, key@, "config.expression"@)),
    );
    let msg = missing_setting(node, kind, "http", "url", "config.url");
    push_when(
        &mut out,
        msg,
        Ghost((kind@ == "http"@ && config_text(c, "url"@).is_none())),
        Ghost(requirement_msg("http"@, key@, "config.url"@)),
    );
    out
}

/// Errors of grpc and sql nodes.
fn remote_kind_errors(node: &WorkflowNodeSpec) -> (res: Vec<String>)
    ensures
        text_views(res@) == kind_errors_remote(*node),
{
    let kind = kind_of(node);
    let key = node.key.as_str();
    let ghost c = node.config;
    let mut out: Vec<String> = Vec::new();
    let msg = missing_setting(node, kind, "grpc", "endpoint", "config.endpoint");
    push_when(
        &mut out,
        msg,
        Ghost((kind@ == "grpc"@ && config_text(c, "endpoint"@).is_none())),
        Ghost(requirement_msg("grpc"@, key@, "config.endpoint"@)),
    );
    assert(text_views(out@) =~= cond_msg(
        kind@ == "grpc"@ && config_text(c, "endpoint"@).is_none(),
        requirement_msg("grpc"@, key@, "config.endpoint"@),
    ));
    let msg = missing_setting(node, kind, "grpc", "service", "config.service");
    push_when(
        &mut out,
        msg,
        Ghost((kind@ == "grpc"@ && config_text(c, "service"@).is_none())),
        Ghost(requirement_msg("grpc"@, key@, "config.service"@)),
    );
    let msg = missing_setting(node, kind, "grpc", "method", "config.method");
    push_when(
        &mut out,
        msg,
        Ghost((kind@ == "grpc"@ && config_text(c, "method"@).is_none())),
        Ghost(requirement_msg("grpc"@, key@, "config.method"@)),
    );
    let msg = missing_setting(node, kind, "sql", "databaseUrl", "config.databaseUrl");
    push_when(
        &mut out,
        msg,
        Ghost((kind@ == "sql"@ && config_text(c, "databaseUrl"@).is_none())),
        Ghost(requirement_msg("sql"@, key@, "config.databaseUrl"@)),
    );
    let msg = missing_setting(node, kind, "sql", "sql", "config.sql");
    push_when(
        &mut out,
        msg,
        Ghost((kind@ == "sql"@ && config_text(c, "sql"@).is_none())),
        Ghost(requirement_msg("sql"@, key@, "config.sql"@)),
    );
    let msg = if text_eq(kind, "sql") && !workflow_config_nonempty_array(node, "allowedDatabaseUrls") {
        Some(requirement_message("sql", key, "config.allowedDatabaseUrls"))
    } else {
        None
    };
    push_when(
        &mut out,
        msg,
        Ghost((kind@ == "sql"@ && !config_nonempty_array(c, "allowedDatabaseUrls"@))),
        Ghost(requirement_msg("sql"@, key@, "config.allowedDatabaseUrls"@)),
    );
    out
}

/// Errors of script, approval, compensation, file_cleanup, sub_workflow and map nodes.
fn local_kind_errors(node: &WorkflowNodeSpec) -> (res: Vec<String>)
    ensures
        text_views(res@) == kind_errors_local(*node),
{
    let kind = kind_of(node);
    let key = node.key.as_str();
    let ghost c = node.config;
    let mut out: Vec<String> = Vec::new();
    let msg = missing_setting(node, kind, "script", "source", "config.source");
    push_when(
        &mut out,
        msg,
        Ghost((kind@ == "script"@ && config_text(c, "source"@).is_none())),
        Ghost(requirement_msg("script"@, key@, "config.source"@)),
    );
    assert(text_views(out@) =~= cond_msg(
        kind@ == "script"@ && config_text(c, "source"@).is_none(),
        requirement_msg("script"@, key@, "config.source"@),
    ));
    let msg = missing_setting(node, kind, "approval", "approvers", "config.approvers");
    push_when(
        &mut out,
        msg,
        Ghost((kind@ == "approval"@ && config_text(c, "approvers"@).is_none())),
        Ghost(requirement_msg("approval"@, key@, "config.approvers"@)),
    );
    let msg = missing_setting(node, kind, "compensation", "compensates", "config.compensates");
    push_when(
        &mut out,
        msg,
        Ghost((kind@ == "compensation"@ && config_text(c, "compensates"@).is_none())),
        Ghost(requirement_msg("compensation"@, key@, "config.compensates"@)),
    );
    let is_cleanup = text_eq(kind, "file_cleanup");
    let msg = if is_cleanup && !(workflow_config_nonempty_array(node, "paths")
        || workflow_config_string(node, "path").is_some()) {
        Some(requirement_message("file_cleanup", key, "config.paths"))
    } else {
        None
    };
    push_when(
        &mut out,
        msg,
        Ghost((
            kind@ == "file_cleanup"@ && !(config_nonempty_array(c, "paths"@) || config_text(
                c,
                "path"@,
            ).is_some())
        )),
        Ghost(requirement_msg("file_cleanup"@, key@, "config.paths"@)),
    );
    let msg = if is_cleanup && !workflow_config_nonempty_array(node, "allowedRoots") {
        Some(requirement_message("file_cleanup", key, "config.allowedRoots"))
    } else {
        None
    };
    push_when(
        &mut out,
        msg,
        Ghost((kind@ == "file_cleanup"@ && !config_nonempty_array(c, "allowedRoots"@))),
        Ghost(requirement_msg("file_cleanup"@, key@, "config.allowedRoots"@)),
    );
    let msg = if text_eq(kind, "sub_workflow") && is_missing(&node.child_workflow_id) {
        Some(requirement_message("sub_workflow", key, "child_workflow_id"))
    } else {
        None
    };
    push_when(
        &mut out,
        msg,
        Ghost((kind@ == "sub_workflow"@ && missing_text(node.child_workflow_id))),
        Ghost(requirement_msg("sub_workflow"@, key@, "child_workflow_id"@)),
    );
    let items_missing = match &node.map_items {
        Some(v) => v.len() == 0,
        None => true,
    };
    let msg = if (text_eq(kind, "map") || text_eq(kind, "map_reduce")) && items_missing {
        Some(requirement_message(kind, key, "map_items"))
    } else {
        None
    };
    push_when(
        &mut out,
        msg,
        Ghost(((kind@ == "map"@ || kind@ == "map_reduce"@) && missing_items(node.map_items))),
        Ghost(requirement_msg(kind@, key@, "map_items"@)),
    );
    out
}

/// Whether some node has the given key.
fn contains_node_key(nodes: &Vec<WorkflowNodeSpec>, key: &String) -> (res: bool)
    ensures
        res == has_node_key(nodes@, key@),
{
    let mut i: usize = 0;
    while i < nodes.len()
        invariant
            i <= nodes.len(),
            forall|k: int| 0 <= k < i ==> nodes@[k].key@ != key@,
        decreases nodes.len() - i,
    {
        if nodes[i].key == *key {
            return true;
        }
        i = i + 1;
    }
    false
}

/// Validates a workflow definition: node keys, node kinds and their required
/// configuration, edge endpoints and conditions, start nodes and acyclicity.
pub fn validate_workflow_definition(definition: &WorkflowDefinition) -> (res: WorkflowValidationResult)
    ensures
        text_views(res.errors@) == workflow_errors(*definition),
        res.valid == (res.errors@.len() == 0),
{
    let nodes = &definition.nodes;
    let edges = &definition.edges;
    let mut errors: Vec<String> = Vec::new();
    let ghost head = cond_msg(nodes@.len() == 0, "workflow must contain at least one node"@);
    let msg = if nodes.len() == 0 {
        Some(String::from_str("workflow must contain at least one node"))
    } else {
        None
    };
    push_when(&mut errors, msg, Ghost(nodes@.len() == 0), Ghost("workflow must contain at least one node"@));
    assert(text_views(errors@) =~= head);
    let mut i: usize = 0;
    assert(nodes@.subrange(0, 0) =~= Seq::<WorkflowNodeSpec>::empty());
    while i < nodes.len()
        invariant
            i <= nodes.len(),
            nodes == &definition.nodes,
            text_views(errors@) == head + key_errors(nodes@.subrange(0, i as int)),
        decreases nodes.len() - i,
    {
        let node = &nodes[i];
        let ghost prev = nodes@.subrange(0, i as int);
        let ghost pre = nodes@.subrange(0, i + 1);
        assert(pre.drop_last() =~= prev);
        assert(pre.last() == *node);
        let ghost before = text_views(errors@);
        let msg = if is_blank_text(node.key.as_str()) {
            Some(String::from_str("node key cannot be empty"))
        } else {
            None
        };
        push_when(&mut errors, msg, Ghost(is_blank(node.key@)), Ghost("node key cannot be empty"@));
        let mut seen = false;
        let mut j: usize = 0;
        while j < i
            invariant
                j <= i < nodes.len(),
                seen == (exists|k: int| 0 <= k < j && #[trigger] nodes@[k].key@ == node.key@),
            decreases i - j,
        {
            if nodes[j].key == node.key {
                seen = true;
            }
            j = j + 1;
        }
        assert(seen == has_node_key(prev, node.key@)) by {
            if seen {
                let k = choose|k: int| 0 <= k < i && #[trigger] nodes@[k].key@ == node.key@;
                assert(prev[k] == nodes@[k]);
            }
            if has_node_key(prev, node.key@) {
                let k = choose|k: int| 0 <= k < prev.len() && #[trigger] prev[k].key@ == node.key@;
                assert(prev[k] == nodes@[k]);
            }
        }
        let msg = if seen {
            Some(prefixed("duplicate node key: ", node.key.as_str()))
        } else {
            None
        };
        push_when(&mut errors, msg, Ghost(seen), Ghost("duplicate node key: "@ + node.key@));
        assert(text_views(errors@) =~= head + key_errors(pre));
        i = i + 1;
    }
    assert(nodes@.subrange(0, nodes.len() as int) =~= nodes@);
    let ghost after_keys = text_views(errors@);
    let mut i: usize = 0;
    assert(nodes@.subrange(0, 0) =~= Seq::<WorkflowNodeSpec>::empty());
    assert(after_keys =~= after_keys + all_kind_errors(nodes@.subrange(0, 0)));
    while i < nodes.len()
        invariant
            i <= nodes.len(),
            nodes == &definition.nodes,
            text_views(errors@) == after_keys + all_kind_errors(nodes@.subrange(0, i as int)),
        decreases nodes.len() - i,
    {
        let ghost pre = nodes@.subrange(0, i + 1);
        assert(pre.drop_last() =~= nodes@.subrange(0, i as int));
        assert(pre.last() == nodes@[i as int]);
        let ghost before = text_views(errors@);
        let mut found = node_kind_errors(&nodes[i]);
        errors.append(&mut found);
        assert(text_views(errors@) =~= before + kind_errors(nodes@[i as int]));
        i = i + 1;
    }
    assert(nodes@.subrange(0, nodes.len() as int) =~= nodes@);
    let ghost after_kinds = text_views(errors@);
    let mut k: usize = 0;
    assert(edges@.subrange(0, 0) =~= Seq::<WorkflowEdgeSpec>::empty());
    assert(after_kinds =~= after_kinds + all_edge_errors(nodes@, edges@.subrange(0, 0)));
    while k < edges.len()
        invariant
            k <= edges.len(),
            nodes == &definition.nodes,
            edges == &definition.edges,
            text_views(errors@) == after_kinds + all_edge_errors(nodes@, edges@.subrange(0, k as int)),
        decreases edges.len() - k,
    {
        let e = &edges[k];
        let ghost pre = edges@.subrange(0, k + 1);
        assert(pre.drop_last() =~= edges@.subrange(0, k as int));
        assert(pre.last() == *e);
        let ghost before = text_views(errors@);
        let from_known = contains_node_key(nodes, &e.from);
        let msg = if !from_known {
            Some(prefixed("edge references missing from node: ", e.from.as_str()))
        } else {
            None
        };
        push_when(
            &mut errors,
            msg,
            Ghost(!has_node_key(nodes@, e.from@)),
            Ghost("edge references missing from node: "@ + e.from@),
        );
        let to_known = contains_node_key(nodes, &e.to);
        let msg = if !to_known {
            Some(prefixed("edge references missing to node: ", e.to.as_str()))
        } else {
            None
        };
        push_when(
            &mut errors,
            msg,
            Ghost(!has_node_key(nodes@, e.to@)),
            Ghost("edge references missing to node: "@ + e.to@),
        );
        let condition: &str = match &e.condition {
            Some(c) => c.as_str(),
            None => "always",
        };
        assert(condition@ == edge_condition(*e));
        let allowed = text_eq(condition, "always") || text_eq(condition, "on_success") || text_eq(
            condition,
            "on_failure",
        );
        let msg = if !allowed {
            Some(prefixed("unsupported edge condition: ", condition))
        } else {
            None
        };
        push_when(
            &mut errors,
            msg,
            Ghost(!is_allowed_condition(edge_condition(*e))),
            Ghost("unsupported edge condition: "@ + edge_condition(*e)),
        );
        assert(text_views(errors@) =~= before + edge_errors(nodes@, *e));
        k = k + 1;
    }
    assert(edges@.subrange(0, edges.len() as int) =~= edges@);
    let starts = start_node_keys(definition);
    let no_start = nodes.len() > 0 && starts.len() == 0;
    proof {
        let views = text_views(starts@);
        if exists|key: Seq<char>| is_start_key(*definition, key) {
            let key = choose|key: Seq<char>| is_start_key(*definition, key);
            assert(views.contains(key));
            assert(starts@.len() > 0);
        }
        if starts@.len() > 0 {
            assert(views.contains(views[0]));
            assert(is_start_key(*definition, views[0]));
        }
    }
    let msg = if no_start {
        Some(String::from_str("workflow must contain at least one start node"))
    } else {
        None
    };
    push_when(
        &mut errors,
        msg,
        Ghost((nodes@.len() > 0 && !(exists|key: Seq<char>| is_start_key(*definition, key)))),
        Ghost("workflow must contain at least one start node"@),
    );
    let cyclic = has_cycle(definition);
    let msg = if cyclic {
        Some(String::from_str("workflow graph must be acyclic"))
    } else {
        None
    };
    push_when(&mut errors, msg, Ghost(definition_has_cycle(*definition)), Ghost("workflow graph must be acyclic"@));
    let valid = errors.len() == 0;
    WorkflowValidationResult { valid, errors }
}

/// Nodes whose keys raise no key error have non-blank, pairwise distinct keys.
proof fn lemma_no_key_errors(nodes: Seq<WorkflowNodeSpec>)
    requires
        key_errors(nodes).len() == 0,
    ensures
        forall|i: int| 0 <= i < nodes.len() ==> !is_blank(#[trigger] nodes[i].key@),
        forall|i: int, j: int| 0 <= i < j < nodes.len() ==> #[trigger] nodes[i].key@ != #[trigger] nodes[j].key@,
    decreases nodes.len(),
{
    if nodes.len() > 0 {
        let prev = nodes.drop_last();
        lemma_no_key_errors(prev);
        assert forall|i: int| 0 <= i < nodes.len() implies !is_blank(#[trigger] nodes[i].key@) by {
            if i < prev.len() {
                assert(prev[i] == nodes[i]);
            }
        }
        assert forall|i: int, j: int| 0 <= i < j < nodes.len() implies #[trigger] nodes[i].key@
            != #[trigger] nodes[j].key@ by {
            assert(prev[i] == nodes[i]);
            if j < prev.len() {
                assert(prev[j] == nodes[j]);
            } else {
                if nodes[i].key@ == nodes[j].key@ {
                    assert(has_node_key(prev, nodes.last().key@));
                }
            }
        }
    }
}

/// Edges that raise no edge error join two nodes under a supported condition.
proof fn lemma_no_edge_errors(nodes: Seq<WorkflowNodeSpec>, edges: Seq<WorkflowEdgeSpec>)
    requires
        all_edge_errors(nodes, edges).len() == 0,
    ensures
        forall|k: int|
            0 <= k < edges.len() ==> has_node_key(nodes, #[trigger] edges[k].from@) && has_node_key(
                nodes,
                edges[k].to@,
            ) && is_allowed_condition(edge_condition(edges[k])),
    decreases edges.len(),
{
    if edges.len() > 0 {
        let prev = edges.drop_last();
        lemma_no_edge_errors(nodes, prev);
        assert forall|k: int| 0 <= k < edges.len() implies has_node_key(nodes, #[trigger] edges[k].from@)
            && has_node_key(nodes, edges[k].to@) && is_allowed_condition(edge_condition(edges[k])) by {
            if k < prev.len() {
                assert(prev[k] == edges[k]);
                assert(has_node_key(nodes, prev[k].from@));
            }
        }
    }
}

/// A definition that validates is a directed acyclic graph: it has at least one
/// node and at least one start node, its node keys are non-blank and distinct,
/// every edge joins two of its nodes under a supported condition, and no cycle
/// can be reached from any node.
pub proof fn lemma_valid_definition_is_dag(definition: WorkflowDefinition)
    requires
        workflow_errors(definition).len() == 0,
    ensures
        definition.nodes@.len() > 0,
        exists|k: Seq<char>| is_start_key(definition, k),
        forall|i: int| 0 <= i < definition.nodes@.len() ==> !is_blank(#[trigger] definition.nodes@[i].key@),
        forall|i: int, j: int|
            0 <= i < j < definition.nodes@.len() ==> #[trigger] definition.nodes@[i].key@
                != #[trigger] definition.nodes@[j].key@,
        forall|k: int|
            0 <= k < definition.edges@.len() ==> has_node_key(
                definition.nodes@,
                #[trigger] definition.edges@[k].from@,
            ) && has_node_key(definition.nodes@, definition.edges@[k].to@) && is_allowed_condition(
                edge_condition(definition.edges@[k]),
            ),
        !definition_has_cycle(definition),
{
    let nodes = definition.nodes@;
    let edges = definition.edges@;
    assert(key_errors(nodes).len() == 0);
    assert(all_edge_errors(nodes, edges).len() == 0);
    lemma_no_key_errors(nodes);
    lemma_no_edge_errors(nodes, edges);
}

/// A message is in a concatenation of message lists exactly when it is in one of them.
broadcast proof fn lemma_concat_contains(a: Seq<Seq<char>>, b: Seq<Seq<char>>, x: Seq<char>)
    ensures
        #[trigger] (a + b).contains(x) <==> (a.contains(x) || b.contains(x)),
{
    if a.contains(x) {
        let k = choose|k: int| 0 <= k < a.len() && a[k] == x;
        assert((a + b)[k] == x);
    }
    if b.contains(x) {
        let k = choose|k: int| 0 <= k < b.len() && b[k] == x;
        assert((a + b)[a.len() + k] == x);
    }
    if (a + b).contains(x) {
        let k = choose|k: int| 0 <= k < (a + b).len() && (a + b)[k] == x;
        if k < a.len() {
            assert(a[k] == x);
        } else {
            assert(b[k - a.len()] == x);
        }
    }
}

/// A conditional message list holds exactly its message, when its condition holds.
broadcast proof fn lemma_cond_msg_contains(b: bool, m: Seq<char>, x: Seq<char>)
    ensures
        #[trigger] cond_msg(b, m).contains(x) <==> (b && x == m),
{
    if b {
        assert(cond_msg(b, m)[0] == m);
    }
}

/// A message of one node's kind errors is among the kind errors of all nodes.
proof fn lemma_kind_error_in_all(nodes: Seq<WorkflowNodeSpec>, i: int, x: Seq<char>)
    requires
        0 <= i < nodes.len(),
        kind_errors(nodes[i]).contains(x),
    ensures
        all_kind_errors(nodes).contains(x),
    decreases nodes.len(),
{
    broadcast use lemma_concat_contains;

    if i < nodes.len() - 1 {
        lemma_kind_error_in_all(nodes.drop_last(), i, x);
    }
}

/// A kind error of a node makes the definition invalid and is reported.
proof fn lemma_kind_error_reported(definition: WorkflowDefinition, i: int, x: Seq<char>)
    requires
        0 <= i < definition.nodes@.len(),
        kind_errors(definition.nodes@[i]).contains(x),
    ensures
        workflow_errors(definition).contains(x),
        workflow_errors(definition).len() > 0,
{
    broadcast use lemma_concat_contains;

    lemma_kind_error_in_all(definition.nodes@, i, x);
}

/// Missing text configuration is always reported: a node of kind `kind` whose
/// configuration holds no non-blank text under `field` (for each kind and field
/// that the node kinds require) gets the error
/// "`{kind} node {key} requires config.{field}`", and the definition is invalid.
pub proof fn lemma_missing_text_setting_reported(
    definition: WorkflowDefinition,
    i: int,
    kind: Seq<char>,
    field: Seq<char>,
    what: Seq<char>,
)
    requires
        0 <= i < definition.nodes@.len(),
        node_kind(definition.nodes@[i]) == kind,
        ({
            ||| kind == "condition"@ && field == "expression"@ && what == "config.expression"@
            ||| kind == "http"@ && field == "url"@ && what == "config.url"@
            ||| kind == "grpc"@ && field == "endpoint"@ && what == "config.endpoint"@
            ||| kind == "grpc"@ && field == "service"@ && what == "config.service"@
            ||| kind == "grpc"@ && field == "method"@ && what == "config.method"@
            ||| kind == "sql"@ && field == "databaseUrl"@ && what == "config.databaseUrl"@
            ||| kind == "sql"@ && field == "sql"@ && what == "config.sql"@
            ||| kind == "script"@ && field == "source"@ && what == "config.source"@
            ||| kind == "approval"@ && field == "approvers"@ && what == "config.approvers"@
            ||| kind == "compensation"@ && field == "compensates"@ && what == "config.compensates"@
        }),
        !(exists|s: String|
            config_get(definition.nodes@[i].config, field) == Some(ConfigValue::Text(s)) && !is_blank(
                s@,
            )),
    ensures
        workflow_errors(definition).contains(
            kind + " node "@ + definition.nodes@[i].key@ + " requires "@ + what,
        ),
        workflow_errors(definition).len() > 0,
{
    broadcast use {lemma_concat_contains, lemma_cond_msg_contains};

    let n = definition.nodes@[i];
    let msg = kind + " node "@ + n.key@ + " requires "@ + what;
    match config_get(n.config, field) {
        Some(ConfigValue::Text(s)) => {
            if !is_blank(s@) {
                assert(config_get(n.config, field) == Some(ConfigValue::Text(s)) && !is_blank(s@));
            }
        },
        _ => {},
    }
    assert(config_text(n.config, field).is_none());
    assert(kind_errors(n).contains(msg));
    lemma_kind_error_reported(definition, i, msg);
}

/// A non-empty array under `key` in a node configuration.
pub open spec fn holds_items(config: Option<ConfigValue>, key: Seq<char>) -> bool {
    exists|items: Vec<ConfigValue>|
        config_get(config, key) == Some(ConfigValue::Array(items)) && items@.len() > 0
}

/// Every other missing node requirement is reported too, and makes the
/// definition invalid: an unknown kind, a job node without a job id, an sql node
/// without allowed database urls, a file_cleanup node without paths (neither a
/// non-empty `paths` array nor a non-blank `path`) or without allowed roots, a
/// sub_workflow node without a child workflow id, and a map or map_reduce node
/// without map items.
pub proof fn lemma_missing_requirement_reported(definition: WorkflowDefinition, i: int)
    requires
        0 <= i < definition.nodes@.len(),
    ensures
        ({
            let n = definition.nodes@[i];
            let kind = node_kind(n);
            let key = n.key@;
            let errors = workflow_errors(definition);
            &&& !(kind == "start"@ || kind == "end"@ || kind == "job"@ || kind == "script"@ || kind
                == "http"@ || kind == "grpc"@ || kind == "sql"@ || kind == "condition"@ || kind
                == "parallel"@ || kind == "join"@ || kind == "delay"@ || kind == "approval"@ || kind
                == "notification"@ || kind == "compensation"@ || kind == "file_cleanup"@ || kind
                == "map"@ || kind == "map_reduce"@ || kind == "sub_workflow"@) ==> errors.contains(
                "unsupported node kind: "@ + kind,
            ) && errors.len() > 0
            &&& kind == "job"@ && (n.job_id.is_none() || n.job_id.unwrap()@.len() == 0)
                ==> errors.contains("job"@ + " node "@ + key + " requires "@ + "job_id"@) && errors.len() > 0
            &&& kind == "sql"@ && !holds_items(n.config, "allowedDatabaseUrls"@) ==> errors.contains(
                "sql"@ + " node "@ + key + " requires "@ + "config.allowedDatabaseUrls"@,
            ) && errors.len() > 0
            &&& kind == "file_cleanup"@ && !holds_items(n.config, "paths"@) && !(exists|s: String|
                config_get(n.config, "path"@) == Some(ConfigValue::Text(s)) && !is_blank(s@))
                ==> errors.contains("file_cleanup"@ + " node "@ + key + " requires "@ + "config.paths"@)
                && errors.len() > 0
            &&& kind == "file_cleanup"@ && !holds_items(n.config, "allowedRoots"@) ==> errors.contains(
                "file_cleanup"@ + " node "@ + key + " requires "@ + "config.allowedRoots"@,
            ) && errors.len() > 0
            &&& kind == "sub_workflow"@ && (n.child_workflow_id.is_none()
                || n.child_workflow_id.unwrap()@.len() == 0) ==> errors.contains(
                "sub_workflow"@ + " node "@ + key + " requires "@ + "child_workflow_id"@,
            ) && errors.len() > 0
            &&& (kind == "map"@ || kind == "map_reduce"@) && (n.map_items.is_none()
                || n.map_items.unwrap()@.len() == 0) ==> errors.contains(
                kind + " node "@ + key + " requires "@ + "map_items"@,
            ) && errors.len() > 0
        }),
{
    broadcast use {lemma_concat_contains, lemma_cond_msg_contains};

    let n = definition.nodes@[i];
    let kind = node_kind(n);
    let key = n.key@;
    let c = n.config;
    match config_get(c, "allowedDatabaseUrls"@) {
        Some(ConfigValue::Array(items)) => {
            if items@.len() > 0 {
                assert(config_get(c, "allowedDatabaseUrls"@) == Some(ConfigValue::Array(items)));
            }
        },
        _ => {},
    }
    match config_get(c, "allowedRoots"@) {
        Some(ConfigValue::Array(items)) => {
            if items@.len() > 0 {
                assert(config_get(c, "allowedRoots"@) == Some(ConfigValue::Array(items)));
            }
        },
        _ => {},
    }
    match config_get(c, "paths"@) {
        Some(ConfigValue::Array(items)) => {
            if items@.len() > 0 {
                assert(config_get(c, "paths"@) == Some(ConfigValue::Array(items)));
            }
        },
        _ => {},
    }
    match config_get(c, "path"@) {
        Some(ConfigValue::Text(s)) => {
            if !is_blank(s@) {
                assert(config_get(c, "path"@) == Some(ConfigValue::Text(s)) && !is_blank(s@));
            }
        },
        _ => {},
    }
    let unsupported = "unsupported node kind: "@ + kind;
    if !is_allowed_kind(kind) {
        assert(kind_errors(n).contains(unsupported));
        lemma_kind_error_reported(definition, i, unsupported);
    }
    let m_job = "job"@ + " node "@ + key + " requires "@ + "job_id"@;
    if kind == "job"@ && missing_text(n.job_id) {
        assert(kind_errors(n).contains(m_job));
        lemma_kind_error_reported(definition, i, m_job);
    }
    let m_sql = "sql"@ + " node "@ + key + " requires "@ + "config.allowedDatabaseUrls"@;
    if kind == "sql"@ && !config_nonempty_array(c, "allowedDatabaseUrls"@) {
        assert(kind_errors(n).contains(m_sql));
        lemma_kind_error_reported(definition, i, m_sql);
    }
    let m_paths = "file_cleanup"@ + " node "@ + key + " requires "@ + "config.paths"@;
    if kind == "file_cleanup"@ && !(config_nonempty_array(c, "paths"@) || config_text(c, "path"@).is_some()) {
        assert(kind_errors(n).contains(m_paths));
        lemma_kind_error_reported(definition, i, m_paths);
    }
    let m_roots = "file_cleanup"@ + " node "@ + key + " requires "@ + "config.allowedRoots"@;
    if kind == "file_cleanup"@ && !config_nonempty_array(c, "allowedRoots"@) {
        assert(kind_errors(n).contains(m_roots));
        lemma_kind_error_reported(definition, i, m_roots);
    }
    let m_sub = "sub_workflow"@ + " node "@ + key + " requires "@ + "child_workflow_id"@;
    if kind == "sub_workflow"@ && missing_text(n.child_workflow_id) {
        assert(kind_errors(n).contains(m_sub));
        lemma_kind_error_reported(definition, i, m_sub);
    }
    let m_map = kind + " node "@ + key + " requires "@ + "map_items"@;
    if (kind == "map"@ || kind == "map_reduce"@) && missing_items(n.map_items) {
        assert(kind_errors(n).contains(m_map));
        lemma_kind_error_reported(definition, i, m_map);
    }
}

} // verus!
