//! Inbound webhook event sources: which job an action path triggers and how the
//! accepted event is labelled in the instance log.
use vstd::prelude::*;
use crate::text::{trim, trim_text};

verus! {

/// Suffix of a webhook action path.
pub const TRIGGER_SUFFIX: &'static str = ":trigger";

/// Job id named by a webhook action path `{job}:trigger`.
pub open spec fn triggered_job(action: Seq<char>) -> Option<Seq<char>> {
    let suffix = ":trigger"@;
    if action.len() > suffix.len() && action.subrange(
        action.len() - suffix.len(),
        action.len() as int,
    ) == suffix {
        Some(action.subrange(0, action.len() - suffix.len()))
    } else {
        None
    }
}

/// A trimmed label, or a default when it is absent or blank.
pub open spec fn label_or(value: Option<String>, default: Seq<char>) -> Seq<char> {
    match value {
        Some(v) => if trim(v@).len() > 0 {
            trim(v@)
        } else {
            default
        },
        None => default,
    }
}

/// Labels written with an accepted webhook event.
#[derive(Debug)]
pub struct WebhookEventLabels {
    /// External source name; `webhook` when none is given.
    pub source: String,
    /// External event type; `webhook.event` when none is given.
    pub event_type: String,
    /// Worker id under which the event is logged: `event-source:{source}`.
    pub worker_id: String,
}

/// The job a webhook action path triggers: the path without its `:trigger`
/// suffix, when that leaves a non-empty job id.
pub fn webhook_trigger_job(action: &str) -> (res: Option<String>)
    ensures
        match res {
            Some(job) => triggered_job(action@) == Some(job@),
            None => triggered_job(action@).is_none(),
        },
{
    proof {
        reveal_strlit(":trigger");
    }
    let n = action.unicode_len();
    let m: usize = 8;
    assert(TRIGGER_SUFFIX@.len() == 8);
    if n <= m {
        return None;
    }
    let tail = action.substring_char(n - m, n);
    if crate::text::text_eq(tail, TRIGGER_SUFFIX) {
        let head = action.substring_char(0, n - m);
        Some(String::from_str(head))
    } else {
        None
    }
}

/// A trimmed label, or `default` when the value is absent or blank.
fn trimmed_or(value: &Option<String>, default: &str) -> (res: String)
    ensures
        res@ == label_or(*value, default@),
{
    match value {
        Some(v) => {
            let t = trim_text(v.as_str());
            if t.unicode_len() > 0 {
                String::from_str(t)
            } else {
                String::from_str(default)
            }
        },
        None => String::from_str(default),
    }
}

/// Labels of an accepted webhook event from the request's source and event type.
pub fn webhook_event_labels(source: &Option<String>, event_type: &Option<String>) -> (res:
    WebhookEventLabels)
    ensures
        res.source@ == label_or(*source, "webhook"@),
        res.event_type@ == label_or(*event_type, "webhook.event"@),
        res.worker_id@ == "event-source:"@ + res.source@,
{
    let source_label = trimmed_or(source, "webhook");
    let event_label = trimmed_or(event_type, "webhook.event");
    let mut worker_id = String::from_str("event-source:");
    worker_id.append(source_label.as_str());
    WebhookEventLabels { source: source_label, event_type: event_label, worker_id }
}

/// Webhook action paths are a job id followed by `:trigger`: every non-empty
/// job id is named by its own path, and a path names a job only when it is that
/// (non-empty) job id followed by `:trigger`.
pub proof fn lemma_trigger_path_round_trip(job: Seq<char>, action: Seq<char>)
    ensures
        job.len() > 0 ==> triggered_job(job + ":trigger"@) == Some(job),
        triggered_job(action) matches Some(j) ==> j.len() > 0 && action == j + ":trigger"@,
{
    reveal_strlit(":trigger");
    let a = job + ":trigger"@;
    assert(a.subrange(a.len() - 8, a.len() as int) =~= ":trigger"@);
    assert(a.subrange(0, a.len() - 8) =~= job);
    if triggered_job(action) is Some {
        let j = action.subrange(0, action.len() - 8);
        assert(action =~= j + ":trigger"@);
    }
}

} // verus!
