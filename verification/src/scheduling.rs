//! Operator-facing scheduling readiness advice for jobs.
use vstd::prelude::*;
use crate::management_api::{JobSchedulingAdviceResponse, JobSummary};
use crate::text::{decimal_digits, decimal_text, is_blank, is_blank_text, text_eq, trim, trim_text};

verus! {

/// Number of most recent instances inspected for failures.
pub const RECENT_INSTANCE_WINDOW: usize = 20;

/// Worker capability a job needs: `script` for a job bound to a managed
/// script, otherwise `processor:` followed by the trimmed processor name, or by
/// the job name when no processor is named.
pub open spec fn required_capability(job: JobSummary) -> Seq<char> {
    let script_bound = match job.script_id {
        Some(s) => !is_blank(s@),
        None => false,
    };
    if script_bound {
        "script"@
    } else {
        let processor = match job.processor_name {
            Some(p) => if trim(p@).len() > 0 {
                trim(p@)
            } else {
                job.name@
            },
            None => job.name@,
        };
        "processor:"@ + processor
    }
}

/// Readiness, severity and reason for a number of eligible workers and of recent failures.
pub open spec fn advice(eligible: nat, recent_failures: nat) -> (bool, Seq<char>, Seq<char>) {
    if eligible == 0 {
        (false, "error"@, "no online worker advertises the required capability"@)
    } else if recent_failures > 0 {
        (true, "warning"@, decimal_digits(eligible) + " eligible worker(s), but recent failures exist"@)
    } else {
        (true, "ok"@, decimal_digits(eligible) + " eligible worker(s) online"@)
    }
}

/// Number of `failed` statuses among the given ones.
pub open spec fn failed_count(statuses: Seq<Seq<char>>) -> nat
    decreases statuses.len(),
{
    if statuses.len() == 0 {
        0
    } else {
        failed_count(statuses.drop_last()) + if statuses.last() == "failed"@ {
            1nat
        } else {
            0nat
        }
    }
}

/// Worker capability required to run a job.
pub fn required_capability_for_job(job: &JobSummary) -> (res: Option<String>)
    ensures
        res matches Some(c) && c@ == required_capability(*job),
{
    let script_bound = match &job.script_id {
        Some(s) => !is_blank_text(s.as_str()),
        None => false,
    };
    if script_bound {
        return Some(String::from_str("script"));
    }
    let processor: &str = match &job.processor_name {
        Some(p) => {
            let t = trim_text(p.as_str());
            if t.unicode_len() > 0 {
                t
            } else {
                job.name.as_str()
            }
        },
        None => job.name.as_str(),
    };
    let mut capability = String::from_str("processor:");
    capability.append(processor);
    Some(capability)
}

/// Readiness, severity and reason for the eligible workers and the number of
/// recent failures.
pub fn advice_status(eligible_workers: &[String], recent_failures: usize) -> (res: (bool, String, String))
    ensures
        res.0 == advice(eligible_workers@.len(), recent_failures as nat).0,
        res.1@ == advice(eligible_workers@.len(), recent_failures as nat).1,
        res.2@ == advice(eligible_workers@.len(), recent_failures as nat).2,
{
    if eligible_workers.len() == 0 {
        return (
            false,
            String::from_str("error"),
            String::from_str("no online worker advertises the required capability"),
        );
    }
    let count = decimal_text(eligible_workers.len() as u64);
    if recent_failures > 0 {
        let mut reason = count;
        reason.append(" eligible worker(s), but recent failures exist");
        return (true, String::from_str("warning"), reason);
    }
    let mut reason = count;
    reason.append(" eligible worker(s) online");
    (true, String::from_str("ok"), reason)
}

/// Statuses of the most recent instances inspected, newest first.
pub open spec fn recent_window(statuses: Seq<Seq<char>>) -> Seq<Seq<char>> {
    if statuses.len() <= RECENT_INSTANCE_WINDOW {
        statuses
    } else {
        statuses.take(RECENT_INSTANCE_WINDOW as int)
    }
}

/// Scheduling advice for a job, given the workers eligible to run it and the
/// statuses of its instances, newest first: the first twenty instances are
/// inspected and those that failed are counted.
pub fn scheduling_advice(job: &JobSummary, eligible_workers: Vec<String>, instance_statuses: &Vec<String>) -> (res:
    JobSchedulingAdviceResponse)
    ensures
        res.required_capability matches Some(c) && c@ == required_capability(*job),
        res.eligible_workers == eligible_workers,
        res.recent_instances == recent_window(instance_statuses@.map_values(|s: String| s@)).len(),
        res.recent_failures == failed_count(recent_window(instance_statuses@.map_values(|s: String| s@))),
        res.ready == advice(eligible_workers@.len(), res.recent_failures as nat).0,
        res.severity@ == advice(eligible_workers@.len(), res.recent_failures as nat).1,
        res.reason@ == advice(eligible_workers@.len(), res.recent_failures as nat).2,
{
    let required = required_capability_for_job(job);
    let ghost views = instance_statuses@.map_values(|s: String| s@);
    let window = if instance_statuses.len() < RECENT_INSTANCE_WINDOW {
        instance_statuses.len()
    } else {
        RECENT_INSTANCE_WINDOW
    };
    let mut failures: usize = 0;
    let mut i: usize = 0;
    while i < window
        invariant
            window <= instance_statuses.len(),
            window <= RECENT_INSTANCE_WINDOW,
            i <= window,
            views == instance_statuses@.map_values(|s: String| s@),
            failures as nat == failed_count(views.take(i as int)),
            failures <= i,
        decreases window - i,
    {
        let ghost pre = views.take(i + 1);
        assert(pre.drop_last() =~= views.take(i as int));
        assert(pre.last() == instance_statuses@[i as int]@);
        if text_eq(instance_statuses[i].as_str(), "failed") {
            failures = failures + 1;
        }
        i = i + 1;
    }
    assert(views.take(window as int) =~= recent_window(views));
    let (ready, severity, reason) = advice_status(eligible_workers.as_slice(), failures);
    JobSchedulingAdviceResponse {
        ready,
        severity,
        reason,
        required_capability: required,
        eligible_workers,
        recent_instances: window as u64,
        recent_failures: failures as u64,
    }
}

/// Advice is ready exactly when some worker is eligible, and its severity is
/// `ok` exactly when some worker is eligible and no recent instance failed.
pub proof fn lemma_advice_readiness(eligible: nat, recent_failures: nat)
    ensures
        advice(eligible, recent_failures).0 <==> eligible > 0,
        advice(eligible, recent_failures).1 == "ok"@ <==> (eligible > 0 && recent_failures == 0),
{
    reveal_strlit("ok");
    reveal_strlit("error");
    reveal_strlit("warning");
    assert("error"@ != "ok"@) by {
        assert("error"@.len() != "ok"@.len());
    }
    assert("warning"@ != "ok"@) by {
        assert("warning"@.len() != "ok"@.len());
    }
}

/// Failures are counted among at most twenty recent instances: never more
/// failures than instances inspected, never more instances than the window.
pub proof fn lemma_recent_failures_bounded(statuses: Seq<Seq<char>>)
    ensures
        failed_count(recent_window(statuses)) <= recent_window(statuses).len(),
        recent_window(statuses).len() <= RECENT_INSTANCE_WINDOW,
{
    lemma_failed_count_bounded(recent_window(statuses));
}

proof fn lemma_failed_count_bounded(statuses: Seq<Seq<char>>)
    ensures
        failed_count(statuses) <= statuses.len(),
    decreases statuses.len(),
{
    if statuses.len() > 0 {
        lemma_failed_count_bounded(statuses.drop_last());
    }
}

/// The failure count of a list of statuses is the number of its entries that
/// are exactly `failed`.
proof fn lemma_failed_count_is_filter(statuses: Seq<Seq<char>>)
    ensures
        failed_count(statuses) == statuses.filter(|st: Seq<char>| st == "failed"@).len(),
    decreases statuses.len(),
{
    if statuses.len() > 0 {
        let prev = statuses.drop_last();
        lemma_failed_count_is_filter(prev);
        assert(statuses =~= prev.push(statuses.last()));
        prev.lemma_filter_len_push(|st: Seq<char>| st == "failed"@, statuses.last());
    }
}

/// Recent failures are counted over the first twenty statuses (all of them
/// when there are fewer), and they are the statuses there that are exactly
/// `failed`: any other status (running, pending, succeeded, ...) adds nothing.
/// So a window without a `failed` status has no failures, and with at least one
/// eligible worker the advice is a ready `ok`.
pub proof fn lemma_failures_count_failed_statuses(statuses: Seq<Seq<char>>, eligible: nat)
    ensures
        recent_window(statuses).len() == (if statuses.len() < 20 {
            statuses.len()
        } else {
            20
        }),
        forall|i: int|
            0 <= i < recent_window(statuses).len() ==> #[trigger] recent_window(statuses)[i] == statuses[i],
        failed_count(recent_window(statuses)) == recent_window(statuses).filter(
            |st: Seq<char>| st == "failed"@,
        ).len(),
        (forall|i: int| 0 <= i < recent_window(statuses).len() ==> #[trigger] statuses[i] != "failed"@)
            ==> failed_count(recent_window(statuses)) == 0,
        (forall|i: int| 0 <= i < recent_window(statuses).len() ==> #[trigger] statuses[i] != "failed"@)
            && eligible > 0 ==> advice(eligible, failed_count(recent_window(statuses))).0
            && advice(eligible, failed_count(recent_window(statuses))).1 == "ok"@,
{
    let w = recent_window(statuses);
    let pred = |st: Seq<char>| st == "failed"@;
    lemma_failed_count_is_filter(w);
    if forall|i: int| 0 <= i < w.len() ==> #[trigger] statuses[i] != "failed"@ {
        assert forall|i: int| 0 <= i < w.len() implies !pred(#[trigger] w[i]) by {
            assert(w[i] == statuses[i]);
        }
        w.lemma_all_neg_filter_empty(pred);
    }
}

/// The capability a job needs: `script` exactly when it is bound to a
/// non-blank script id; otherwise `processor:` followed by its processor name
/// without surrounding white space when that is not blank, else by its name.
pub proof fn lemma_required_capability_choice(job: JobSummary)
    ensures
        (job.script_id matches Some(s) && trim(s@).len() > 0) ==> required_capability(job) == "script"@,
        !(job.script_id matches Some(s) && trim(s@).len() > 0) ==> {
            let cap = required_capability(job);
            &&& cap.len() >= 10
            &&& cap.take(10) == "processor:"@
            &&& (job.processor_name matches Some(p) && trim(p@).len() > 0) ==> cap.skip(10) == trim(
                job.processor_name.unwrap()@,
            )
            &&& !(job.processor_name matches Some(p) && trim(p@).len() > 0) ==> cap.skip(10) == job.name@
        },
{
    reveal_strlit("processor:");
    if !(job.script_id matches Some(s) && trim(s@).len() > 0) {
        let cap = required_capability(job);
        let rest = if job.processor_name matches Some(p) && trim(p@).len() > 0 {
            trim(job.processor_name.unwrap()@)
        } else {
            job.name@
        };
        assert(cap == "processor:"@ + rest);
        assert(cap.take(10) =~= "processor:"@);
        assert(cap.skip(10) =~= rest);
    }
}

} // verus!
