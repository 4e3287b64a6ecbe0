//! Per-item outcomes and the batch failure report.

use vstd::prelude::*;
use crate::error::Error;
use crate::error::message_model;

verus! {

/// How one item's download task ended.
pub enum OutcomeKind {
    /// The asset was fetched and written to its destination.
    Success,
    /// The destination file already existed; no request was made.
    Skipped,
    /// The task failed; the rest of the batch went on regardless.
    Failed(Error),
}

/// The outcome of one item's task, tagged with the item for diagnosis.
pub struct DownloadOutcome {
    pub item_id: String,
    pub kind: OutcomeKind,
}

/// The report lines of one outcome: a failure contributes a header
/// naming the item and an indented line for its cause; the other
/// outcomes are silent.
pub open spec fn outcome_lines(o: DownloadOutcome) -> Seq<Seq<char>> {
    match o.kind {
        OutcomeKind::Failed(e) => seq![
            "Failed to download id: "@ + o.item_id@,
            "  "@ + message_model(e.model()),
        ],
        OutcomeKind::Success => Seq::empty(),
        OutcomeKind::Skipped => Seq::empty(),
    }
}

/// The report of a whole batch: every failure's lines, in outcome
/// order; the batch is never aborted on their account.
pub open spec fn report_model(os: Seq<DownloadOutcome>) -> Seq<Seq<char>>
    decreases os.len(),
{
    if os.len() == 0 {
        Seq::empty()
    } else {
        report_model(os.drop_last()) + outcome_lines(os.last())
    }
}

/// The views of a sequence of strings.
pub open spec fn views_of(ss: Seq<String>) -> Seq<Seq<char>> {
    ss.map_values(|s: String| s@)
}

/// Renders the failure report of a finished batch.
pub fn report(outcomes: &Vec<DownloadOutcome>) -> (lines: Vec<String>)
    ensures
        views_of(lines@) == report_model(outcomes@),
{
    let n = outcomes.len();
    let mut lines: Vec<String> = Vec::new();
    let mut i: usize = 0;
    proof {
        assert(views_of(lines@) =~= report_model(outcomes@.take(0)));
    }
    while i < n
        invariant
            i <= n,
            n == outcomes@.len(),
            views_of(lines@) == report_model(outcomes@.take(i as int)),
        decreases n - i,
    {
        proof {
            assert(outcomes@.take(i as int + 1).drop_last() =~= outcomes@.take(i as int));
            assert(outcomes@.take(i as int + 1).last() == outcomes@[i as int]);
        }
        match &outcomes[i].kind {
            OutcomeKind::Failed(e) => {
                let mut header = String::from_str("Failed to download id: ");
                header.append(outcomes[i].item_id.as_str());
                let mut cause = String::from_str("  ");
                let msg = e.message();
                cause.append(msg.as_str());
                lines.push(header);
                lines.push(cause);
                proof {
                    assert(views_of(lines@) =~= report_model(outcomes@.take(i as int + 1)));
                }
            },
            OutcomeKind::Success => {
                proof {
                    assert(views_of(lines@) =~= report_model(outcomes@.take(i as int + 1)));
                }
            },
            OutcomeKind::Skipped => {
                proof {
                    assert(views_of(lines@) =~= report_model(outcomes@.take(i as int + 1)));
                }
            },
        }
        i = i + 1;
    }
    proof {
        assert(outcomes@.take(n as int) =~= outcomes@);
    }
    lines
}

} // verus!
