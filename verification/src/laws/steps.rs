//! Attempts: what step follows each event, and what it does to the retries that are left.

use crate::error::ErrorView;
use crate::table::{ActionCommitView, TableView};
use crate::transaction::attempts::{after_plan, leads_to, CommitEventView, CommitStepView};
use crate::transaction::TransactionAction;
use vstd::prelude::*;

verus! {

/// After the table was loaded, the action is planned on that table and no other, as made from the
/// state that the caller read. A plan goes to the catalog as it is, and no retry is used up. An
/// error that a fresh attempt may mend leads to one and uses up a retry, if a retry is left; any
/// other error ends the attempts, as it is.
pub proof fn law_step_after_loading<A: TransactionAction>(
    action: A,
    base: Option<i64>,
    retries: nat,
    table: TableView,
    snapshot_id: i64,
    step: CommitStepView,
    left: nat,
)
    requires
        leads_to(
            action,
            base,
            retries,
            CommitEventView::Loaded { table, snapshot_id },
            step,
            left,
        ),
    ensures
        match step {
            CommitStepView::Update { commit } => action.plans(base, table, snapshot_id, Ok(commit))
                && left == retries,
            CommitStepView::Load => left + 1 == retries && exists|error: ErrorView|
                error.retryable && #[trigger] action.plans(base, table, snapshot_id, Err(error)),
            CommitStepView::Fail { error } => action.plans(base, table, snapshot_id, Err(error))
                && left == retries && (!error.retryable || retries == 0),
            CommitStepView::Done { .. } => false,
        },
{
    let result = choose|result: Result<ActionCommitView, ErrorView>|
        action.plans(base, table, snapshot_id, result) && #[trigger] after_plan(
            retries,
            result,
            step,
            left,
        );
    match result {
        Ok(commit) => {},
        Err(error) => {
            assert(action.plans(base, table, snapshot_id, Err(error)));
        },
    }
}

/// Once the catalog took the commit, the attempts are done, with the table that it gave back. No
/// retry is used up.
pub proof fn law_step_after_the_catalog_took_it<A: TransactionAction>(
    action: A,
    base: Option<i64>,
    retries: nat,
    table: TableView,
    step: CommitStepView,
    left: nat,
)
    requires
        leads_to(action, base, retries, CommitEventView::Updated { table }, step, left),
    ensures
        step == (CommitStepView::Done { table }),
        left == retries,
{
}

/// After a failure that a fresh attempt may mend, the table is loaded again and a retry is used up,
/// if there is one. After any other failure the attempts end with the error as it is.
pub proof fn law_step_after_a_failure<A: TransactionAction>(
    action: A,
    base: Option<i64>,
    retries: nat,
    error: ErrorView,
    step: CommitStepView,
    left: nat,
)
    requires
        leads_to(action, base, retries, CommitEventView::Failed { error }, step, left),
    ensures
        error.retryable && retries > 0 ==> step == CommitStepView::Load && left + 1 == retries,
        !error.retryable || retries == 0 ==> step == (CommitStepView::Fail { error }) && left
            == retries,
{
}

} // verus!
