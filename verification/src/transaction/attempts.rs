//! The attempts to commit an action.
//!
//! Each attempt loads the table afresh and plans the action on what it finds. Where the catalog
//! turns the commit down because another writer came first, a new attempt follows. The action is
//! told over all attempts which state of the table it was made from: one that must not be carried
//! over to another state says so, and the attempts end.

use crate::error::{Error, ErrorView};
use crate::table::{ActionCommit, ActionCommitView, Table, TableView};
use crate::transaction::TransactionAction;
use crate::views::outcome;
use vstd::prelude::*;

verus! {

/// What came of the last step.
pub enum CommitEvent {
    /// The table was loaded. A snapshot that the action adds gets the ID.
    Loaded { table: Table, snapshot_id: i64 },
    /// The catalog took the commit.
    Updated { table: Table },
    /// The table could not be loaded, or the catalog did not take the commit.
    Failed { error: Error },
}

/// The contents of a [`CommitEvent`].
pub enum CommitEventView {
    Loaded { table: TableView, snapshot_id: i64 },
    Updated { table: TableView },
    Failed { error: ErrorView },
}

impl View for CommitEvent {
    type V = CommitEventView;

    open spec fn view(&self) -> CommitEventView {
        match self {
            CommitEvent::Loaded { table, snapshot_id } => CommitEventView::Loaded {
                table: table@,
                snapshot_id: *snapshot_id,
            },
            CommitEvent::Updated { table } => CommitEventView::Updated { table: table@ },
            CommitEvent::Failed { error } => CommitEventView::Failed { error: error@ },
        }
    }
}

/// What to do next.
pub enum CommitStep {
    /// Load the table.
    Load,
    /// Hand the commit to the catalog.
    Update { commit: ActionCommit },
    /// Nothing: the action is committed.
    Done { table: Table },
    /// Nothing: the action cannot be committed.
    Fail { error: Error },
}

/// The contents of a [`CommitStep`].
pub enum CommitStepView {
    Load,
    Update { commit: ActionCommitView },
    Done { table: TableView },
    Fail { error: ErrorView },
}

impl View for CommitStep {
    type V = CommitStepView;

    open spec fn view(&self) -> CommitStepView {
        match self {
            CommitStep::Load => CommitStepView::Load,
            CommitStep::Update { commit } => CommitStepView::Update { commit: commit@ },
            CommitStep::Done { table } => CommitStepView::Done { table: table@ },
            CommitStep::Fail { error } => CommitStepView::Fail { error: error@ },
        }
    }
}

/// The step after an error, and the retries that are left then: a new attempt if the error allows
/// for one and a retry is left, else the end.
pub open spec fn after_error(retries: nat, error: ErrorView) -> (CommitStepView, nat) {
    if error.retryable && retries > 0 {
        (CommitStepView::Load, (retries - 1) as nat)
    } else {
        (CommitStepView::Fail { error }, retries)
    }
}

/// Whether the result of planning leads to a step and to retries left: a commit goes to the
/// catalog, an error is dealt with.
pub open spec fn after_plan(
    retries: nat,
    result: Result<ActionCommitView, ErrorView>,
    step: CommitStepView,
    left: nat,
) -> bool {
    match result {
        Ok(commit) => step == (CommitStepView::Update { commit }) && left == retries,
        Err(error) => (step, left) == after_error(retries, error),
    }
}

/// Whether an event may lead to a step and to retries left. A loaded table leads to the commit
/// that the action plans on that table, as made from the table with its main branch at `base`.
pub open spec fn leads_to<A: TransactionAction>(
    action: A,
    base: Option<i64>,
    retries: nat,
    event: CommitEventView,
    step: CommitStepView,
    left: nat,
) -> bool {
    match event {
        CommitEventView::Loaded { table, snapshot_id } => exists|
            result: Result<ActionCommitView, ErrorView>,
        |
            action.plans(base, table, snapshot_id, result) && #[trigger] after_plan(
                retries,
                result,
                step,
                left,
            ),
        CommitEventView::Updated { table } => step == (CommitStepView::Done { table }) && left
            == retries,
        CommitEventView::Failed { error } => (step, left) == after_error(retries, error),
    }
}

/// An action on its way to the catalog. The first step is to load the table; `step` says what
/// follows each event.
pub struct CommitAttempts<A: TransactionAction> {
    pub action: A,
    /// What the main branch pointed to when the caller read the table and made the action.
    pub base: Option<i64>,
    pub retries_left: u32,
}

impl<A: TransactionAction> CommitAttempts<A> {
    /// Attempts to commit the action, the first one and as many retries.
    pub fn new(action: A, base: Option<i64>, num_retries: u32) -> (attempts: Self)
        ensures
            attempts.action == action,
            attempts.base == base,
            attempts.retries_left == num_retries,
    {
        CommitAttempts { action, base, retries_left: num_retries }
    }

    /// The step after an error.
    fn fail(&mut self, error: Error) -> (step: CommitStep)
        ensures
            final(self).action == old(self).action,
            final(self).base == old(self).base,
            (step@, final(self).retries_left as nat) == after_error(
                old(self).retries_left as nat,
                error@,
            ),
            step == CommitStep::Load || step == (CommitStep::Fail { error }),
    {
        if error.retryable && self.retries_left > 0 {
            self.retries_left = self.retries_left - 1;
            CommitStep::Load
        } else {
            CommitStep::Fail { error }
        }
    }

    /// The step after an event.
    pub fn step(&mut self, event: CommitEvent) -> (step: CommitStep)
        ensures
            final(self).action == old(self).action,
            final(self).base == old(self).base,
            leads_to(
                old(self).action,
                old(self).base,
                old(self).retries_left as nat,
                event@,
                step@,
                final(self).retries_left as nat,
            ),
            event matches CommitEvent::Updated { table } ==> step == (CommitStep::Done { table })
                && final(self).retries_left == old(self).retries_left,
            event matches CommitEvent::Failed { error } ==> if error.retryable && old(
                self,
            ).retries_left > 0 {
                step == CommitStep::Load && final(self).retries_left == old(self).retries_left - 1
            } else {
                step == (CommitStep::Fail { error }) && final(self).retries_left == old(
                    self,
                ).retries_left
            },
    {
        match event {
            CommitEvent::Loaded { table, snapshot_id } => {
                let result = self.action.commit(self.base, &table, snapshot_id);
                let ghost planned = outcome(result);
                let step = match result {
                    Ok(commit) => CommitStep::Update { commit },
                    Err(error) => self.fail(error),
                };
                assert(old(self).action.plans(old(self).base, table@, snapshot_id, planned));
                assert(after_plan(
                    old(self).retries_left as nat,
                    planned,
                    step@,
                    self.retries_left as nat,
                ));
                step
            },
            CommitEvent::Updated { table } => CommitStep::Done { table },
            CommitEvent::Failed { error } => self.fail(error),
        }
    }
}

} // verus!
