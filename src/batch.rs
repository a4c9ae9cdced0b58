//! The batch coordinator: decides, step by step, what the holder of the
//! batch's one connection does next, and assembles the batch's outcome.
//!
//! The holder runs the loop: it performs each `Step` on the connection and
//! hands back what came of it as an `Event`, until the step is `Done`.
use vstd::prelude::*;
use crate::{QueryResult, QueryResults};

verus! {

/// The stage of one statement at which it failed.
pub enum StatementErrorKind {
    Preparation,
    ParameterBinding,
    Execution,
}

/// A failed statement, as the store reported it.
pub struct StatementFailure {
    pub kind: StatementErrorKind,
    pub message: String,
}

/// Why a batch failed.
pub enum BatchError {
    /// No connection could be had.
    PoolExhausted(String),
    /// The statement at `index` failed.
    Statement { index: usize, kind: StatementErrorKind, message: String },
    /// Opening, committing or rolling back the transaction failed.
    Transaction(String),
}

impl BatchError {
    /// The store's own words for the failure.
    pub fn message(&self) -> (r: String)
        ensures
            r@ == match self {
                BatchError::PoolExhausted(m) => m@,
                BatchError::Statement { message, .. } => message@,
                BatchError::Transaction(m) => m@,
            },
    {
        match self {
            BatchError::PoolExhausted(m) => m.clone(),
            BatchError::Statement { message, .. } => message.clone(),
            BatchError::Transaction(m) => m.clone(),
        }
    }
}

/// What to do next on the connection.
pub enum Step {
    /// Open a transaction.
    Begin,
    /// Run the statement at this index.
    Run(usize),
    Commit,
    Rollback,
    /// Nothing more; the outcome is ready.
    Done,
}

/// What came of the last step.
pub enum Event {
    Begun(Result<(), String>),
    Ran(Result<QueryResult, StatementFailure>),
    Committed(Result<(), String>),
    RolledBack(Result<(), String>),
}

/// The state of a batch in progress.
pub struct Batch {
    pub run_in_transaction: bool,
    /// The number of statements in the batch.
    pub total: usize,
    /// The results of the statements that succeeded, in input order.
    pub results: Vec<QueryResult>,
    /// The step last handed out.
    pub step: Step,
    pub error: Option<BatchError>,
    /// How many leading statements have writes that are durable in the store:
    /// without a transaction a statement's writes are applied when it
    /// succeeds; within one they are applied at commit.
    pub durable: Ghost<nat>,
    /// How many statements have writes held in the open transaction.
    pub pending: Ghost<nat>,
}

/// Whether an event answers a step.
pub open spec fn answers(step: Step, ev: Event) -> bool {
    match step {
        Step::Begin => ev is Begun,
        Step::Run(_) => ev is Ran,
        Step::Commit => ev is Committed,
        Step::Rollback => ev is RolledBack,
        Step::Done => false,
    }
}

impl Batch {
    pub open spec fn wf(&self) -> bool {
        &&& self.results.len() <= self.total
        &&& self.durable@ <= self.total
        &&& match self.step {
            Step::Begin => {
                &&& self.run_in_transaction
                &&& self.results.len() == 0
                &&& self.error is None
                &&& self.durable@ == 0
                &&& self.pending@ == 0
            },
            Step::Run(i) => {
                &&& i < self.total
                &&& self.results.len() == i
                &&& self.error is None
                &&& if self.run_in_transaction {
                    self.durable@ == 0 && self.pending@ == i
                } else {
                    self.durable@ == i && self.pending@ == 0
                }
            },
            Step::Commit => {
                &&& self.run_in_transaction
                &&& self.results.len() == self.total
                &&& self.error is None
                &&& self.durable@ == 0
                &&& self.pending@ == self.total
            },
            Step::Rollback => {
                &&& self.run_in_transaction
                &&& self.error is Some
                &&& self.durable@ == 0
                &&& match self.error {
                    Some(BatchError::Statement { index, .. }) => index < self.total
                        && self.results.len() == index,
                    _ => true,
                }
            },
            Step::Done => {
                &&& self.pending@ == 0
                &&& match self.error {
                    None => self.results.len() == self.total && self.durable@ == self.total,
                    Some(BatchError::Statement { index, .. }) => {
                        &&& index < self.total
                        &&& self.results.len() == index
                        &&& if self.run_in_transaction {
                            self.durable@ == 0
                        } else {
                            self.durable@ == index
                        }
                    },
                    Some(_) => self.run_in_transaction && self.durable@ == 0,
                }
            },
        }
    }

    /// Starts a batch of `total` statements: a transactional batch first
    /// opens a transaction, any other runs its first statement, if any.
    pub fn new(run_in_transaction: bool, total: usize) -> (r: Batch)
        ensures
            r.wf(),
            r.run_in_transaction == run_in_transaction,
            r.total == total,
            r.results.len() == 0,
            r.error is None,
            r.durable@ == 0,
            run_in_transaction ==> r.step == Step::Begin,
            !run_in_transaction && total > 0 ==> r.step == Step::Run(0),
            !run_in_transaction && total == 0 ==> r.step == Step::Done,
    {
        let step = if run_in_transaction {
            Step::Begin
        } else if total > 0 {
            Step::Run(0)
        } else {
            Step::Done
        };
        Batch {
            run_in_transaction,
            total,
            results: Vec::new(),
            step,
            error: None,
            durable: Ghost(0),
            pending: Ghost(0),
        }
    }

    /// The step to perform next.
    pub fn next_step(&self) -> (r: Step)
        ensures
            r == self.step,
    {
        match self.step {
            Step::Begin => Step::Begin,
            Step::Run(i) => Step::Run(i),
            Step::Commit => Step::Commit,
            Step::Rollback => Step::Rollback,
            Step::Done => Step::Done,
        }
    }

    /// Takes what came of the last step and decides the next one.
    pub fn on_event(&mut self, ev: Event)
        requires
            old(self).wf(),
            answers(old(self).step, ev),
        ensures
            final(self).wf(),
            final(self).run_in_transaction == old(self).run_in_transaction,
            final(self).total == old(self).total,
            match (old(self).step, ev) {
                (Step::Begin, Event::Begun(Ok(()))) => {
                    &&& final(self).error is None
                    &&& final(self).results@ == old(self).results@
                    &&& final(self).step == if old(self).total > 0 {
                        Step::Run(0)
                    } else {
                        Step::Commit
                    }
                },
                (Step::Begin, Event::Begun(Err(m))) => {
                    &&& final(self).error == Some(BatchError::Transaction(m))
                    &&& final(self).step == Step::Done
                },
                (Step::Run(i), Event::Ran(Ok(res))) => {
                    &&& final(self).error is None
                    &&& final(self).results@ == old(self).results@.push(res)
                    &&& final(self).step == if i + 1 < old(self).total {
                        Step::Run((i + 1) as usize)
                    } else if old(self).run_in_transaction {
                        Step::Commit
                    } else {
                        Step::Done
                    }
                },
                (Step::Run(i), Event::Ran(Err(f))) => {
                    &&& final(self).error == Some(
                        BatchError::Statement { index: i, kind: f.kind, message: f.message },
                    )
                    &&& final(self).step == if old(self).run_in_transaction {
                        Step::Rollback
                    } else {
                        Step::Done
                    }
                },
                (Step::Commit, Event::Committed(Ok(()))) => {
                    &&& final(self).error is None
                    &&& final(self).results@ == old(self).results@
                    &&& final(self).step == Step::Done
                },
                (Step::Commit, Event::Committed(Err(m))) => {
                    &&& final(self).error == Some(BatchError::Transaction(m))
                    &&& final(self).step == Step::Rollback
                },
                (Step::Rollback, Event::RolledBack(_)) => {
                    &&& final(self).error == old(self).error
                    &&& final(self).step == Step::Done
                },
                _ => false,
            },
    {
        match ev {
            Event::Begun(Ok(())) => {
                self.step = if self.total > 0 {
                    Step::Run(0)
                } else {
                    Step::Commit
                };
            },
            Event::Begun(Err(m)) => {
                self.error = Some(BatchError::Transaction(m));
                self.step = Step::Done;
            },
            Event::Ran(Ok(res)) => {
                let i = self.results.len();
                self.results.push(res);
                if self.run_in_transaction {
                    self.pending = Ghost(self.pending@ + 1);
                } else {
                    self.durable = Ghost(self.durable@ + 1);
                }
                self.step = if i + 1 < self.total {
                    Step::Run(i + 1)
                } else if self.run_in_transaction {
                    Step::Commit
                } else {
                    Step::Done
                };
            },
            Event::Ran(Err(f)) => {
                let i = self.results.len();
                self.error = Some(
                    BatchError::Statement { index: i, kind: f.kind, message: f.message },
                );
                self.step = if self.run_in_transaction {
                    Step::Rollback
                } else {
                    Step::Done
                };
            },
            Event::Committed(Ok(())) => {
                self.durable = Ghost(self.durable@ + self.pending@);
                self.pending = Ghost(0);
                self.step = Step::Done;
            },
            Event::Committed(Err(m)) => {
                self.error = Some(BatchError::Transaction(m));
                self.step = Step::Rollback;
            },
            Event::RolledBack(_) => {
                self.pending = Ghost(0);
                self.step = Step::Done;
            },
        }
    }

    /// The outcome of a finished batch, with the batch's measured duration.
    pub fn finish(self, execution_time_us: u64) -> (r: Result<QueryResults, BatchError>)
        requires
            self.wf(),
            self.step is Done,
        ensures
            match r {
                Ok(q) => {
                    &&& self.error is None
                    &&& q.results@ == self.results@
                    &&& q.results.len() == self.total
                    &&& q.execution_time_us == execution_time_us
                },
                Err(e) => self.error == Some(e),
            },
    {
        match self.error {
            None => Ok(QueryResults { execution_time_us, results: self.results }),
            Some(e) => Err(e),
        }
    }
}

/// A transactional batch is all or nothing: once it is done, either every
/// statement's writes are durable and it succeeded, or none are and it failed.
pub proof fn lemma_transaction_all_or_nothing(b: Batch)
    requires
        b.wf(),
        b.run_in_transaction,
        b.step is Done,
    ensures
        b.error is None ==> b.durable@ == b.total,
        b.error is Some ==> b.durable@ == 0,
{
}

/// Without a transaction, a batch that fails at a statement keeps the writes
/// of every statement before it, and runs none after it.
pub proof fn lemma_autocommit_keeps_prefix(b: Batch)
    requires
        b.wf(),
        !b.run_in_transaction,
        b.step is Done,
        b.error is Some,
    ensures
        b.error matches Some(BatchError::Statement { index, .. }) && b.durable@ == index
            && b.results.len() == index,
{
}

} // verus!
