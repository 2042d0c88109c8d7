//! Cloning every package that depends on a package: one clone for each
//! name, one after the other, whatever became of the clones before it.

use crate::job::{
    duplicate_text, CloneRequest, CloneRequestModel, PackageQuery, PackageQueryModel,
    SourceLocation, SourceLocationModel,
};
use vstd::prelude::*;
use vstd::string::StringExecFns;

verus! {

/// The clone of the dependent `name`: the same source and the same version
/// constraint for every dependent, and, where a prefix was given, the
/// directory `name` under it.
pub open spec fn dependent_request(
    name: Seq<char>,
    source: SourceLocationModel,
    prefix: Option<Seq<char>>,
    version: Option<Seq<char>>,
) -> CloneRequestModel {
    CloneRequestModel {
        query: PackageQueryModel { name: Some(name), version },
        source,
        prefix: match prefix {
            Some(path) => Some(path + "/"@ + name),
            None => None,
        },
    }
}

/// A batch in progress: the dependents, how many clones are over, and how
/// many of those failed. The clone of dependent `done` is under way.
#[derive(Debug, PartialEq, Eq)]
pub struct Batch {
    pub names: Vec<String>,
    pub source: SourceLocation,
    pub prefix: Option<String>,
    pub version: Option<String>,
    pub done: usize,
    pub failed: usize,
}

/// What a [`Batch`] stands for.
pub struct BatchModel {
    pub names: Seq<Seq<char>>,
    pub source: SourceLocationModel,
    pub prefix: Option<Seq<char>>,
    pub version: Option<Seq<char>>,
    pub done: nat,
    pub failed: nat,
}

impl BatchModel {
    /// A clone is under way, and no more clones failed than are over.
    pub open spec fn well_formed(self) -> bool {
        self.done < self.names.len() && self.failed <= self.done
    }

    /// The request of the clone that is under way.
    pub open spec fn current(self) -> CloneRequestModel {
        dependent_request(self.names[self.done as int], self.source, self.prefix, self.version)
    }
}

impl View for Batch {
    type V = BatchModel;

    open spec fn view(&self) -> BatchModel {
        BatchModel {
            names: self.names.deep_view(),
            source: self.source@,
            prefix: self.prefix.deep_view(),
            version: self.version.deep_view(),
            done: self.done as nat,
            failed: self.failed as nat,
        }
    }
}

/// What follows a clone: the next clone, or the end of the batch.
#[derive(Debug, PartialEq, Eq)]
pub enum BatchStep {
    /// Run the clone that `request` describes and report to `batch` how it
    /// ended.
    Clone { batch: Batch, request: CloneRequest },
    /// The batch is over: so many clones were attempted, so many failed.
    Finish { attempted: usize, failed: usize },
}

/// What a [`BatchStep`] stands for.
pub enum BatchStepModel {
    Clone { batch: BatchModel, request: CloneRequestModel },
    Finish { attempted: nat, failed: nat },
}

impl View for BatchStep {
    type V = BatchStepModel;

    open spec fn view(&self) -> BatchStepModel {
        match self {
            BatchStep::Clone { batch, request } => BatchStepModel::Clone {
                batch: batch@,
                request: request@,
            },
            BatchStep::Finish { attempted, failed } => BatchStepModel::Finish {
                attempted: *attempted as nat,
                failed: *failed as nat,
            },
        }
    }
}

/// The step of a batch in which `done` clones are over: the clone of the
/// next dependent, or the end where none is left.
pub open spec fn batch_step(batch: BatchModel) -> BatchStepModel {
    if batch.done < batch.names.len() {
        BatchStepModel::Clone { batch, request: batch.current() }
    } else {
        BatchStepModel::Finish { attempted: batch.names.len(), failed: batch.failed }
    }
}

/// A batch begins with the clone of the first dependent.
pub open spec fn batch_started(
    names: Seq<Seq<char>>,
    source: SourceLocationModel,
    prefix: Option<Seq<char>>,
    version: Option<Seq<char>>,
) -> BatchStepModel {
    batch_step(BatchModel { names, source, prefix, version, done: 0, failed: 0 })
}

/// What follows the clone that is under way: the next dependent's clone,
/// whether this one succeeded or not. A failure is counted.
pub open spec fn batch_next(batch: BatchModel, succeeded: bool) -> BatchStepModel {
    batch_step(
        BatchModel {
            done: batch.done + 1,
            failed: if succeeded {
                batch.failed
            } else {
                batch.failed + 1
            },
            ..batch
        },
    )
}

fn request_for(batch: &Batch) -> (request: CloneRequest)
    requires
        batch.done < batch.names.len(),
    ensures
        request@ == batch@.current(),
{
    let name = batch.names[batch.done].clone();
    let prefix = match &batch.prefix {
        Some(path) => {
            let mut under = path.clone();
            under.append("/");
            under.append(name.as_str());
            Some(under)
        },
        None => None,
    };
    CloneRequest {
        query: PackageQuery { name: Some(name), version: duplicate_text(&batch.version) },
        source: batch.source.duplicate(),
        prefix,
    }
}

fn step_of(batch: Batch) -> (step: BatchStep)
    requires
        batch.done <= batch.names.len(),
    ensures
        step@ == batch_step(batch@),
{
    if batch.done < batch.names.len() {
        let request = request_for(&batch);
        BatchStep::Clone { batch, request }
    } else {
        BatchStep::Finish { attempted: batch.names.len(), failed: batch.failed }
    }
}

/// Begins the batch of clones for the dependents that the listing gave.
///
/// A listing that failed fails the batch with the same failure, and no
/// clone is begun. Otherwise the result holds the number of dependents,
/// which is to be announced before the first clone, and the first step:
/// see [`batch_started`].
pub fn clone_reverse_deps<E>(
    listing: Result<Vec<String>, E>,
    source: SourceLocation,
    prefix: Option<String>,
    version: Option<String>,
) -> (begun: Result<(usize, BatchStep), E>)
    ensures
        match listing {
            Err(e) => begun == Err::<(usize, BatchStep), E>(e),
            Ok(names) => begun matches Ok((count, step)) && count == names.len() && step@
                == batch_started(
                names.deep_view(),
                source@,
                prefix.deep_view(),
                version.deep_view(),
            ),
        },
{
    match listing {
        Err(e) => Err(e),
        Ok(names) => {
            let count = names.len();
            Ok((count, step_of(Batch { names, source, prefix, version, done: 0, failed: 0 })))
        },
    }
}

/// Reports how the clone under way ended and gives what follows: see
/// [`batch_next`].
pub fn after_clone(batch: Batch, succeeded: bool) -> (step: BatchStep)
    requires
        batch@.well_formed(),
    ensures
        step@ == batch_next(batch@, succeeded),
        step matches BatchStep::Clone { batch: following, .. } ==> following@.well_formed(),
{
    let Batch { names, source, prefix, version, done, failed } = batch;
    assert(done < names.len());
    let failed = if succeeded {
        failed
    } else {
        failed + 1
    };
    step_of(Batch { names, source, prefix, version, done: done + 1, failed })
}

// ---------------------------------------------------------------------------
// Whole batches
// ---------------------------------------------------------------------------

/// The step that follows once the driver has reported how the first clones
/// ended, one entry of `outcomes` for each, `true` for a success. A batch
/// that is over takes no further report.
pub open spec fn batch_after(
    names: Seq<Seq<char>>,
    source: SourceLocationModel,
    prefix: Option<Seq<char>>,
    version: Option<Seq<char>>,
    outcomes: Seq<bool>,
) -> BatchStepModel
    decreases outcomes.len(),
{
    if outcomes.len() == 0 {
        batch_started(names, source, prefix, version)
    } else {
        match batch_after(names, source, prefix, version, outcomes.drop_last()) {
            BatchStepModel::Clone { batch, .. } => batch_next(batch, outcomes.last()),
            BatchStepModel::Finish { attempted, failed } => BatchStepModel::Finish {
                attempted,
                failed,
            },
        }
    }
}

/// How many of the outcomes are failures.
pub open spec fn failures(outcomes: Seq<bool>) -> nat
    decreases outcomes.len(),
{
    if outcomes.len() == 0 {
        0
    } else {
        failures(outcomes.drop_last()) + if outcomes.last() {
            0nat
        } else {
            1nat
        }
    }
}

/// Every dependent is cloned, in the order of the list, whatever became of
/// the clones before it: after any `k` outcomes the clone of dependent `k`
/// follows, and it is the same clone for all outcomes. After the last
/// clone the batch ends and reports one attempt for each dependent, and as
/// many failures as were reported.
pub proof fn lemma_batch_attempts_every_dependent(
    names: Seq<Seq<char>>,
    source: SourceLocationModel,
    prefix: Option<Seq<char>>,
    version: Option<Seq<char>>,
    outcomes: Seq<bool>,
)
    requires
        outcomes.len() <= names.len(),
    ensures
        failures(outcomes) <= outcomes.len(),
        outcomes.len() < names.len() ==> batch_after(names, source, prefix, version, outcomes)
            == (BatchStepModel::Clone {
            batch: BatchModel {
                names,
                source,
                prefix,
                version,
                done: outcomes.len(),
                failed: failures(outcomes),
            },
            request: dependent_request(names[outcomes.len() as int], source, prefix, version),
        }),
        outcomes.len() == names.len() ==> batch_after(names, source, prefix, version, outcomes)
            == (BatchStepModel::Finish { attempted: names.len(), failed: failures(outcomes) }),
    decreases outcomes.len(),
{
    if outcomes.len() > 0 {
        lemma_batch_attempts_every_dependent(names, source, prefix, version, outcomes.drop_last());
    }
}

} // verus!
