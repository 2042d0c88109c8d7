//! One clone from beginning to end, as a machine that the driver feeds with
//! reports: take the cache lock, open the source, resolve the package, make
//! sure that the destination is absent or empty, and copy the tree.
//!
//! The machine decides; the driver does the work. The destination is written
//! to only after it was found absent or empty.

use crate::job::{
    finish, finished, Action, ActionModel, CloneError, CloneErrorModel, CloneJob, CloneJobModel,
    CloneRequest, CloneRequestModel, DestinationModel, DestinationState, Event, EventModel,
    SourceKind, Stage, StageModel,
};
use crate::resolve::{destination, destination_of, select_next, select_pkg, selecting};
use crate::version::semver_parse;
use vstd::pervasive::unreached;
use vstd::prelude::*;

verus! {

/// A clone begins by taking the lock over the shared package cache.
pub open spec fn started<E>(request: CloneRequestModel) -> (CloneJobModel, ActionModel<E>) {
    (CloneJobModel { request, stage: StageModel::Locking }, ActionModel::AcquireLock)
}

/// Begins the clone that `request` describes.
pub fn start<E>(request: CloneRequest) -> (next: (CloneJob, Action<E>))
    ensures
        (next.0@, next.1@) == started::<E>(request@),
{
    (CloneJob { request, stage: Stage::Locking }, Action::AcquireLock)
}

/// One step of a clone: the job and the action that follow `event`.
///
/// - Any failure that the driver reports ends the clone with that failure.
/// - After the lock the configuration is loaded, then the source is opened
///   as what its kind says. A local directory is brought up to date once
///   more than the others before the selection begins.
/// - The selection runs as [`select_next`] says and ends with a package.
/// - An absent destination is created and then filled; an empty one is
///   filled; an occupied one ends the clone.
/// - When the tree is copied the clone has succeeded.
pub open spec fn next<E>(job: CloneJobModel, event: EventModel<E>) -> (
    CloneJobModel,
    ActionModel<E>,
) {
    let request = job.request;
    if selecting(job.stage) {
        select_next(job, event)
    } else {
        match (job.stage, event) {
            (_, EventModel::Failed(e)) => finished(request, Err(CloneErrorModel::Outside(e))),
            (StageModel::Locking, EventModel::Completed) => (
                CloneJobModel { request, stage: StageModel::Configuring },
                ActionModel::LoadConfiguration,
            ),
            (StageModel::Configuring, EventModel::Completed) => (
                CloneJobModel { request, stage: StageModel::Opening },
                ActionModel::OpenSource { kind: request.source.kind() },
            ),
            (StageModel::Opening, EventModel::Completed) => (
                CloneJobModel {
                    request,
                    stage: if request.source.kind() == SourceKind::LocalPath {
                        StageModel::ForcedRefresh
                    } else {
                        StageModel::Refreshing
                    },
                },
                ActionModel::Refresh,
            ),
            (StageModel::ForcedRefresh, EventModel::Completed) => (
                CloneJobModel { request, stage: StageModel::Refreshing },
                ActionModel::Refresh,
            ),
            (StageModel::Probing { package }, EventModel::Probed(state)) => {
                let destination = destination_of(request, package);
                match state {
                    DestinationState::Absent => (
                        CloneJobModel { request, stage: StageModel::Creating { package } },
                        ActionModel::CreateDestination { destination },
                    ),
                    DestinationState::Empty => (
                        CloneJobModel { request, stage: StageModel::Copying },
                        ActionModel::CopyTree { from: package.root, destination },
                    ),
                    DestinationState::Occupied => finished(
                        request,
                        Err(CloneErrorModel::DestinationConflict { destination }),
                    ),
                }
            },
            (StageModel::Creating { package }, EventModel::Completed) => (
                CloneJobModel { request, stage: StageModel::Copying },
                ActionModel::CopyTree {
                    from: package.root,
                    destination: destination_of(request, package),
                },
            ),
            (StageModel::Copying, EventModel::Completed) => finished(request, Ok(())),
            _ => arbitrary(),
        }
    }
}

/// Advances a clone by one event: see [`next`].
///
/// The event must answer the action that was last handed out
/// ([`StageModel::accepts`]); [`Stage::accepts`] tests that.
pub fn clone<E>(job: CloneJob, event: Event<E>) -> (following: (CloneJob, Action<E>))
    requires
        job@.stage.accepts(event@),
    ensures
        (following.0@, following.1@) == next(job@, event@),
{
    if matches!(
        job.stage,
        Stage::Refreshing | Stage::Querying { .. } | Stage::Downloading | Stage::Enumerating
    ) {
        return select_pkg(job, event);
    }
    let CloneJob { request, stage } = job;
    match (stage, event) {
        (_, Event::Failed(e)) => finish(request, Err(CloneError::Outside(e))),
        (Stage::Locking, Event::Completed) => (
            CloneJob { request, stage: Stage::Configuring },
            Action::LoadConfiguration,
        ),
        (Stage::Configuring, Event::Completed) => {
            let kind = request.source.kind();
            (CloneJob { request, stage: Stage::Opening }, Action::OpenSource { kind })
        },
        (Stage::Opening, Event::Completed) => {
            let stage = match request.source.kind() {
                SourceKind::LocalPath => Stage::ForcedRefresh,
                _ => Stage::Refreshing,
            };
            (CloneJob { request, stage }, Action::Refresh)
        },
        (Stage::ForcedRefresh, Event::Completed) => (
            CloneJob { request, stage: Stage::Refreshing },
            Action::Refresh,
        ),
        (Stage::Probing { package }, Event::Probed(state)) => {
            let target = destination(&request, &package);
            match state {
                DestinationState::Absent => (
                    CloneJob { request, stage: Stage::Creating { package } },
                    Action::CreateDestination { destination: target },
                ),
                DestinationState::Empty => (
                    CloneJob { request, stage: Stage::Copying },
                    Action::CopyTree { from: package.root, destination: target },
                ),
                DestinationState::Occupied => finish(
                    request,
                    Err(CloneError::DestinationConflict { destination: target }),
                ),
            }
        },
        (Stage::Creating { package }, Event::Completed) => {
            let target = destination(&request, &package);
            (
                CloneJob { request, stage: Stage::Copying },
                Action::CopyTree { from: package.root, destination: target },
            )
        },
        (Stage::Copying, Event::Completed) => finish(request, Ok(())),
        _ => unreached(),
    }
}

// ---------------------------------------------------------------------------
// Whole runs
// ---------------------------------------------------------------------------

/// The job after the driver has reported `events`, one after the other, to
/// the clone that `request` describes.
pub open spec fn job_after<E>(request: CloneRequestModel, events: Seq<EventModel<E>>) -> CloneJobModel
    decreases events.len(),
{
    if events.len() == 0 {
        started::<E>(request).0
    } else {
        next(job_after(request, events.drop_last()), events.last()).0
    }
}

/// The action that the driver is handed after it has reported `events`.
pub open spec fn action_after<E>(request: CloneRequestModel, events: Seq<EventModel<E>>) -> ActionModel<E> {
    if events.len() == 0 {
        started::<E>(request).1
    } else {
        next(job_after(request, events.drop_last()), events.last()).1
    }
}

/// Every event of the run answers the action that was handed out before it.
pub open spec fn orderly<E>(request: CloneRequestModel, events: Seq<EventModel<E>>) -> bool
    decreases events.len(),
{
    events.len() == 0 || (orderly(request, events.drop_last()) && job_after(
        request,
        events.drop_last(),
    ).stage.accepts(events.last()))
}

/// The action asks the source for packages.
pub open spec fn asks_source<E>(action: ActionModel<E>) -> bool {
    action is Query || action is Download || action is Enumerate
}

/// Some action of the run asked the source for packages.
pub open spec fn asked<E>(request: CloneRequestModel, events: Seq<EventModel<E>>) -> bool
    decreases events.len(),
{
    asks_source(action_after(request, events)) || (events.len() > 0 && asked(
        request,
        events.drop_last(),
    ))
}

/// The action writes to the destination.
pub open spec fn writes<E>(action: ActionModel<E>) -> bool {
    action is CreateDestination || action is CopyTree
}

/// Some action of the run wrote to the destination.
pub open spec fn written<E>(request: CloneRequestModel, events: Seq<EventModel<E>>) -> bool
    decreases events.len(),
{
    writes(action_after(request, events)) || (events.len() > 0 && written(
        request,
        events.drop_last(),
    ))
}

/// A clone never changes what it was asked for.
pub proof fn lemma_request_is_kept<E>(request: CloneRequestModel, events: Seq<EventModel<E>>)
    requires
        orderly(request, events),
    ensures
        job_after(request, events).request == request,
    decreases events.len(),
{
    if events.len() > 0 {
        lemma_request_is_kept(request, events.drop_last());
    }
}

/// The stages in which nothing has been asked of the source yet, and the
/// end.
pub open spec fn asks_nothing_yet(stage: StageModel) -> bool {
    ||| stage is Locking
    ||| stage is Configuring
    ||| stage is Opening
    ||| stage is ForcedRefresh
    ||| stage is Refreshing
    ||| stage is Finished
}

/// A clone whose version constraint is no semantic version never asks the
/// source for a package. It ends with the version-parse error as soon as the
/// source is reported up to date, unless the driver reports a failure before
/// that, and it never succeeds.
///
/// This holds of a request with a name: without a name the version is not
/// looked at.
pub proof fn lemma_unreadable_version_asks_nothing<E>(
    request: CloneRequestModel,
    text: Seq<char>,
    events: Seq<EventModel<E>>,
)
    requires
        request.query.name is Some,
        request.query.version == Some(text),
        semver_parse(text) is None,
        orderly(request, events),
    ensures
        !asked(request, events),
        asks_nothing_yet(job_after(request, events).stage),
        action_after(request, events) matches ActionModel::Finish { outcome } ==> {
            ||| outcome == Err::<(), CloneErrorModel<E>>(CloneErrorModel::VersionParse { text })
            ||| (events.len() > 0 && (events.last() matches EventModel::Failed(e) && outcome
                == Err::<(), CloneErrorModel<E>>(CloneErrorModel::Outside(e))))
        },
        events.len() > 0 && events.last() is Completed && job_after(
            request,
            events.drop_last(),
        ).stage is Refreshing ==> action_after(request, events) == (ActionModel::Finish {
            outcome: Err::<(), CloneErrorModel<E>>(CloneErrorModel::VersionParse { text }),
        }),
    decreases events.len(),
{
    if events.len() > 0 {
        lemma_unreadable_version_asks_nothing(request, text, events.drop_last());
        lemma_request_is_kept(request, events.drop_last());
    }
}

/// Event `k` of the run reports a destination that may be written to: one
/// that is absent or empty.
pub open spec fn found_free<E>(events: Seq<EventModel<E>>, k: int) -> bool {
    &&& 0 <= k < events.len()
    &&& (events[k] == EventModel::<E>::Probed(DestinationState::Absent) || events[k]
        == EventModel::<E>::Probed(DestinationState::Empty))
}

/// The destination is written to only after it was found absent or empty:
/// a run in which some action writes to the destination holds an earlier
/// report that says so.
pub proof fn lemma_destination_is_probed_before_it_is_written<E>(
    request: CloneRequestModel,
    events: Seq<EventModel<E>>,
) -> (k: int)
    requires
        orderly(request, events),
        written(request, events) || job_after(request, events).stage is Creating || job_after(
            request,
            events,
        ).stage is Copying,
    ensures
        found_free(events, k),
    decreases events.len(),
{
    let before = events.drop_last();
    if written(request, before) || job_after(request, before).stage is Creating || job_after(
        request,
        before,
    ).stage is Copying {
        let k = lemma_destination_is_probed_before_it_is_written(request, before);
        k
    } else {
        events.len() - 1
    }
}

/// How many reports a clone has taken at least when it stands at `stage`.
pub open spec fn progress(stage: StageModel) -> nat {
    match stage {
        StageModel::Locking => 0,
        StageModel::Configuring => 1,
        StageModel::Opening => 2,
        StageModel::ForcedRefresh => 3,
        StageModel::Refreshing => 4,
        StageModel::Querying { .. } => 5,
        StageModel::Enumerating => 5,
        StageModel::Downloading => 6,
        StageModel::Probing { .. } => 7,
        StageModel::Creating { .. } => 8,
        StageModel::Copying => 9,
        StageModel::Finished => 10,
    }
}

/// Every clone ends: each report moves it on, so that no run takes more than
/// ten reports, and a run of ten has finished.
pub proof fn lemma_clone_ends<E>(request: CloneRequestModel, events: Seq<EventModel<E>>)
    requires
        orderly(request, events),
    ensures
        events.len() <= progress(job_after(request, events).stage) <= 10,
    decreases events.len(),
{
    if events.len() > 0 {
        lemma_clone_ends(request, events.drop_last());
    }
}

/// The cache lock is asked for first, and only once.
pub proof fn lemma_lock_comes_first<E>(request: CloneRequestModel, events: Seq<EventModel<E>>)
    requires
        orderly(request, events),
    ensures
        action_after(request, events) is AcquireLock <==> events.len() == 0,
{
}

proof fn lemma_write_leaves_the_probe_behind<E>(
    request: CloneRequestModel,
    events: Seq<EventModel<E>>,
)
    requires
        orderly(request, events),
        written(request, events),
    ensures
        ({
            let stage = job_after(request, events).stage;
            stage is Creating || stage is Copying || stage is Finished
        }),
    decreases events.len(),
{
    if events.len() > 0 && written(request, events.drop_last()) {
        lemma_write_leaves_the_probe_behind(request, events.drop_last());
    }
}

/// A clone that finds its destination occupied ends there with the
/// destination-conflict error, and no action of the whole run writes to the
/// destination.
pub proof fn lemma_occupied_destination_is_never_written<E>(
    request: CloneRequestModel,
    events: Seq<EventModel<E>>,
    k: int,
)
    requires
        orderly(request, events),
        0 <= k < events.len(),
        events[k] == EventModel::<E>::Probed(DestinationState::Occupied),
    ensures
        k == events.len() - 1,
        !written(request, events),
        job_after(request, events).stage is Finished,
        action_after(request, events) matches ActionModel::Finish {
            outcome: Err(CloneErrorModel::DestinationConflict { .. }),
        },
    decreases events.len(),
{
    let before = events.drop_last();
    if k < events.len() - 1 {
        lemma_occupied_destination_is_never_written(request, before, k);
    } else {
        if written(request, before) {
            lemma_write_leaves_the_probe_behind(request, before);
        }
    }
}

/// A clone that finds nothing at its destination has it created, then has
/// the package's tree copied into it, and then succeeds. The destination is
/// the prefix that was given, else the directory named after the package
/// under the current directory.
pub proof fn lemma_absent_destination_is_created_then_filled<E>(job: CloneJobModel)
    requires
        job.stage is Probing,
    ensures
        ({
            let package = job.stage->Probing_package;
            let destination = destination_of(job.request, package);
            let created = next::<E>(job, EventModel::Probed(DestinationState::Absent));
            let filled = next::<E>(created.0, EventModel::Completed);
            let done = next::<E>(filled.0, EventModel::Completed);
            &&& job.request.prefix is None ==> destination
                == DestinationModel::UnderCurrentDirectory(package.name)
            &&& job.request.prefix matches Some(path) ==> destination == DestinationModel::Explicit(
                path,
            )
            &&& created.1 == ActionModel::<E>::CreateDestination { destination }
            &&& created.0.stage.accepts(EventModel::<E>::Completed)
            &&& filled.1 == ActionModel::<E>::CopyTree { from: package.root, destination }
            &&& filled.0.stage.accepts(EventModel::<E>::Completed)
            &&& done.1 == ActionModel::<E>::Finish { outcome: Ok(()) }
        }),
{
}

} // verus!
