//! Resolving a query to one package: once the source is up to date, either
//! the candidates of a name are asked for and the greatest version among them
//! is downloaded, or, without a name, the first package that the source lists
//! is taken.

use crate::job::{
    finish, finished, Action, ActionModel, CloneError, CloneErrorModel, CloneJob, CloneJobModel,
    CloneRequest, CloneRequestModel, Destination, DestinationModel, Event, EventModel,
    ResolvedPackage, ResolvedPackageModel, SourceKind, Stage, StageModel,
};
use crate::select::{latest, select_max};
use crate::version::{semver_parse, semver_text, Version};
use vstd::pervasive::unreached;
use vstd::prelude::*;

verus! {

/// The version constraint of a query: nothing where no version was asked
/// for, else the canonical text of the version that was asked for. A text
/// that is no semantic version is given back as the error.
pub open spec fn constraint_of(version: Option<Seq<char>>) -> Result<Option<Seq<char>>, Seq<char>> {
    match version {
        None => Ok(None),
        Some(text) => match semver_parse(text) {
            Some(parsed) => Ok(Some(semver_text(parsed))),
            None => Err(text),
        },
    }
}

/// The view of a constraint as [`version_constraint`] returns it.
pub open spec fn constraint_view(constraint: Result<Option<String>, String>) -> Result<
    Option<Seq<char>>,
    Seq<char>,
> {
    match constraint {
        Ok(text) => Ok(text.deep_view()),
        Err(text) => Err(text@),
    }
}

/// The constraint for a version `text` that was read as `parsed`.
pub fn constraint_from(text: &String, parsed: Option<Version>) -> (constraint: Result<
    Option<String>,
    String,
>)
    ensures
        constraint_view(constraint) == (match parsed {
            Some(version) => Ok::<Option<Seq<char>>, Seq<char>>(Some(semver_text(version@))),
            None => Err(text@),
        }),
{
    match parsed {
        Some(version) => Ok(Some(version.to_text())),
        None => Err(text.clone()),
    }
}

/// Reads the version that was asked for, if one was, and gives the
/// constraint to hand to the query.
pub fn version_constraint(version: &Option<String>) -> (constraint: Result<Option<String>, String>)
    ensures
        constraint_view(constraint) == constraint_of(version.deep_view()),
{
    match version {
        None => Ok(None),
        Some(text) => constraint_from(text, Version::parse(text.as_str())),
    }
}

/// Where the clone of `package` goes: the prefix as it was given, else the
/// directory named after the package under the current directory.
pub open spec fn destination_of(
    request: CloneRequestModel,
    package: ResolvedPackageModel,
) -> DestinationModel {
    match request.prefix {
        Some(path) => DestinationModel::Explicit(path),
        None => DestinationModel::UnderCurrentDirectory(package.name),
    }
}

/// Computes [`destination_of`].
pub fn destination(request: &CloneRequest, package: &ResolvedPackage) -> (target: Destination)
    ensures
        target@ == destination_of(request@, package@),
{
    match &request.prefix {
        Some(path) => Destination::Explicit(path.clone()),
        None => Destination::UnderCurrentDirectory(package.name.clone()),
    }
}

/// With the package at hand, the destination is looked at next.
pub open spec fn located<E>(request: CloneRequestModel, package: ResolvedPackageModel) -> (
    CloneJobModel,
    ActionModel<E>,
) {
    (
        CloneJobModel { request, stage: StageModel::Probing { package } },
        ActionModel::ProbeDestination { destination: destination_of(request, package) },
    )
}

fn locate<E>(request: CloneRequest, package: ResolvedPackage) -> (next: (CloneJob, Action<E>))
    ensures
        (next.0@, next.1@) == located::<E>(request@, package@),
{
    let target = destination(&request, &package);
    (
        CloneJob { request, stage: Stage::Probing { package } },
        Action::ProbeDestination { destination: target },
    )
}

/// How the selection begins once the source is up to date.
///
/// With a name, the candidates of that name are asked for; a version that
/// was asked for and is no semantic version ends the clone before anything
/// is asked. Without a name all packages are asked for, which a registry
/// cannot answer.
pub open spec fn selection_begun<E>(
    request: CloneRequestModel,
    constraint: Result<Option<Seq<char>>, Seq<char>>,
) -> (CloneJobModel, ActionModel<E>) {
    match request.query.name {
        Some(name) => match constraint {
            Ok(version) => (
                CloneJobModel { request, stage: StageModel::Querying { name } },
                ActionModel::Query { name, version },
            ),
            Err(text) => finished(request, Err(CloneErrorModel::VersionParse { text })),
        },
        None => if request.source.kind() == SourceKind::Registry {
            finished(request, Err(CloneErrorModel::UnsupportedQuery))
        } else {
            (CloneJobModel { request, stage: StageModel::Enumerating }, ActionModel::Enumerate)
        },
    }
}

/// Begins the selection with a constraint that was already read. The
/// constraint is not looked at where the request has no name.
pub fn begin_selection<E>(request: CloneRequest, constraint: Result<Option<String>, String>) -> (next:
    (CloneJob, Action<E>))
    ensures
        (next.0@, next.1@) == selection_begun::<E>(request@, constraint_view(constraint)),
{
    let name = match &request.query.name {
        Some(name) => Some(name.clone()),
        None => None,
    };
    match name {
        Some(name) => match constraint {
            Ok(version) => {
                let asked = name.clone();
                (
                    CloneJob { request, stage: Stage::Querying { name } },
                    Action::Query { name: asked, version },
                )
            },
            Err(text) => finish(request, Err(CloneError::VersionParse { text })),
        },
        None => match request.source.kind() {
            SourceKind::Registry => finish(request, Err(CloneError::UnsupportedQuery)),
            _ => (CloneJob { request, stage: Stage::Enumerating }, Action::Enumerate),
        },
    }
}

/// The stages of the selection.
pub open spec fn selecting(stage: StageModel) -> bool {
    stage is Refreshing || stage is Querying || stage is Downloading || stage is Enumerating
}

/// One step of the selection.
///
/// - The source is up to date: the selection begins, see [`selection_begun`],
///   with the constraint that [`constraint_of`] gives for the version.
/// - The candidates are known: the one with the greatest version is
///   downloaded; without candidates the package is not found.
/// - The package is downloaded, or the source's packages are listed and the
///   first of them is taken: its destination is looked at.
/// - The work failed: the clone ends with that failure.
pub open spec fn select_next<E>(job: CloneJobModel, event: EventModel<E>) -> (
    CloneJobModel,
    ActionModel<E>,
) {
    let request = job.request;
    match (job.stage, event) {
        (_, EventModel::Failed(e)) => finished(request, Err(CloneErrorModel::Outside(e))),
        (StageModel::Refreshing, EventModel::Completed) => selection_begun(
            request,
            constraint_of(request.query.version),
        ),
        (StageModel::Querying { name }, EventModel::Summaries(candidates)) => match latest(
            candidates,
        ) {
            Some(candidate) => (
                CloneJobModel { request, stage: StageModel::Downloading },
                ActionModel::Download { candidate },
            ),
            None => finished(request, Err(CloneErrorModel::NotFound { name })),
        },
        (StageModel::Downloading, EventModel::Downloaded(package)) => located(request, package),
        (StageModel::Enumerating, EventModel::Enumerated(packages)) => located(
            request,
            packages[0],
        ),
        _ => arbitrary(),
    }
}

/// Advances the selection by one event: see [`select_next`].
pub fn select_pkg<E>(job: CloneJob, event: Event<E>) -> (next: (CloneJob, Action<E>))
    requires
        selecting(job@.stage),
        job@.stage.accepts(event@),
    ensures
        (next.0@, next.1@) == select_next(job@, event@),
{
    let CloneJob { request, stage } = job;
    match (stage, event) {
        (_, Event::Failed(e)) => finish(request, Err(CloneError::Outside(e))),
        (Stage::Refreshing, Event::Completed) => {
            let constraint = match &request.query.name {
                Some(_) => version_constraint(&request.query.version),
                None => Ok(None),
            };
            begin_selection(request, constraint)
        },
        (Stage::Querying { name }, Event::Summaries(candidates)) => match select_max(&candidates) {
            Some(candidate) => (
                CloneJob { request, stage: Stage::Downloading },
                Action::Download { candidate },
            ),
            None => finish(request, Err(CloneError::NotFound { name })),
        },
        (Stage::Downloading, Event::Downloaded(package)) => locate(request, package),
        (Stage::Enumerating, Event::Enumerated(packages)) => {
            let mut packages = packages;
            let first = packages.swap_remove(0);
            locate(request, first)
        },
        _ => unreached(),
    }
}

} // verus!
