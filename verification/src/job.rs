//! The vocabulary of one clone: what is asked for, what the driver is told to
//! do, what it reports back, and how a clone can fail.
//!
//! Each executable type has a model made of sequences and numbers; contracts
//! are stated over the models.

use crate::select::{PackageSummary, PackageSummaryModel};
use crate::version::{Version, VersionModel};
use vstd::prelude::*;
use vstd::string::StringExecFns;

verus! {

/// The three kinds of place a package can come from.
#[derive(Debug, Clone, Copy, PartialEq, Eq, Structural)]
pub enum SourceKind {
    Registry,
    VersionControl,
    LocalPath,
}

/// Where a package's source material originates.
#[derive(Debug, Clone, PartialEq, Eq)]
pub enum SourceLocation {
    Registry { endpoint: String },
    VersionControl { url: String, reference: Option<String> },
    LocalPath { path: String },
}

/// What a [`SourceLocation`] stands for.
pub enum SourceLocationModel {
    Registry { endpoint: Seq<char> },
    VersionControl { url: Seq<char>, reference: Option<Seq<char>> },
    LocalPath { path: Seq<char> },
}

impl SourceLocationModel {
    pub open spec fn kind(self) -> SourceKind {
        match self {
            SourceLocationModel::Registry { .. } => SourceKind::Registry,
            SourceLocationModel::VersionControl { .. } => SourceKind::VersionControl,
            SourceLocationModel::LocalPath { .. } => SourceKind::LocalPath,
        }
    }
}

impl View for SourceLocation {
    type V = SourceLocationModel;

    open spec fn view(&self) -> SourceLocationModel {
        match self {
            SourceLocation::Registry { endpoint } => SourceLocationModel::Registry {
                endpoint: endpoint@,
            },
            SourceLocation::VersionControl { url, reference } => {
                SourceLocationModel::VersionControl { url: url@, reference: reference.deep_view() }
            },
            SourceLocation::LocalPath { path } => SourceLocationModel::LocalPath { path: path@ },
        }
    }
}

/// A second copy of a text that may be absent.
pub fn duplicate_text(text: &Option<String>) -> (copy: Option<String>)
    ensures
        copy.deep_view() == text.deep_view(),
{
    match text {
        Some(text) => Some(text.clone()),
        None => None,
    }
}

impl SourceLocation {
    /// A second copy of the location.
    pub fn duplicate(&self) -> (copy: SourceLocation)
        ensures
            copy@ == self@,
    {
        match self {
            SourceLocation::Registry { endpoint } => SourceLocation::Registry {
                endpoint: endpoint.clone(),
            },
            SourceLocation::VersionControl { url, reference } => SourceLocation::VersionControl {
                url: url.clone(),
                reference: duplicate_text(reference),
            },
            SourceLocation::LocalPath { path } => SourceLocation::LocalPath { path: path.clone() },
        }
    }

    /// The kind of the source.
    pub fn kind(&self) -> (kind: SourceKind)
        ensures
            kind == self@.kind(),
    {
        match self {
            SourceLocation::Registry { .. } => SourceKind::Registry,
            SourceLocation::VersionControl { .. } => SourceKind::VersionControl,
            SourceLocation::LocalPath { .. } => SourceKind::LocalPath,
        }
    }
}

/// Which package is wanted. Without a name the first package that the source
/// lists is taken; the version is then not looked at.
#[derive(Debug, Clone, PartialEq, Eq)]
pub struct PackageQuery {
    pub name: Option<String>,
    pub version: Option<String>,
}

/// What a [`PackageQuery`] stands for.
pub struct PackageQueryModel {
    pub name: Option<Seq<char>>,
    pub version: Option<Seq<char>>,
}

impl View for PackageQuery {
    type V = PackageQueryModel;

    open spec fn view(&self) -> PackageQueryModel {
        PackageQueryModel { name: self.name.deep_view(), version: self.version.deep_view() }
    }
}

/// Everything one clone is given.
#[derive(Debug, Clone, PartialEq, Eq)]
pub struct CloneRequest {
    pub query: PackageQuery,
    pub source: SourceLocation,
    /// The directory to fill; without it, a directory named after the package
    /// under the current directory.
    pub prefix: Option<String>,
}

/// What a [`CloneRequest`] stands for.
pub struct CloneRequestModel {
    pub query: PackageQueryModel,
    pub source: SourceLocationModel,
    pub prefix: Option<Seq<char>>,
}

impl View for CloneRequest {
    type V = CloneRequestModel;

    open spec fn view(&self) -> CloneRequestModel {
        CloneRequestModel {
            query: self.query@,
            source: self.source@,
            prefix: self.prefix.deep_view(),
        }
    }
}

/// A package whose source lies unpacked on disk.
#[derive(Debug, Clone)]
pub struct ResolvedPackage {
    pub name: String,
    pub version: Version,
    /// The directory that holds the package's source.
    pub root: String,
}

/// What a [`ResolvedPackage`] stands for.
pub struct ResolvedPackageModel {
    pub name: Seq<char>,
    pub version: VersionModel,
    pub root: Seq<char>,
}

impl View for ResolvedPackage {
    type V = ResolvedPackageModel;

    open spec fn view(&self) -> ResolvedPackageModel {
        ResolvedPackageModel { name: self.name@, version: self.version@, root: self.root@ }
    }
}

impl DeepView for ResolvedPackage {
    type V = ResolvedPackageModel;

    open spec fn deep_view(&self) -> ResolvedPackageModel {
        self@
    }
}

/// The directory that a clone fills.
#[derive(Debug, Clone, PartialEq, Eq)]
pub enum Destination {
    /// The given path, taken as it is.
    Explicit(String),
    /// The directory of this name under the current directory.
    UnderCurrentDirectory(String),
}

/// What a [`Destination`] stands for.
pub enum DestinationModel {
    Explicit(Seq<char>),
    UnderCurrentDirectory(Seq<char>),
}

impl View for Destination {
    type V = DestinationModel;

    open spec fn view(&self) -> DestinationModel {
        match self {
            Destination::Explicit(path) => DestinationModel::Explicit(path@),
            Destination::UnderCurrentDirectory(name) => DestinationModel::UnderCurrentDirectory(
                name@,
            ),
        }
    }
}

/// What the driver found at the destination.
#[derive(Debug, Clone, Copy, PartialEq, Eq, Structural)]
pub enum DestinationState {
    /// Nothing exists there.
    Absent,
    /// A directory without entries.
    Empty,
    /// A directory with at least one entry.
    Occupied,
}

/// Why a clone failed. `E` is the driver's own error type; the library hands
/// such an error on as it came.
#[derive(Debug, PartialEq, Eq)]
pub enum CloneError<E> {
    /// The version constraint is no semantic version.
    VersionParse { text: String },
    /// The query matched no package.
    NotFound { name: String },
    /// No name was given and the source cannot list its packages.
    UnsupportedQuery,
    /// The destination exists and is not empty.
    DestinationConflict { destination: Destination },
    /// Outside work failed.
    Outside(E),
}

/// What a [`CloneError`] stands for.
pub enum CloneErrorModel<E> {
    VersionParse { text: Seq<char> },
    NotFound { name: Seq<char> },
    UnsupportedQuery,
    DestinationConflict { destination: DestinationModel },
    Outside(E),
}

impl<E> View for CloneError<E> {
    type V = CloneErrorModel<E>;

    open spec fn view(&self) -> CloneErrorModel<E> {
        match self {
            CloneError::VersionParse { text } => CloneErrorModel::VersionParse { text: text@ },
            CloneError::NotFound { name } => CloneErrorModel::NotFound { name: name@ },
            CloneError::UnsupportedQuery => CloneErrorModel::UnsupportedQuery,
            CloneError::DestinationConflict { destination } => {
                CloneErrorModel::DestinationConflict { destination: destination@ }
            },
            CloneError::Outside(e) => CloneErrorModel::Outside(*e),
        }
    }
}

/// The text that tells a user why a clone failed. `destination` is the path
/// of the destination as the driver resolved it. A failure of outside work
/// has no text of the library's: the driver has the failure itself.
pub open spec fn message_of<E>(error: CloneErrorModel<E>, destination: Seq<char>) -> Option<
    Seq<char>,
> {
    match error {
        CloneErrorModel::VersionParse { text } => Some(
            "cannot parse '"@ + text + "' as a semver"@,
        ),
        CloneErrorModel::NotFound { name } => Some("package '"@ + name + "' not found"@),
        CloneErrorModel::UnsupportedQuery => Some(
            "must specify a crate to clone from crates.io, or use --path or --git to specify alternate source"@,
        ),
        CloneErrorModel::DestinationConflict { .. } => Some(
            "destination path '"@ + destination
                + "' already exists and is not an empty directory."@,
        ),
        CloneErrorModel::Outside(_) => None,
    }
}

impl<E> CloneError<E> {
    /// Writes the text for the error: see [`message_of`].
    pub fn message(&self, destination: &str) -> (text: Option<String>)
        ensures
            text.deep_view() == message_of(self@, destination@),
    {
        match self {
            CloneError::VersionParse { text } => {
                let mut message = String::from_str("cannot parse '");
                message.append(text.as_str());
                message.append("' as a semver");
                Some(message)
            },
            CloneError::NotFound { name } => {
                let mut message = String::from_str("package '");
                message.append(name.as_str());
                message.append("' not found");
                Some(message)
            },
            CloneError::UnsupportedQuery => Some(
                String::from_str(
                    "must specify a crate to clone from crates.io, or use --path or --git to specify alternate source",
                ),
            ),
            CloneError::DestinationConflict { .. } => {
                let mut message = String::from_str("destination path '");
                message.append(destination);
                message.append("' already exists and is not an empty directory.");
                Some(message)
            },
            CloneError::Outside(_) => None,
        }
    }
}

/// What the driver reports after it has done what it was told.
#[derive(Debug)]
pub enum Event<E> {
    /// The work is done and has nothing to report.
    Completed,
    /// The candidates that the query matched.
    Summaries(Vec<PackageSummary>),
    /// The package that was downloaded.
    Downloaded(ResolvedPackage),
    /// The packages that the source lists.
    Enumerated(Vec<ResolvedPackage>),
    /// What is at the destination.
    Probed(DestinationState),
    /// The work failed.
    Failed(E),
}

/// What an [`Event`] stands for.
pub enum EventModel<E> {
    Completed,
    Summaries(Seq<PackageSummaryModel>),
    Downloaded(ResolvedPackageModel),
    Enumerated(Seq<ResolvedPackageModel>),
    Probed(DestinationState),
    Failed(E),
}

impl<E> View for Event<E> {
    type V = EventModel<E>;

    open spec fn view(&self) -> EventModel<E> {
        match self {
            Event::Completed => EventModel::Completed,
            Event::Summaries(candidates) => EventModel::Summaries(candidates.deep_view()),
            Event::Downloaded(package) => EventModel::Downloaded(package@),
            Event::Enumerated(packages) => EventModel::Enumerated(packages.deep_view()),
            Event::Probed(state) => EventModel::Probed(*state),
            Event::Failed(e) => EventModel::Failed(*e),
        }
    }
}

/// What the driver is told to do next.
#[derive(Debug, PartialEq, Eq)]
pub enum Action<E> {
    /// Take the lock that guards the shared package cache, and hold it until
    /// the clone finishes.
    AcquireLock,
    /// Load the configuration of sources and their replacements.
    LoadConfiguration,
    /// Open the source that the request names; it is of this kind.
    OpenSource { kind: SourceKind },
    /// Bring the source's metadata up to date.
    Refresh,
    /// Ask the source for the packages of this name that match the version.
    Query { name: String, version: Option<String> },
    /// Download the candidate at this position of the reported list.
    Download { candidate: usize },
    /// Ask the source for all packages that it holds.
    Enumerate,
    /// Look at the destination: does it exist, and is it empty?
    ProbeDestination { destination: Destination },
    /// Create the destination and the directories above it.
    CreateDestination { destination: Destination },
    /// Copy the tree under `from` into the destination.
    CopyTree { from: String, destination: Destination },
    /// The clone is over: release the lock and report the outcome.
    Finish { outcome: Result<(), CloneError<E>> },
}

/// What an [`Action`] stands for.
pub enum ActionModel<E> {
    AcquireLock,
    LoadConfiguration,
    OpenSource { kind: SourceKind },
    Refresh,
    Query { name: Seq<char>, version: Option<Seq<char>> },
    Download { candidate: int },
    Enumerate,
    ProbeDestination { destination: DestinationModel },
    CreateDestination { destination: DestinationModel },
    CopyTree { from: Seq<char>, destination: DestinationModel },
    Finish { outcome: Result<(), CloneErrorModel<E>> },
}

impl<E> View for Action<E> {
    type V = ActionModel<E>;

    open spec fn view(&self) -> ActionModel<E> {
        match self {
            Action::AcquireLock => ActionModel::AcquireLock,
            Action::LoadConfiguration => ActionModel::LoadConfiguration,
            Action::OpenSource { kind } => ActionModel::OpenSource { kind: *kind },
            Action::Refresh => ActionModel::Refresh,
            Action::Query { name, version } => ActionModel::Query {
                name: name@,
                version: version.deep_view(),
            },
            Action::Download { candidate } => ActionModel::Download { candidate: *candidate as int },
            Action::Enumerate => ActionModel::Enumerate,
            Action::ProbeDestination { destination } => ActionModel::ProbeDestination {
                destination: destination@,
            },
            Action::CreateDestination { destination } => ActionModel::CreateDestination {
                destination: destination@,
            },
            Action::CopyTree { from, destination } => ActionModel::CopyTree {
                from: from@,
                destination: destination@,
            },
            Action::Finish { outcome } => ActionModel::Finish {
                outcome: match outcome {
                    Ok(_) => Ok(()),
                    Err(e) => Err(e@),
                },
            },
        }
    }
}

/// How far a clone has come: the work whose report is awaited.
#[derive(Debug)]
pub enum Stage {
    Locking,
    Configuring,
    Opening,
    /// A local directory is brought up to date once before the selection.
    ForcedRefresh,
    Refreshing,
    Querying { name: String },
    Downloading,
    Enumerating,
    Probing { package: ResolvedPackage },
    Creating { package: ResolvedPackage },
    Copying,
    Finished,
}

/// What a [`Stage`] stands for.
pub enum StageModel {
    Locking,
    Configuring,
    Opening,
    ForcedRefresh,
    Refreshing,
    Querying { name: Seq<char> },
    Downloading,
    Enumerating,
    Probing { package: ResolvedPackageModel },
    Creating { package: ResolvedPackageModel },
    Copying,
    Finished,
}

impl View for Stage {
    type V = StageModel;

    open spec fn view(&self) -> StageModel {
        match self {
            Stage::Locking => StageModel::Locking,
            Stage::Configuring => StageModel::Configuring,
            Stage::Opening => StageModel::Opening,
            Stage::ForcedRefresh => StageModel::ForcedRefresh,
            Stage::Refreshing => StageModel::Refreshing,
            Stage::Querying { name } => StageModel::Querying { name: name@ },
            Stage::Downloading => StageModel::Downloading,
            Stage::Enumerating => StageModel::Enumerating,
            Stage::Probing { package } => StageModel::Probing { package: package@ },
            Stage::Creating { package } => StageModel::Creating { package: package@ },
            Stage::Copying => StageModel::Copying,
            Stage::Finished => StageModel::Finished,
        }
    }
}

/// One clone in progress.
#[derive(Debug)]
pub struct CloneJob {
    pub request: CloneRequest,
    pub stage: Stage,
}

/// What a [`CloneJob`] stands for.
pub struct CloneJobModel {
    pub request: CloneRequestModel,
    pub stage: StageModel,
}

impl View for CloneJob {
    type V = CloneJobModel;

    open spec fn view(&self) -> CloneJobModel {
        CloneJobModel { request: self.request@, stage: self.stage@ }
    }
}

impl StageModel {
    /// The event answers the work that this stage awaits. A list of all
    /// packages must name at least one.
    pub open spec fn accepts<E>(self, event: EventModel<E>) -> bool {
        match event {
            EventModel::Failed(_) => !(self is Finished),
            EventModel::Completed => {
                ||| self is Locking
                ||| self is Configuring
                ||| self is Opening
                ||| self is ForcedRefresh
                ||| self is Refreshing
                ||| self is Creating
                ||| self is Copying
            },
            EventModel::Summaries(_) => self is Querying,
            EventModel::Downloaded(_) => self is Downloading,
            EventModel::Enumerated(packages) => self is Enumerating && packages.len() > 0,
            EventModel::Probed(_) => self is Probing,
        }
    }
}

impl Stage {
    /// Whether `event` answers the work that this stage awaits.
    pub fn accepts<E>(&self, event: &Event<E>) -> (accepted: bool)
        ensures
            accepted == self@.accepts(event@),
    {
        match event {
            Event::Failed(_) => !matches!(self, Stage::Finished),
            Event::Completed => matches!(
                self,
                Stage::Locking | Stage::Configuring | Stage::Opening | Stage::ForcedRefresh
                    | Stage::Refreshing | Stage::Creating { .. } | Stage::Copying
            ),
            Event::Summaries(_) => matches!(self, Stage::Querying { .. }),
            Event::Downloaded(_) => matches!(self, Stage::Downloading),
            Event::Enumerated(packages) => matches!(self, Stage::Enumerating) && packages.len() > 0,
            Event::Probed(_) => matches!(self, Stage::Probing { .. }),
        }
    }
}

/// The job and the action with which a clone ends.
pub open spec fn finished<E>(
    request: CloneRequestModel,
    outcome: Result<(), CloneErrorModel<E>>,
) -> (CloneJobModel, ActionModel<E>) {
    (CloneJobModel { request, stage: StageModel::Finished }, ActionModel::Finish { outcome })
}

/// Ends a clone with `outcome`.
pub fn finish<E>(request: CloneRequest, outcome: Result<(), CloneError<E>>) -> (next: (
    CloneJob,
    Action<E>,
))
    ensures
        (next.0@, next.1@) == finished::<E>(
            request@,
            match outcome {
                Ok(_) => Ok(()),
                Err(e) => Err(e@),
            },
        ),
{
    (CloneJob { request, stage: Stage::Finished }, Action::Finish { outcome })
}

} // verus!
