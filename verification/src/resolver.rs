//! The toolchain resolver: event-driven state machines that decide every
//! step of an acquisition while the caller performs the I/O.
//!
//! Each machine is a pure transition function from a state and an event to
//! the next state and an action. The caller performs the action (an HTTP
//! fetch, a download, a directory probe, an extraction) and hands the
//! outcome back as the next event. A resolution follows the plan
//! `check local -> (hit) done` or `check local -> (miss) query registry ->
//! download -> verify -> extract -> done`, where every step from the query
//! onward can fail; a failed state is absorbing.

use vstd::prelude::*;
use vstd::string::*;
use crate::cache::{
    archive_kind, cache_dir_path, listing_view, spec_archive_kind, spec_cache_dir,
    spec_first_dir, ArchiveKind,
};
use crate::errors::ResolveError;
use crate::integrity::{spec_verify_integrity, verify_integrity};
use crate::jdkmatch::{
    cloud_java_names, spec_cloud_java_names, spec_find_jdk, spec_java_home_within, OsKind,
};
use crate::registry::{
    build_query_url, evaluate_registry_response, registry_doc_of, spec_interpret_registry,
    spec_query_url, PackageMeta, PackageMetaModel, RegistryDoc,
};
use crate::strutil::{clone_opt_str, concat2, concat3, names_view, spec_opt_str, vec_tail};
use crate::tool::{builder_of, spec_builder_of, BuilderDesc, BuilderDescModel};

verus! {

// ------------------------------------------------------------------
// Events and actions
// ------------------------------------------------------------------

/// The outcome of an action, reported back to a machine by the caller.
#[derive(Debug, PartialEq, Eq)]
pub enum Event {
    /// Starts the machine.
    Begin,
    /// Whether the probed path exists.
    PathChecked(bool),
    /// The registry response body, or nothing on a network failure.
    RegistryBody(Option<String>),
    /// Whether the target directory could be created.
    DirReady(bool),
    /// Whether the download completed.
    DownloadDone(bool),
    /// The downloaded file's contents, or nothing when it could not be read.
    FileLoaded(Option<Vec<u8>>),
    /// Whether the extraction subprocess succeeded.
    ExtractDone(bool),
    /// The directory listing (paths, each with whether it is a directory),
    /// or nothing when the directory could not be read.
    DirListing(Option<Vec<(String, bool)>>),
    /// What the platform's own JDK discovery reported, if anything.
    OsJavaHome(Option<String>),
}

/// The mathematical model of an event.
pub ghost enum EventModel {
    Begin,
    PathChecked(bool),
    RegistryBody(Option<Seq<char>>),
    DirReady(bool),
    DownloadDone(bool),
    FileLoaded(Option<Seq<u8>>),
    ExtractDone(bool),
    DirListing(Option<Seq<(Seq<char>, bool)>>),
    OsJavaHome(Option<Seq<char>>),
}

impl View for Event {
    type V = EventModel;

    open spec fn view(&self) -> EventModel {
        match self {
            Event::Begin => EventModel::Begin,
            Event::PathChecked(b) => EventModel::PathChecked(*b),
            Event::RegistryBody(o) => EventModel::RegistryBody(spec_opt_str(o)),
            Event::DirReady(b) => EventModel::DirReady(*b),
            Event::DownloadDone(b) => EventModel::DownloadDone(*b),
            Event::FileLoaded(o) => EventModel::FileLoaded(
                match o {
                    Some(d) => Some(d@),
                    None => None,
                },
            ),
            Event::ExtractDone(b) => EventModel::ExtractDone(*b),
            Event::DirListing(o) => EventModel::DirListing(
                match o {
                    Some(v) => Some(listing_view(v@)),
                    None => None,
                },
            ),
            Event::OsJavaHome(o) => EventModel::OsJavaHome(spec_opt_str(o)),
        }
    }
}

/// What a machine asks the caller to do next.
#[derive(Debug, PartialEq, Eq)]
pub enum Action {
    /// Issue a GET request to this URL and report `RegistryBody`.
    Fetch(String),
    /// Create this directory tree if absent and report `DirReady`.
    EnsureDir(String),
    /// Download the URL into the file and report `DownloadDone`.
    Download(String, String),
    /// Read this file's bytes and report `FileLoaded`.
    ReadFile(String),
    /// Extract the named archive inside the directory and report
    /// `ExtractDone`.
    Extract(String, String, ArchiveKind),
    /// List this directory and report `DirListing`.
    ListDir(String),
    /// Probe whether this path exists and report `PathChecked`.
    CheckPath(String),
    /// Ask the platform's own JDK discovery and report `OsJavaHome`.
    ProbeOsJavaHome,
    /// Nothing to do: the machine is finished or failed.
    Idle,
}

/// The mathematical model of an action.
pub ghost enum ActionModel {
    Fetch(Seq<char>),
    EnsureDir(Seq<char>),
    Download(Seq<char>, Seq<char>),
    ReadFile(Seq<char>),
    Extract(Seq<char>, Seq<char>, ArchiveKind),
    ListDir(Seq<char>),
    CheckPath(Seq<char>),
    ProbeOsJavaHome,
    Idle,
}

impl View for Action {
    type V = ActionModel;

    open spec fn view(&self) -> ActionModel {
        match self {
            Action::Fetch(u) => ActionModel::Fetch(u@),
            Action::EnsureDir(d) => ActionModel::EnsureDir(d@),
            Action::Download(u, f) => ActionModel::Download(u@, f@),
            Action::ReadFile(f) => ActionModel::ReadFile(f@),
            Action::Extract(d, f, k) => ActionModel::Extract(d@, f@, *k),
            Action::ListDir(d) => ActionModel::ListDir(d@),
            Action::CheckPath(p) => ActionModel::CheckPath(p@),
            Action::ProbeOsJavaHome => ActionModel::ProbeOsJavaHome,
            Action::Idle => ActionModel::Idle,
        }
    }
}

// ------------------------------------------------------------------
// The acquisition machine: query registry -> download -> verify -> extract
// ------------------------------------------------------------------

/// What a single package acquisition is asked to do.
#[derive(Debug, PartialEq, Eq)]
pub struct AcquireRequest {
    /// The cache base directory the package is extracted under.
    pub base_dir: String,
    /// Whether a `<name>-<version>` directory is created under the base
    /// (builders), or the base itself is the target (JDKs).
    pub dir_with_name: bool,
    /// The requested tool name.
    pub name: String,
    /// The requested version string.
    pub version: String,
    /// Whether the registry's canonical version must equal the requested one.
    pub strict: bool,
    /// The auth token for the registry query, if any.
    pub auth: Option<String>,
}

/// The mathematical model of an acquisition request.
pub ghost struct AcquireRequestModel {
    pub base_dir: Seq<char>,
    pub dir_with_name: bool,
    pub name: Seq<char>,
    pub version: Seq<char>,
    pub strict: bool,
    pub auth: Option<Seq<char>>,
}

impl View for AcquireRequest {
    type V = AcquireRequestModel;

    open spec fn view(&self) -> AcquireRequestModel {
        AcquireRequestModel {
            base_dir: self.base_dir@,
            dir_with_name: self.dir_with_name,
            name: self.name@,
            version: self.version@,
            strict: self.strict,
            auth: spec_opt_str(&self.auth),
        }
    }
}

/// A package accepted from the registry, with its computed target paths.
#[derive(Debug, PartialEq, Eq)]
pub struct PendingPackage {
    pub meta: PackageMeta,
    pub target_dir: String,
    pub target_file: String,
}

/// The mathematical model of a pending package.
pub ghost struct PendingPackageModel {
    pub meta: PackageMetaModel,
    pub target_dir: Seq<char>,
    pub target_file: Seq<char>,
}

impl View for PendingPackage {
    type V = PendingPackageModel;

    open spec fn view(&self) -> PendingPackageModel {
        PendingPackageModel {
            meta: self.meta@,
            target_dir: self.target_dir@,
            target_file: self.target_file@,
        }
    }
}

/// The directory an accepted package is extracted under: a `<n>-<v>`
/// directory named after the registry's canonical name and version when the
/// request asks for one, else the base directory itself.
pub open spec fn spec_target_dir(req: AcquireRequestModel, m: PackageMetaModel) -> Seq<char> {
    if req.dir_with_name {
        spec_cache_dir(req.base_dir, m.n, m.v)
    } else {
        req.base_dir
    }
}

/// An accepted package with its target directory and archive file path.
pub open spec fn spec_pending(req: AcquireRequestModel, m: PackageMetaModel) -> PendingPackageModel {
    PendingPackageModel {
        meta: m,
        target_dir: spec_target_dir(req, m),
        target_file: spec_target_dir(req, m) + "/"@ + m.file_name,
    }
}

/// Where a single acquisition stands.
#[derive(Debug, PartialEq, Eq)]
pub enum AcquireState {
    /// Nothing has happened yet.
    Ready,
    /// The registry was queried; its response is awaited.
    Querying,
    /// The package was accepted; the target directory is being prepared.
    Preparing(PendingPackage),
    /// The archive is being downloaded.
    Downloading(PendingPackage),
    /// The downloaded archive's bytes are awaited for verification.
    Verifying(PendingPackage),
    /// The verified archive is being extracted.
    Extracting(PendingPackage),
    /// The package was downloaded, verified and extracted.
    Done,
    /// The acquisition failed; the state is absorbing.
    Failed(ResolveError),
}

/// The mathematical model of an acquisition state.
pub ghost enum AcquireStateModel {
    Ready,
    Querying,
    Preparing(PendingPackageModel),
    Downloading(PendingPackageModel),
    Verifying(PendingPackageModel),
    Extracting(PendingPackageModel),
    Done,
    Failed(ResolveError),
}

impl View for AcquireState {
    type V = AcquireStateModel;

    open spec fn view(&self) -> AcquireStateModel {
        match self {
            AcquireState::Ready => AcquireStateModel::Ready,
            AcquireState::Querying => AcquireStateModel::Querying,
            AcquireState::Preparing(p) => AcquireStateModel::Preparing(p@),
            AcquireState::Downloading(p) => AcquireStateModel::Downloading(p@),
            AcquireState::Verifying(p) => AcquireStateModel::Verifying(p@),
            AcquireState::Extracting(p) => AcquireStateModel::Extracting(p@),
            AcquireState::Done => AcquireStateModel::Done,
            AcquireState::Failed(e) => AcquireStateModel::Failed(*e),
        }
    }
}

/// The acquisition transition function. A network failure, a rejected
/// response, a failed directory creation, an unreadable file, a failed
/// digest, an unsupported archive suffix or a failed extraction each moves
/// to the matching failed state; an event a state does not expect changes
/// nothing.
pub open spec fn acquire_next(
    req: AcquireRequestModel,
    st: AcquireStateModel,
    ev: EventModel,
) -> (AcquireStateModel, ActionModel) {
    match (st, ev) {
        (AcquireStateModel::Ready, EventModel::Begin) => (
            AcquireStateModel::Querying,
            ActionModel::Fetch(spec_query_url(req.auth, req.name, req.version)),
        ),
        (AcquireStateModel::Querying, EventModel::RegistryBody(body_opt)) => match body_opt {
            None => (AcquireStateModel::Failed(ResolveError::RegistryError), ActionModel::Idle),
            Some(body) => match spec_interpret_registry(
                registry_doc_of(body),
                req.version,
                req.strict,
            ) {
                Err(e) => (AcquireStateModel::Failed(e), ActionModel::Idle),
                Ok(m) => (
                    AcquireStateModel::Preparing(spec_pending(req, m)),
                    ActionModel::EnsureDir(spec_pending(req, m).target_dir),
                ),
            },
        },
        (AcquireStateModel::Preparing(p), EventModel::DirReady(ok)) => if ok {
            (
                AcquireStateModel::Downloading(p),
                ActionModel::Download(p.meta.url, p.target_file),
            )
        } else {
            (AcquireStateModel::Failed(ResolveError::CacheIOError), ActionModel::Idle)
        },
        (AcquireStateModel::Downloading(p), EventModel::DownloadDone(ok)) => if ok {
            (AcquireStateModel::Verifying(p), ActionModel::ReadFile(p.target_file))
        } else {
            (AcquireStateModel::Failed(ResolveError::RegistryError), ActionModel::Idle)
        },
        (AcquireStateModel::Verifying(p), EventModel::FileLoaded(data_opt)) => match data_opt {
            None => (AcquireStateModel::Failed(ResolveError::CacheIOError), ActionModel::Idle),
            Some(data) => match spec_verify_integrity(p.meta.integrity, data) {
                Err(e) => (AcquireStateModel::Failed(e), ActionModel::Idle),
                Ok(ok) => if !ok {
                    (
                        AcquireStateModel::Failed(ResolveError::VerificationError),
                        ActionModel::Idle,
                    )
                } else {
                    match spec_archive_kind(p.meta.file_name) {
                        None => (
                            AcquireStateModel::Failed(ResolveError::ExtractionError),
                            ActionModel::Idle,
                        ),
                        Some(k) => (
                            AcquireStateModel::Extracting(p),
                            ActionModel::Extract(p.target_dir, p.meta.file_name, k),
                        ),
                    }
                },
            },
        },
        (AcquireStateModel::Extracting(p), EventModel::ExtractDone(ok)) => if ok {
            (AcquireStateModel::Done, ActionModel::Idle)
        } else {
            (AcquireStateModel::Failed(ResolveError::ExtractionError), ActionModel::Idle)
        },
        (s, _) => (s, ActionModel::Idle),
    }
}

/// Advances an acquisition by one event and says what to do next.
pub fn acquire_step(req: &AcquireRequest, state: AcquireState, event: Event) -> (r: (
    AcquireState,
    Action,
))
    ensures
        (r.0@, r.1@) == acquire_next(req@, state@, event@),
{
    match (state, event) {
        (AcquireState::Ready, Event::Begin) => {
            let url = build_query_url(&req.auth, req.name.as_str(), req.version.as_str());
            (AcquireState::Querying, Action::Fetch(url))
        },
        (AcquireState::Querying, Event::RegistryBody(body_opt)) => match body_opt {
            None => (AcquireState::Failed(ResolveError::RegistryError), Action::Idle),
            Some(body) => match evaluate_registry_response(
                body.as_str(),
                req.version.as_str(),
                req.strict,
            ) {
                Err(e) => (AcquireState::Failed(e), Action::Idle),
                Ok(m) => {
                    let target_dir = if req.dir_with_name {
                        cache_dir_path(req.base_dir.as_str(), m.n.as_str(), m.v.as_str())
                    } else {
                        String::from_str(req.base_dir.as_str())
                    };
                    let target_file = concat3(target_dir.as_str(), "/", m.file_name.as_str());
                    let dir_for_action = target_dir.clone();
                    let p = PendingPackage { meta: m, target_dir, target_file };
                    (AcquireState::Preparing(p), Action::EnsureDir(dir_for_action))
                },
            },
        },
        (AcquireState::Preparing(p), Event::DirReady(ok)) => if ok {
            let url = p.meta.url.clone();
            let dest = p.target_file.clone();
            (AcquireState::Downloading(p), Action::Download(url, dest))
        } else {
            (AcquireState::Failed(ResolveError::CacheIOError), Action::Idle)
        },
        (AcquireState::Downloading(p), Event::DownloadDone(ok)) => if ok {
            let file = p.target_file.clone();
            (AcquireState::Verifying(p), Action::ReadFile(file))
        } else {
            (AcquireState::Failed(ResolveError::RegistryError), Action::Idle)
        },
        (AcquireState::Verifying(p), Event::FileLoaded(data_opt)) => match data_opt {
            None => (AcquireState::Failed(ResolveError::CacheIOError), Action::Idle),
            Some(data) => match verify_integrity(p.meta.integrity.as_str(), data.as_slice()) {
                Err(e) => (AcquireState::Failed(e), Action::Idle),
                Ok(ok) => if !ok {
                    (AcquireState::Failed(ResolveError::VerificationError), Action::Idle)
                } else {
                    match archive_kind(p.meta.file_name.as_str()) {
                        None => (
                            AcquireState::Failed(ResolveError::ExtractionError),
                            Action::Idle,
                        ),
                        Some(k) => {
                            let dir = p.target_dir.clone();
                            let file = p.meta.file_name.clone();
                            (AcquireState::Extracting(p), Action::Extract(dir, file, k))
                        },
                    }
                },
            },
        },
        (AcquireState::Extracting(_), Event::ExtractDone(ok)) => if ok {
            (AcquireState::Done, Action::Idle)
        } else {
            (AcquireState::Failed(ResolveError::ExtractionError), Action::Idle)
        },
        (s, _) => (s, Action::Idle),
    }
}

// ------------------------------------------------------------------
// The builder resolution machine: check local cache, acquire on miss,
// locate the installation home
// ------------------------------------------------------------------

/// What a builder resolution is asked to do.
#[derive(Debug, PartialEq, Eq)]
pub struct ResolveRequest {
    /// The builder cache base directory.
    pub base_dir: String,
    /// The builder's textual name (`maven` or `gradle`).
    pub builder: String,
    /// The requested version string.
    pub version: String,
    /// The auth token for registry queries, if any.
    pub auth: Option<String>,
}

/// The mathematical model of a builder resolution request.
pub ghost struct ResolveRequestModel {
    pub base_dir: Seq<char>,
    pub builder: Seq<char>,
    pub version: Seq<char>,
    pub auth: Option<Seq<char>>,
}

impl View for ResolveRequest {
    type V = ResolveRequestModel;

    open spec fn view(&self) -> ResolveRequestModel {
        ResolveRequestModel {
            base_dir: self.base_dir@,
            builder: self.builder@,
            version: self.version@,
            auth: spec_opt_str(&self.auth),
        }
    }
}

/// The acquisition a builder resolution falls back to on a cache miss:
/// a named cache directory and strict version matching.
pub open spec fn spec_builder_acquire_request(req: ResolveRequestModel) -> AcquireRequestModel {
    AcquireRequestModel {
        base_dir: req.base_dir,
        dir_with_name: true,
        name: req.builder,
        version: req.version,
        strict: true,
        auth: req.auth,
    }
}

fn builder_acquire_request(req: &ResolveRequest) -> (r: AcquireRequest)
    ensures
        r@ == spec_builder_acquire_request(req@),
{
    AcquireRequest {
        base_dir: req.base_dir.clone(),
        dir_with_name: true,
        name: req.builder.clone(),
        version: req.version.clone(),
        strict: true,
        auth: clone_opt_str(&req.auth),
    }
}

/// The deterministic cache directory a builder resolution checks and reads.
pub open spec fn spec_resolve_cache_dir(req: ResolveRequestModel) -> Seq<char> {
    spec_cache_dir(req.base_dir, req.builder, req.version)
}

/// Where a builder resolution stands.
#[derive(Debug, PartialEq, Eq)]
pub enum ResolveState {
    /// Nothing has happened yet.
    Ready,
    /// The deterministic cache directory is being probed.
    CheckingLocal,
    /// The cache missed; a remote acquisition is running.
    Acquiring(AcquireState),
    /// The cache directory is populated; its first subdirectory is the home.
    LocatingHome,
    /// The builder was resolved.
    Done(BuilderDesc),
    /// The resolution failed; the state is absorbing.
    Failed(ResolveError),
}

/// The mathematical model of a builder resolution state.
pub ghost enum ResolveStateModel {
    Ready,
    CheckingLocal,
    Acquiring(AcquireStateModel),
    LocatingHome,
    Done(BuilderDescModel),
    Failed(ResolveError),
}

impl View for ResolveState {
    type V = ResolveStateModel;

    open spec fn view(&self) -> ResolveStateModel {
        match self {
            ResolveState::Ready => ResolveStateModel::Ready,
            ResolveState::CheckingLocal => ResolveStateModel::CheckingLocal,
            ResolveState::Acquiring(s) => ResolveStateModel::Acquiring(s@),
            ResolveState::LocatingHome => ResolveStateModel::LocatingHome,
            ResolveState::Done(d) => ResolveStateModel::Done(d@),
            ResolveState::Failed(e) => ResolveStateModel::Failed(*e),
        }
    }
}

/// The builder resolution transition function. An unknown builder name fails
/// at once; a cache hit goes straight to locating the home and never queries
/// the registry; a miss runs the acquisition machine and then locates the
/// home; a cache directory without a subdirectory, like a failed listing,
/// means the tool was not found.
pub open spec fn resolve_next(
    req: ResolveRequestModel,
    st: ResolveStateModel,
    ev: EventModel,
) -> (ResolveStateModel, ActionModel) {
    match (st, ev) {
        (ResolveStateModel::Ready, EventModel::Begin) => match spec_builder_of(req.builder) {
            None => (ResolveStateModel::Failed(ResolveError::ToolNotFound), ActionModel::Idle),
            Some(_) => (
                ResolveStateModel::CheckingLocal,
                ActionModel::CheckPath(spec_resolve_cache_dir(req)),
            ),
        },
        (ResolveStateModel::CheckingLocal, EventModel::PathChecked(hit)) => if hit {
            (
                ResolveStateModel::LocatingHome,
                ActionModel::ListDir(spec_resolve_cache_dir(req)),
            )
        } else {
            let (s, a) = acquire_next(
                spec_builder_acquire_request(req),
                AcquireStateModel::Ready,
                EventModel::Begin,
            );
            (ResolveStateModel::Acquiring(s), a)
        },
        (ResolveStateModel::Acquiring(s), ev) => {
            let (s2, a) = acquire_next(spec_builder_acquire_request(req), s, ev);
            match s2 {
                AcquireStateModel::Done => (
                    ResolveStateModel::LocatingHome,
                    ActionModel::ListDir(spec_resolve_cache_dir(req)),
                ),
                AcquireStateModel::Failed(e) => (
                    ResolveStateModel::Failed(e),
                    ActionModel::Idle,
                ),
                _ => (ResolveStateModel::Acquiring(s2), a),
            }
        },
        (ResolveStateModel::LocatingHome, EventModel::DirListing(lo)) => {
            let found = match lo {
                None => None,
                Some(l) => spec_first_dir(l),
            };
            match (found, spec_builder_of(req.builder)) {
                (Some(home), Some(b)) => (
                    ResolveStateModel::Done(BuilderDescModel { name: b, home, bin: None }),
                    ActionModel::Idle,
                ),
                _ => (ResolveStateModel::Failed(ResolveError::ToolNotFound), ActionModel::Idle),
            }
        },
        (s, _) => (s, ActionModel::Idle),
    }
}

/// Advances a builder resolution by one event and says what to do next.
pub fn resolve_step(req: &ResolveRequest, state: ResolveState, event: Event) -> (r: (
    ResolveState,
    Action,
))
    ensures
        (r.0@, r.1@) == resolve_next(req@, state@, event@),
{
    match (state, event) {
        (ResolveState::Ready, Event::Begin) => match builder_of(req.builder.as_str()) {
            None => (ResolveState::Failed(ResolveError::ToolNotFound), Action::Idle),
            Some(_) => {
                let dir = cache_dir_path(
                    req.base_dir.as_str(),
                    req.builder.as_str(),
                    req.version.as_str(),
                );
                (ResolveState::CheckingLocal, Action::CheckPath(dir))
            },
        },
        (ResolveState::CheckingLocal, Event::PathChecked(hit)) => if hit {
            let dir = cache_dir_path(
                req.base_dir.as_str(),
                req.builder.as_str(),
                req.version.as_str(),
            );
            (ResolveState::LocatingHome, Action::ListDir(dir))
        } else {
            let acq = builder_acquire_request(req);
            let (s, a) = acquire_step(&acq, AcquireState::Ready, Event::Begin);
            (ResolveState::Acquiring(s), a)
        },
        (ResolveState::Acquiring(s), ev) => {
            let acq = builder_acquire_request(req);
            let (s2, a) = acquire_step(&acq, s, ev);
            match s2 {
                AcquireState::Done => {
                    let dir = cache_dir_path(
                        req.base_dir.as_str(),
                        req.builder.as_str(),
                        req.version.as_str(),
                    );
                    (ResolveState::LocatingHome, Action::ListDir(dir))
                },
                AcquireState::Failed(e) => (ResolveState::Failed(e), Action::Idle),
                other => (ResolveState::Acquiring(other), a),
            }
        },
        (ResolveState::LocatingHome, Event::DirListing(lo)) => {
            let found = match &lo {
                None => None,
                Some(l) => crate::cache::first_dir_entry(l),
            };
            match (found, builder_of(req.builder.as_str())) {
                (Some(home), Some(b)) => (
                    ResolveState::Done(BuilderDesc { name: b, home, bin: None }),
                    Action::Idle,
                ),
                _ => (ResolveState::Failed(ResolveError::ToolNotFound), Action::Idle),
            }
        },
        (s, _) => (s, Action::Idle),
    }
}

// ------------------------------------------------------------------
// The JDK lookup machine: OS discovery, cache scan, remote fallback,
// rescan
// ------------------------------------------------------------------

/// What a JDK lookup is asked to do.
#[derive(Debug, PartialEq, Eq)]
pub struct JdkRequest {
    /// The JDK cache base directory.
    pub base_dir: String,
    /// The requested version string, prefix-matched against cached
    /// directory names.
    pub version: String,
    /// The auth token for registry queries, if any.
    pub auth: Option<String>,
    /// The operating system the lookup runs on.
    pub os: OsKind,
    /// An explicit remote JDK package name overriding the platform's
    /// conventional ones, if configured.
    pub name_override: Option<String>,
}

/// The mathematical model of a JDK lookup request.
pub ghost struct JdkRequestModel {
    pub base_dir: Seq<char>,
    pub version: Seq<char>,
    pub auth: Option<Seq<char>>,
    pub os: OsKind,
    pub name_override: Option<Seq<char>>,
}

impl View for JdkRequest {
    type V = JdkRequestModel;

    open spec fn view(&self) -> JdkRequestModel {
        JdkRequestModel {
            base_dir: self.base_dir@,
            version: self.version@,
            auth: spec_opt_str(&self.auth),
            os: self.os,
            name_override: spec_opt_str(&self.name_override),
        }
    }
}

/// The acquisition a JDK lookup falls back to: packages are extracted
/// directly under the base directory, and version mismatches are tolerated
/// because JDK naming conventions vary.
pub open spec fn spec_jdk_acquire_request(req: JdkRequestModel, name: Seq<char>) -> AcquireRequestModel {
    AcquireRequestModel {
        base_dir: req.base_dir,
        dir_with_name: false,
        name,
        version: req.version,
        strict: false,
        auth: req.auth,
    }
}

fn jdk_acquire_request(req: &JdkRequest, name: &str) -> (r: AcquireRequest)
    ensures
        r@ == spec_jdk_acquire_request(req@, name@),
{
    AcquireRequest {
        base_dir: req.base_dir.clone(),
        dir_with_name: false,
        name: String::from_str(name),
        version: req.version.clone(),
        strict: false,
        auth: clone_opt_str(&req.auth),
    }
}

/// Where a JDK lookup stands.
#[derive(Debug, PartialEq, Eq)]
pub enum JdkState {
    /// Nothing has happened yet.
    Ready,
    /// The platform's own JDK discovery is being asked.
    ProbingOs,
    /// The local cache is being scanned for a version match.
    Scanning,
    /// A match was found; its `Contents/Home` subdirectory is being probed.
    CheckingBundle(String),
    /// A remote package is being acquired: the name being tried, the names
    /// left to try, and the inner acquisition's state.
    TryingCloud(String, Vec<String>, AcquireState),
    /// A remote package was extracted; the cache is being scanned again.
    Rescanning,
    /// A match was found after the remote fetch; its `Contents/Home`
    /// subdirectory is being probed.
    RecheckingBundle(String),
    /// The JDK home was found.
    Done(String),
    /// Every strategy was exhausted; the state is absorbing.
    Failed(ResolveError),
}

/// The mathematical model of a JDK lookup state.
pub ghost enum JdkStateModel {
    Ready,
    ProbingOs,
    Scanning,
    CheckingBundle(Seq<char>),
    TryingCloud(Seq<char>, Seq<Seq<char>>, AcquireStateModel),
    Rescanning,
    RecheckingBundle(Seq<char>),
    Done(Seq<char>),
    Failed(ResolveError),
}

impl View for JdkState {
    type V = JdkStateModel;

    open spec fn view(&self) -> JdkStateModel {
        match self {
            JdkState::Ready => JdkStateModel::Ready,
            JdkState::ProbingOs => JdkStateModel::ProbingOs,
            JdkState::Scanning => JdkStateModel::Scanning,
            JdkState::CheckingBundle(p) => JdkStateModel::CheckingBundle(p@),
            JdkState::TryingCloud(c, rest, s) => JdkStateModel::TryingCloud(
                c@,
                names_view(rest@),
                s@,
            ),
            JdkState::Rescanning => JdkStateModel::Rescanning,
            JdkState::RecheckingBundle(p) => JdkStateModel::RecheckingBundle(p@),
            JdkState::Done(h) => JdkStateModel::Done(h@),
            JdkState::Failed(e) => JdkStateModel::Failed(*e),
        }
    }
}

/// How the remote fallback starts: only on macOS or Linux, with the first of
/// the platform's package names; with no name to try, the lookup fails.
pub open spec fn spec_enter_cloud(req: JdkRequestModel) -> (JdkStateModel, ActionModel) {
    if req.os is Other {
        (JdkStateModel::Failed(ResolveError::ToolNotFound), ActionModel::Idle)
    } else {
        let names = spec_cloud_java_names(req.os, req.name_override);
        if names.len() == 0 {
            (JdkStateModel::Failed(ResolveError::ToolNotFound), ActionModel::Idle)
        } else {
            let (s, a) = acquire_next(
                spec_jdk_acquire_request(req, names[0]),
                AcquireStateModel::Ready,
                EventModel::Begin,
            );
            (JdkStateModel::TryingCloud(names[0], names.drop_first(), s), a)
        }
    }
}

fn enter_cloud(req: &JdkRequest) -> (r: (JdkState, Action))
    ensures
        (r.0@, r.1@) == spec_enter_cloud(req@),
{
    match req.os {
        OsKind::Other => (JdkState::Failed(ResolveError::ToolNotFound), Action::Idle),
        _ => {
            let names = cloud_java_names(req.os, &req.name_override);
            proof {
                assert(names_view(names@) =~= spec_cloud_java_names(
                    req.os,
                    spec_opt_str(&req.name_override),
                ));
            }
            if names.len() == 0 {
                (JdkState::Failed(ResolveError::ToolNotFound), Action::Idle)
            } else {
                let current = names[0].clone();
                let rest = vec_tail(&names);
                let acq = jdk_acquire_request(req, current.as_str());
                let (s, a) = acquire_step(&acq, AcquireState::Ready, Event::Begin);
                (JdkState::TryingCloud(current, rest, s), a)
            }
        },
    }
}

/// The JDK lookup transition function. The platform's own discovery wins
/// when it reports a home; otherwise the cache is scanned for a prefix
/// match, and on a miss the platform's remote package names are tried in
/// order, rescanning the cache after the first successful extraction. A
/// matched directory's home is the directory itself, or its
/// `Contents/Home` when that exists.
pub open spec fn jdk_next(
    req: JdkRequestModel,
    st: JdkStateModel,
    ev: EventModel,
) -> (JdkStateModel, ActionModel) {
    match (st, ev) {
        (JdkStateModel::Ready, EventModel::Begin) => (
            JdkStateModel::ProbingOs,
            ActionModel::ProbeOsJavaHome,
        ),
        (JdkStateModel::ProbingOs, EventModel::OsJavaHome(found)) => match found {
            Some(h) => (JdkStateModel::Done(h), ActionModel::Idle),
            None => (JdkStateModel::Scanning, ActionModel::ListDir(req.base_dir)),
        },
        (JdkStateModel::Scanning, EventModel::DirListing(lo)) => {
            let found = match lo {
                None => None,
                Some(l) => spec_find_jdk(l, req.version),
            };
            match found {
                Some(path) => (
                    JdkStateModel::CheckingBundle(path),
                    ActionModel::CheckPath(path + "/Contents/Home"@),
                ),
                None => spec_enter_cloud(req),
            }
        },
        (JdkStateModel::CheckingBundle(path), EventModel::PathChecked(b)) => (
            JdkStateModel::Done(spec_java_home_within(path, b)),
            ActionModel::Idle,
        ),
        (JdkStateModel::TryingCloud(current, rest, inner), ev) => {
            let (s2, a) = acquire_next(spec_jdk_acquire_request(req, current), inner, ev);
            match s2 {
                AcquireStateModel::Done => (
                    JdkStateModel::Rescanning,
                    ActionModel::ListDir(req.base_dir),
                ),
                AcquireStateModel::Failed(_) => {
                    if rest.len() == 0 {
                        (JdkStateModel::Failed(ResolveError::ToolNotFound), ActionModel::Idle)
                    } else {
                        let (s3, a3) = acquire_next(
                            spec_jdk_acquire_request(req, rest[0]),
                            AcquireStateModel::Ready,
                            EventModel::Begin,
                        );
                        (JdkStateModel::TryingCloud(rest[0], rest.drop_first(), s3), a3)
                    }
                },
                _ => (JdkStateModel::TryingCloud(current, rest, s2), a),
            }
        },
        (JdkStateModel::Rescanning, EventModel::DirListing(lo)) => {
            let found = match lo {
                None => None,
                Some(l) => spec_find_jdk(l, req.version),
            };
            match found {
                Some(path) => (
                    JdkStateModel::RecheckingBundle(path),
                    ActionModel::CheckPath(path + "/Contents/Home"@),
                ),
                None => (JdkStateModel::Failed(ResolveError::ToolNotFound), ActionModel::Idle),
            }
        },
        (JdkStateModel::RecheckingBundle(path), EventModel::PathChecked(b)) => (
            JdkStateModel::Done(spec_java_home_within(path, b)),
            ActionModel::Idle,
        ),
        (s, _) => (s, ActionModel::Idle),
    }
}

/// Advances a JDK lookup by one event and says what to do next.
pub fn jdk_step(req: &JdkRequest, state: JdkState, event: Event) -> (r: (JdkState, Action))
    ensures
        (r.0@, r.1@) == jdk_next(req@, state@, event@),
{
    match (state, event) {
        (JdkState::Ready, Event::Begin) => (JdkState::ProbingOs, Action::ProbeOsJavaHome),
        (JdkState::ProbingOs, Event::OsJavaHome(found)) => match found {
            Some(h) => (JdkState::Done(h), Action::Idle),
            None => (JdkState::Scanning, Action::ListDir(req.base_dir.clone())),
        },
        (JdkState::Scanning, Event::DirListing(lo)) => {
            let found = match &lo {
                None => None,
                Some(l) => crate::jdkmatch::find_jdk_match(l, req.version.as_str()),
            };
            match found {
                Some(path) => {
                    let probe = concat2(path.as_str(), "/Contents/Home");
                    (JdkState::CheckingBundle(path), Action::CheckPath(probe))
                },
                None => enter_cloud(req),
            }
        },
        (JdkState::CheckingBundle(path), Event::PathChecked(b)) => {
            let home = crate::jdkmatch::java_home_within(path.as_str(), b);
            (JdkState::Done(home), Action::Idle)
        },
        (JdkState::TryingCloud(current, rest, inner), ev) => {
            let acq = jdk_acquire_request(req, current.as_str());
            let (s2, a) = acquire_step(&acq, inner, ev);
            match s2 {
                AcquireState::Done => (
                    JdkState::Rescanning,
                    Action::ListDir(req.base_dir.clone()),
                ),
                AcquireState::Failed(_) => {
                    if rest.len() == 0 {
                        (JdkState::Failed(ResolveError::ToolNotFound), Action::Idle)
                    } else {
                        let next_name = rest[0].clone();
                        let next_rest = vec_tail(&rest);
                        let acq2 = jdk_acquire_request(req, next_name.as_str());
                        let (s3, a3) = acquire_step(&acq2, AcquireState::Ready, Event::Begin);
                        (JdkState::TryingCloud(next_name, next_rest, s3), a3)
                    }
                },
                other => (JdkState::TryingCloud(current, rest, other), a),
            }
        },
        (JdkState::Rescanning, Event::DirListing(lo)) => {
            let found = match &lo {
                None => None,
                Some(l) => crate::jdkmatch::find_jdk_match(l, req.version.as_str()),
            };
            match found {
                Some(path) => {
                    let probe = concat2(path.as_str(), "/Contents/Home");
                    (JdkState::RecheckingBundle(path), Action::CheckPath(probe))
                },
                None => (JdkState::Failed(ResolveError::ToolNotFound), Action::Idle),
            }
        },
        (JdkState::RecheckingBundle(path), Event::PathChecked(b)) => {
            let home = crate::jdkmatch::java_home_within(path.as_str(), b);
            (JdkState::Done(home), Action::Idle)
        },
        (s, _) => (s, Action::Idle),
    }
}

// ------------------------------------------------------------------
// Laws
// ------------------------------------------------------------------

/// Re-resolution is idempotent and a cache hit is silent on the network: a
/// hit goes straight to locating the home under the deterministic cache
/// directory, and a resolution that just finished extracting converges on
/// exactly the same state and action, so for the same directory listing both
/// runs produce descriptors with the same home path. None of the transitions
/// on the hit path asks for a registry fetch.
pub proof fn lemma_resolve_idempotent(
    req: ResolveRequestModel,
    p: PendingPackageModel,
    l: Seq<(Seq<char>, bool)>,
)
    ensures
        resolve_next(req, ResolveStateModel::CheckingLocal, EventModel::PathChecked(true))
            == (ResolveStateModel::LocatingHome, ActionModel::ListDir(spec_resolve_cache_dir(req))),
        resolve_next(
            req,
            ResolveStateModel::Acquiring(AcquireStateModel::Extracting(p)),
            EventModel::ExtractDone(true),
        ) == resolve_next(req, ResolveStateModel::CheckingLocal, EventModel::PathChecked(true)),
        !(resolve_next(req, ResolveStateModel::Ready, EventModel::Begin).1 is Fetch),
        !(resolve_next(req, ResolveStateModel::CheckingLocal, EventModel::PathChecked(true)).1
            is Fetch),
        !(resolve_next(req, ResolveStateModel::LocatingHome, EventModel::DirListing(Some(l))).1
            is Fetch),
        (spec_builder_of(req.builder) is Some && spec_first_dir(l) is Some) ==> resolve_next(
            req,
            ResolveStateModel::LocatingHome,
            EventModel::DirListing(Some(l)),
        ).0 == ResolveStateModel::Done(
            BuilderDescModel {
                name: spec_builder_of(req.builder)->0,
                home: spec_first_dir(l)->0,
                bin: None,
            },
        ),
{
}

/// Strict version mismatch is fatal before anything touches the disk: a
/// well-formed registry response whose canonical version differs from the
/// strict request moves the acquisition to the version-mismatch failure with
/// no action, and the failed state absorbs every further event, so no
/// extraction ever happens.
pub proof fn lemma_strict_mismatch_aborts(
    req: AcquireRequestModel,
    body: Seq<char>,
    doc: RegistryDoc,
    ev: EventModel,
)
    requires
        req.strict,
        registry_doc_of(body) == Some(doc),
        doc.status == Some(200i64),
        doc.integrity is Some,
        doc.url is Some,
        doc.name is Some,
        doc.v != req.version,
    ensures
        acquire_next(req, AcquireStateModel::Querying, EventModel::RegistryBody(Some(body)))
            == (
            AcquireStateModel::Failed(ResolveError::VersionMismatch),
            ActionModel::Idle,
        ),
        acquire_next(req, AcquireStateModel::Failed(ResolveError::VersionMismatch), ev) == (
            AcquireStateModel::Failed(ResolveError::VersionMismatch),
            ActionModel::Idle,
        ),
{
}

/// A failed acquisition stays failed and never asks for anything more.
pub proof fn lemma_acquire_failure_absorbing(
    req: AcquireRequestModel,
    e: ResolveError,
    ev: EventModel,
)
    ensures
        acquire_next(req, AcquireStateModel::Failed(e), ev) == (
            AcquireStateModel::Failed(e),
            ActionModel::Idle,
        ),
{
}

} // verus!
