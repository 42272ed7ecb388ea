use vstd::prelude::*;
use crate::layout::{joined, join_path};

verus! {

/// What `str::to_lowercase` makes of a text.
pub uninterp spec fn lower_of(s: Seq<char>) -> Seq<char>;

/// Relies on str::to_lowercase: the result depends on the characters alone.
#[verifier::external_body]
fn lowercase(s: &str) -> (r: String)
    ensures
        r@ == lower_of(s@),
{
    s.to_lowercase()
}

/// The configuration repository that environments are fetched from.
pub const CONFIG_REPO_URL: &'static str =
    "https://github.com/timewave-computer/valence-program-manager-config.git";

/// The pending step of a resolution; `Done` ends it.
#[derive(Debug, Clone, Copy, PartialEq, Eq, Structural)]
pub enum ResolveStep {
    /// Does the local cache directory exist?
    CheckCache,
    /// Create the temporary directory.
    CreateTmp,
    /// Clone the configuration repository into the clone directory.
    CloneRepo,
    /// Does the clone hold a directory for the environment?
    CheckCloned,
    /// Move the environment's directory from the clone into the cache.
    MoveIntoCache,
    /// Remove the temporary directory.
    RemoveTmp,
    /// Load the consolidated file of the cache.
    LoadConsolidated,
    /// List the entries under the cache, first directly, then recursively.
    ListFiles,
    /// Load and merge the source files, later ones overriding earlier keys.
    LoadMerged,
    Done,
}

/// One entry of a directory listing.
#[derive(Debug, Clone)]
pub struct DirEntry {
    pub path: String,
    pub is_dir: bool,
}

/// What came of the pending step.
#[derive(Debug)]
pub enum ResolveEvent {
    CacheChecked(bool),
    TmpCreated(Result<(), String>),
    RepoCloned(Result<(), String>),
    ClonedChecked(bool),
    Moved(Result<(), String>),
    TmpRemoved(Result<(), String>),
    ConsolidatedLoaded(Result<(), String>),
    FilesListed(Vec<DirEntry>, Vec<DirEntry>),
    MergedLoaded(Result<(), String>),
}

#[derive(Debug, Clone)]
pub enum ResolveError {
    /// The repository was cloned but does not publish the environment.
    EnvironmentNotFound(String),
    /// The repository could not be cloned.
    CloneFailed(String),
    /// No strategy gave a valid configuration.
    ConfigParse(String),
    /// A filesystem operation failed.
    Io(String),
    /// An event arrived that does not answer the pending step.
    UnexpectedEvent,
}

impl ResolveError {
    /// A copy of this error.
    pub fn duplicate(&self) -> (r: ResolveError)
        ensures
            r == *self,
    {
        match self {
            ResolveError::EnvironmentNotFound(m) => ResolveError::EnvironmentNotFound(m.clone()),
            ResolveError::CloneFailed(m) => ResolveError::CloneFailed(m.clone()),
            ResolveError::ConfigParse(m) => ResolveError::ConfigParse(m.clone()),
            ResolveError::Io(m) => ResolveError::Io(m.clone()),
            ResolveError::UnexpectedEvent => ResolveError::UnexpectedEvent,
        }
    }
}

/// The paths of files found in a listing, directories left out, in order.
pub open spec fn files_of(entries: Seq<DirEntry>) -> Seq<Seq<char>>
    decreases entries.len(),
{
    if entries.len() == 0 {
        seq![]
    } else if entries.last().is_dir {
        files_of(entries.drop_last())
    } else {
        files_of(entries.drop_last()).push(entries.last().path@)
    }
}

/// The progress of a resolution.
pub ghost struct ResolveState {
    pub step: ResolveStep,
    pub failure: Option<ResolveError>,
    pub sources: Seq<Seq<char>>,
}

pub open spec fn initial_state() -> ResolveState {
    ResolveState { step: ResolveStep::CheckCache, failure: None, sources: seq![] }
}

pub open spec fn fail_with(s: ResolveState, step: ResolveStep, e: ResolveError) -> ResolveState {
    ResolveState { step, failure: Some(e), ..s }
}

pub open spec fn go(s: ResolveState, step: ResolveStep) -> ResolveState {
    ResolveState { step, ..s }
}

/// The state after `e` answers the pending step of `s`. A cache miss is
/// filled from the repository only where `fetch` holds. Once the temporary
/// directory may exist, every path leads through `RemoveTmp`; the first
/// failure is kept.
pub open spec fn advance(s: ResolveState, name: String, fetch: bool, e: ResolveEvent) -> ResolveState {
    match (s.step, e) {
        (ResolveStep::Done, _) => s,
        (ResolveStep::CheckCache, ResolveEvent::CacheChecked(found)) => if found {
            go(s, ResolveStep::LoadConsolidated)
        } else if fetch {
            go(s, ResolveStep::CreateTmp)
        } else {
            fail_with(s, ResolveStep::Done, ResolveError::EnvironmentNotFound(name))
        },
        (ResolveStep::CreateTmp, ResolveEvent::TmpCreated(r)) => match r {
            Ok(_) => go(s, ResolveStep::CloneRepo),
            Err(m) => fail_with(s, ResolveStep::RemoveTmp, ResolveError::Io(m)),
        },
        (ResolveStep::CloneRepo, ResolveEvent::RepoCloned(r)) => match r {
            Ok(_) => go(s, ResolveStep::CheckCloned),
            Err(m) => fail_with(s, ResolveStep::RemoveTmp, ResolveError::CloneFailed(m)),
        },
        (ResolveStep::CheckCloned, ResolveEvent::ClonedChecked(found)) => if found {
            go(s, ResolveStep::MoveIntoCache)
        } else {
            fail_with(s, ResolveStep::RemoveTmp, ResolveError::EnvironmentNotFound(name))
        },
        (ResolveStep::MoveIntoCache, ResolveEvent::Moved(r)) => match r {
            Ok(_) => go(s, ResolveStep::RemoveTmp),
            Err(m) => fail_with(s, ResolveStep::RemoveTmp, ResolveError::Io(m)),
        },
        (ResolveStep::RemoveTmp, ResolveEvent::TmpRemoved(r)) => match (r, s.failure) {
            (_, Some(_)) => go(s, ResolveStep::Done),
            (Ok(_), None) => go(s, ResolveStep::LoadConsolidated),
            (Err(m), None) => fail_with(s, ResolveStep::Done, ResolveError::Io(m)),
        },
        (ResolveStep::LoadConsolidated, ResolveEvent::ConsolidatedLoaded(r)) => match r {
            Ok(_) => go(s, ResolveStep::Done),
            Err(_) => go(s, ResolveStep::ListFiles),
        },
        (ResolveStep::ListFiles, ResolveEvent::FilesListed(top, nested)) => ResolveState {
            step: ResolveStep::LoadMerged,
            sources: files_of(top@) + files_of(nested@),
            ..s
        },
        (ResolveStep::LoadMerged, ResolveEvent::MergedLoaded(r)) => match r {
            Ok(_) => go(s, ResolveStep::Done),
            Err(m) => fail_with(s, ResolveStep::Done, ResolveError::ConfigParse(m)),
        },
        _ => fail_with(s, ResolveStep::Done, ResolveError::UnexpectedEvent),
    }
}

/// Resolution of one environment's configuration from a local cache under
/// `manager_configs/<name>`. A fetching resolver fills a miss from a clone of
/// the configuration repository made under `tmp/`; a cache-only one fails.
#[derive(Debug, Clone)]
pub struct Resolver {
    /// The environment's name, in lower case.
    pub name: String,
    /// Whether a cache miss is filled from the repository.
    pub fetch: bool,
    pub cache_dir: String,
    pub tmp_dir: String,
    pub clone_dir: String,
    pub cloned_env_dir: String,
    pub consolidated_file: String,
    pub step: ResolveStep,
    pub failure: Option<ResolveError>,
    pub sources: Vec<String>,
}

impl View for Resolver {
    type V = ResolveState;

    open spec fn view(&self) -> ResolveState {
        ResolveState {
            step: self.step,
            failure: self.failure,
            sources: self.sources@.map_values(|p: String| p@),
        }
    }
}

impl Resolver {
    /// The paths of a resolution, as fixed at its start.
    pub open spec fn paths_fixed(&self, cwd: Seq<char>, name: Seq<char>) -> bool {
        &&& self.name@ == name
        &&& self.cache_dir@ == joined(joined(cwd, "manager_configs"@), name)
        &&& self.tmp_dir@ == joined(cwd, "tmp"@)
        &&& self.clone_dir@ == joined(self.tmp_dir@, "manager_configs"@)
        &&& self.cloned_env_dir@ == joined(self.clone_dir@, name)
        &&& self.consolidated_file@ == joined(self.cache_dir@, "config.json"@)
    }

    /// Starts the resolution of `environment` (any case) from working
    /// directory `cwd`, filling a cache miss from the repository.
    pub fn new(cwd: &str, environment: &str) -> (r: Resolver)
        ensures
            r.paths_fixed(cwd@, lower_of(environment@)),
            r.fetch,
            r@ == initial_state(),
    {
        Self::start(cwd, environment, true)
    }

    /// Starts the resolution of `environment` (any case) from working
    /// directory `cwd` with the local cache alone.
    pub fn cache_only(cwd: &str, environment: &str) -> (r: Resolver)
        ensures
            r.paths_fixed(cwd@, lower_of(environment@)),
            !r.fetch,
            r@ == initial_state(),
    {
        Self::start(cwd, environment, false)
    }

    fn start(cwd: &str, environment: &str, fetch: bool) -> (r: Resolver)
        ensures
            r.paths_fixed(cwd@, lower_of(environment@)),
            r.fetch == fetch,
            r@ == initial_state(),
    {
        let name = lowercase(environment);
        let configs = join_path(cwd, "manager_configs");
        let cache_dir = join_path(configs.as_str(), name.as_str());
        let tmp_dir = join_path(cwd, "tmp");
        let clone_dir = join_path(tmp_dir.as_str(), "manager_configs");
        let cloned_env_dir = join_path(clone_dir.as_str(), name.as_str());
        let consolidated_file = join_path(cache_dir.as_str(), "config.json");
        let r = Resolver {
            name,
            fetch,
            cache_dir,
            tmp_dir,
            clone_dir,
            cloned_env_dir,
            consolidated_file,
            step: ResolveStep::CheckCache,
            failure: None,
            sources: Vec::new(),
        };
        assert(r@.sources =~= Seq::<Seq<char>>::empty());
        r
    }

    pub open spec fn same_paths(&self, other: &Resolver) -> bool {
        &&& self.name == other.name
        &&& self.fetch == other.fetch
        &&& self.cache_dir == other.cache_dir
        &&& self.tmp_dir == other.tmp_dir
        &&& self.clone_dir == other.clone_dir
        &&& self.cloned_env_dir == other.cloned_env_dir
        &&& self.consolidated_file == other.consolidated_file
    }

    fn fail(&mut self, step: ResolveStep, e: ResolveError)
        ensures
            final(self).same_paths(old(self)),
            final(self)@ == fail_with(old(self)@, step, e),
    {
        self.step = step;
        self.failure = Some(e);
    }

    /// Takes in what came of the pending step.
    pub fn advance(&mut self, event: ResolveEvent)
        ensures
            final(self).same_paths(old(self)),
            final(self)@ == advance(old(self)@, old(self).name, old(self).fetch, event),
    {
        if self.step == ResolveStep::Done {
            return;
        }
        match event {
            ResolveEvent::CacheChecked(found) if self.step == ResolveStep::CheckCache => {
                if found {
                    self.step = ResolveStep::LoadConsolidated;
                } else if self.fetch {
                    self.step = ResolveStep::CreateTmp;
                } else {
                    let name = self.name.clone();
                    self.fail(ResolveStep::Done, ResolveError::EnvironmentNotFound(name));
                }
            },
            ResolveEvent::TmpCreated(r) if self.step == ResolveStep::CreateTmp => match r {
                Ok(_) => self.step = ResolveStep::CloneRepo,
                Err(m) => self.fail(ResolveStep::RemoveTmp, ResolveError::Io(m)),
            },
            ResolveEvent::RepoCloned(r) if self.step == ResolveStep::CloneRepo => match r {
                Ok(_) => self.step = ResolveStep::CheckCloned,
                Err(m) => self.fail(ResolveStep::RemoveTmp, ResolveError::CloneFailed(m)),
            },
            ResolveEvent::ClonedChecked(found) if self.step == ResolveStep::CheckCloned => {
                if found {
                    self.step = ResolveStep::MoveIntoCache;
                } else {
                    let name = self.name.clone();
                    self.fail(ResolveStep::RemoveTmp, ResolveError::EnvironmentNotFound(name));
                }
            },
            ResolveEvent::Moved(r) if self.step == ResolveStep::MoveIntoCache => match r {
                Ok(_) => self.step = ResolveStep::RemoveTmp,
                Err(m) => self.fail(ResolveStep::RemoveTmp, ResolveError::Io(m)),
            },
            ResolveEvent::TmpRemoved(r) if self.step == ResolveStep::RemoveTmp => {
                if self.failure.is_some() {
                    self.step = ResolveStep::Done;
                } else {
                    match r {
                        Ok(_) => self.step = ResolveStep::LoadConsolidated,
                        Err(m) => self.fail(ResolveStep::Done, ResolveError::Io(m)),
                    }
                }
            },
            ResolveEvent::ConsolidatedLoaded(r) if self.step == ResolveStep::LoadConsolidated => {
                self.step = if r.is_ok() { ResolveStep::Done } else { ResolveStep::ListFiles };
            },
            ResolveEvent::FilesListed(top, nested) if self.step == ResolveStep::ListFiles => {
                self.sources = source_files(&top, &nested);
                self.step = ResolveStep::LoadMerged;
            },
            ResolveEvent::MergedLoaded(r) if self.step == ResolveStep::LoadMerged => match r {
                Ok(_) => self.step = ResolveStep::Done,
                Err(m) => self.fail(ResolveStep::Done, ResolveError::ConfigParse(m)),
            },
            _ => self.fail(ResolveStep::Done, ResolveError::UnexpectedEvent),
        }
    }

    /// The outcome once the resolution is done.
    pub fn outcome(&self) -> (r: Option<Result<(), ResolveError>>)
        ensures
            self.step != ResolveStep::Done ==> r is None,
            self.step == ResolveStep::Done ==> r == Some(match self.failure {
                Some(e) => Err::<(), ResolveError>(e),
                None => Ok(()),
            }),
    {
        if self.step != ResolveStep::Done {
            return None;
        }
        match &self.failure {
            Some(e) => Some(Err(e.duplicate())),
            None => Some(Ok(())),
        }
    }
}

fn push_files(out: &mut Vec<String>, entries: &Vec<DirEntry>)
    ensures
        final(out)@.map_values(|p: String| p@) == old(out)@.map_values(|p: String| p@) + files_of(entries@),
{
    let ghost start = old(out)@.map_values(|p: String| p@);
    let mut j: usize = 0;
    while j < entries.len()
        invariant
            j <= entries.len(),
            out@.map_values(|p: String| p@) == start + files_of(entries@.take(j as int)),
        decreases entries.len() - j,
    {
        assert(entries@.take(j + 1).drop_last() =~= entries@.take(j as int));
        assert(entries@.take(j + 1).last() == entries@[j as int]);
        if !entries[j].is_dir {
            let ghost before = out@;
            out.push(entries[j].path.clone());
            assert(out@.map_values(|p: String| p@) =~= before.map_values(|p: String| p@).push(
                entries@[j as int].path@,
            ));
            assert(out@.map_values(|p: String| p@) =~= start + files_of(entries@.take(j + 1)));
        }
        j += 1;
    }
    assert(entries@.take(entries.len() as int) =~= entries@);
}

/// The files to merge: those listed directly under the cache, then those
/// listed recursively, directories left out and order kept.
pub fn source_files(top: &Vec<DirEntry>, nested: &Vec<DirEntry>) -> (r: Vec<String>)
    ensures
        r@.map_values(|p: String| p@) == files_of(top@) + files_of(nested@),
{
    let mut r: Vec<String> = Vec::new();
    assert(r@.map_values(|p: String| p@) =~= Seq::<Seq<char>>::empty());
    push_files(&mut r, top);
    assert(files_of(top@) =~= Seq::<Seq<char>>::empty() + files_of(top@));
    push_files(&mut r, nested);
    r
}

} // verus!
