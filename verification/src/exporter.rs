//! A run of the exporter: which platforms are asked, in which order, and
//! what becomes of what they give.
//!
//! The platforms are asked one after the other, each in two steps: it is
//! authorized, then its list is fetched. What they give is merged into the
//! existing catalog and sorted. The first failure ends the run, and a run
//! that failed has nothing to store.

use crate::catalog::{merged, sort_music, sort_of};
use crate::errors::{ErrorView, MusicExporterError};
use crate::music::{dedup, dedup_counted, views, Music, MusicView};
use std::path::PathBuf;
use vstd::prelude::*;

verus! {

/// A path in the file system, as `std::path::PathBuf` holds it.
#[verifier::external_type_specification]
#[verifier::external_body]
pub struct ExPathBuf(PathBuf);

/// Platform type
#[derive(Debug, Clone, Copy, PartialEq, Eq, Structural)]
#[non_exhaustive]
pub enum PlatformType {
    /// Deezer platform
    Deezer,
    /// Spotify platform
    Spotify,
    /// Youtube platform
    Youtube,
}

impl PlatformType {
    /// The name of the platform.
    pub fn name(&self) -> (r: &'static str)
        ensures
            r@ == match self {
                PlatformType::Deezer => "Deezer"@,
                PlatformType::Spotify => "Spotify"@,
                PlatformType::Youtube => "Youtube"@,
            },
    {
        match self {
            PlatformType::Deezer => "Deezer",
            PlatformType::Spotify => "Spotify",
            PlatformType::Youtube => "Youtube",
        }
    }
}

/// Music-exporter args
#[derive(Debug)]
pub struct MusicExporter {
    /// Path to optional .env file
    pub env_file: Option<PathBuf>,
    /// Path to the music file
    pub music_file: PathBuf,
    /// Remove duplicates
    pub remove_duplicates: bool,
    /// Sort musics
    pub sort: bool,
    /// Target platforms
    pub platforms: Vec<PlatformType>,
    /// Custom youtube playlist id
    pub youtube_playlist_id: Option<String>,
}

impl MusicExporter {
    /// Create new from args
    pub fn new_from_vars(
        music_file: PathBuf,
        env_path: Option<PathBuf>,
        platforms: &[PlatformType],
    ) -> (r: Self)
        ensures
            r.music_file == music_file,
            r.env_file == env_path,
            r.platforms@ == platforms@,
            r.youtube_playlist_id is None,
            r.remove_duplicates,
            r.sort,
    {
        let mut list: Vec<PlatformType> = Vec::new();
        let mut i: usize = 0;
        while i < platforms.len()
            invariant
                i <= platforms@.len(),
                list@ == platforms@.take(i as int),
            decreases platforms@.len() - i,
        {
            list.push(platforms[i]);
            assert(list@ == platforms@.take(i + 1));
            i += 1;
        }
        assert(platforms@.take(platforms@.len() as int) == platforms@);
        MusicExporter {
            music_file,
            env_file: env_path,
            platforms: list,
            youtube_playlist_id: None,
            remove_duplicates: true,
            sort: true,
        }
    }

    /// Get all the platform types
    pub fn get_all_platform_type() -> (r: Vec<PlatformType>)
        ensures
            r@ == seq![PlatformType::Deezer, PlatformType::Spotify, PlatformType::Youtube],
    {
        let mut r: Vec<PlatformType> = Vec::new();
        r.push(PlatformType::Deezer);
        r.push(PlatformType::Spotify);
        r.push(PlatformType::Youtube);
        r
    }
}

/// Where a run stands.
#[derive(Debug, Clone, Copy, PartialEq, Eq, Structural)]
pub enum Phase {
    /// Nothing was done yet.
    Idle,
    /// The platform at the index given is being authorized.
    Authorizing(usize),
    /// The list of the platform at the index given is being fetched.
    Paginating(usize),
    /// All platforms gave their lists: duplicates are to be removed.
    Merging,
    /// The duplicates are removed: the catalog is to be sorted.
    Sorting,
    /// The catalog is ready to be stored.
    Done,
    /// A platform failed. The run is over and has nothing to store.
    Failed,
}

/// What the caller is to do next.
#[derive(Debug, Clone, Copy, PartialEq, Eq, Structural)]
pub enum RunAction {
    /// Authorize the platform given and report `Authorized` or `Failed`.
    Authorize(PlatformType),
    /// Fetch all pages of the platform given and report `Listed` or
    /// `Failed`.
    Paginate(PlatformType),
    /// Report `Continue`.
    Continue,
    /// Store the catalog of the run.
    Store,
    /// Give up: the run failed with the error that it holds.
    Abort,
    /// Nothing.
    Nothing,
}

/// What happened in a run.
#[derive(Debug)]
pub enum RunEvent {
    /// The run is to begin.
    Start,
    /// The platform that was being authorized is authorized.
    Authorized,
    /// The platform that was being fetched gave the records given.
    Listed(Vec<Music>),
    /// The platform that was being authorized or fetched failed.
    Failed(MusicExporterError),
    /// The run is to go on with what it can do by itself.
    Continue,
}

/// What a `RunEvent` holds.
pub ghost enum RunEventView {
    Start,
    Authorized,
    Listed(Seq<MusicView>),
    Failed(ErrorView),
    Continue,
}

impl View for RunEvent {
    type V = RunEventView;

    open spec fn view(&self) -> RunEventView {
        match self {
            RunEvent::Start => RunEventView::Start,
            RunEvent::Authorized => RunEventView::Authorized,
            RunEvent::Listed(items) => RunEventView::Listed(views(items@)),
            RunEvent::Failed(e) => RunEventView::Failed(e@),
            RunEvent::Continue => RunEventView::Continue,
        }
    }
}

/// A run of the exporter.
#[derive(Debug)]
pub struct Run {
    /// Where the run stands.
    pub phase: Phase,
    /// The platforms to ask, in the order in which they are asked.
    pub platforms: Vec<PlatformType>,
    /// Whether duplicates are removed.
    pub remove_duplicates: bool,
    /// Whether the catalog is sorted.
    pub sort: bool,
    /// The catalog: the existing records first, then what the platforms
    /// gave so far. Empty after a failure.
    pub catalog: Vec<Music>,
    /// The error with which the run failed.
    pub error: Option<MusicExporterError>,
}

/// What a `Run` holds.
pub ghost struct RunView {
    pub phase: Phase,
    pub platforms: Seq<PlatformType>,
    pub remove_duplicates: bool,
    pub sort: bool,
    pub catalog: Seq<MusicView>,
    pub error: Option<ErrorView>,
}

impl View for Run {
    type V = RunView;

    open spec fn view(&self) -> RunView {
        RunView {
            phase: self.phase,
            platforms: self.platforms@,
            remove_duplicates: self.remove_duplicates,
            sort: self.sort,
            catalog: views(self.catalog@),
            error: match self.error {
                Some(e) => Some(e@),
                None => None,
            },
        }
    }
}

/// A run as it begins: idle, with the existing catalog.
pub open spec fn begun(
    existing: Seq<MusicView>,
    platforms: Seq<PlatformType>,
    remove_duplicates: bool,
    sort: bool,
) -> RunView {
    RunView {
        phase: Phase::Idle,
        platforms,
        remove_duplicates,
        sort,
        catalog: existing,
        error: None,
    }
}

/// The phase in which the platform at `i` is taken up, and what is to be
/// done for it; behind the last platform, the merge.
pub open spec fn taking_up(platforms: Seq<PlatformType>, i: int) -> (Phase, RunAction) {
    if 0 <= i < platforms.len() && i <= usize::MAX {
        (Phase::Authorizing(i as usize), RunAction::Authorize(platforms[i]))
    } else {
        (Phase::Merging, RunAction::Continue)
    }
}

/// The run after `event` happened in the state `s`, and what is to be done
/// then.
///
/// Each platform is authorized, then fetched, and what it gives is added to
/// the catalog. Behind the last platform the duplicates are removed, then
/// the catalog is sorted, then it is to be stored. A failure of a platform
/// ends the run and empties the catalog. A run that is done or failed stays
/// as it is; so does one to which something happens that its phase does not
/// await.
pub open spec fn advanced(s: RunView, event: RunEventView) -> (RunView, RunAction) {
    match (s.phase, event) {
        (Phase::Idle, RunEventView::Start) => (
            RunView { phase: taking_up(s.platforms, 0).0, ..s },
            taking_up(s.platforms, 0).1,
        ),
        (Phase::Authorizing(i), RunEventView::Authorized) => if i < s.platforms.len() {
            (RunView { phase: Phase::Paginating(i), ..s }, RunAction::Paginate(s.platforms[i as int]))
        } else {
            (s, RunAction::Nothing)
        },
        (Phase::Paginating(i), RunEventView::Listed(items)) => if i < s.platforms.len() {
            (
                RunView {
                    phase: taking_up(s.platforms, i + 1).0,
                    catalog: s.catalog + items,
                    ..s
                },
                taking_up(s.platforms, i + 1).1,
            )
        } else {
            (s, RunAction::Nothing)
        },
        (Phase::Authorizing(_), RunEventView::Failed(e)) | (
            Phase::Paginating(_),
            RunEventView::Failed(e),
        ) => (
            RunView { phase: Phase::Failed, catalog: Seq::empty(), error: Some(e), ..s },
            RunAction::Abort,
        ),
        (Phase::Merging, RunEventView::Continue) => (
            RunView {
                phase: Phase::Sorting,
                catalog: if s.remove_duplicates {
                    dedup(s.catalog)
                } else {
                    s.catalog
                },
                ..s
            },
            RunAction::Continue,
        ),
        (Phase::Sorting, RunEventView::Continue) => (
            RunView {
                phase: Phase::Done,
                catalog: if s.sort {
                    sort_of(s.catalog)
                } else {
                    s.catalog
                },
                ..s
            },
            RunAction::Store,
        ),
        _ => (s, RunAction::Nothing),
    }
}

impl Run {
    /// A run that starts from the catalog `existing` and asks `platforms`,
    /// in this order.
    pub fn new(
        existing: Vec<Music>,
        platforms: Vec<PlatformType>,
        remove_duplicates: bool,
        sort: bool,
    ) -> (r: Self)
        ensures
            r@ == begun(views(existing@), platforms@, remove_duplicates, sort),
    {
        Run {
            phase: Phase::Idle,
            platforms,
            remove_duplicates,
            sort,
            catalog: existing,
            error: None,
        }
    }

    /// The phase in which the platform at `i` is taken up, and what is to
    /// be done for it.
    fn take_up(&self, i: usize) -> (r: (Phase, RunAction))
        ensures
            r == taking_up(self.platforms@, i as int),
    {
        if i < self.platforms.len() {
            (Phase::Authorizing(i), RunAction::Authorize(self.platforms[i]))
        } else {
            (Phase::Merging, RunAction::Continue)
        }
    }

    /// Takes in what happened and says what is to be done next.
    pub fn step(self, event: RunEvent) -> (r: (Run, RunAction))
        ensures
            (r.0@, r.1) == advanced(self@, event@),
    {
        let mut run = self;
        match (run.phase, event) {
            (Phase::Idle, RunEvent::Start) => {
                let (phase, action) = run.take_up(0);
                run.phase = phase;
                (run, action)
            },
            (Phase::Authorizing(i), RunEvent::Authorized) => {
                if i < run.platforms.len() {
                    let platform = run.platforms[i];
                    run.phase = Phase::Paginating(i);
                    (run, RunAction::Paginate(platform))
                } else {
                    (run, RunAction::Nothing)
                }
            },
            (Phase::Paginating(i), RunEvent::Listed(items)) => {
                if i < run.platforms.len() {
                    let (phase, action) = run.take_up(i + 1);
                    let mut items = items;
                    let ghost before = views(run.catalog@);
                    let ghost added = views(items@);
                    run.catalog.append(&mut items);
                    assert(views(run.catalog@) == before + added);
                    run.phase = phase;
                    (run, action)
                } else {
                    (run, RunAction::Nothing)
                }
            },
            (Phase::Authorizing(_), RunEvent::Failed(e)) => (
                Self::fail(run, e),
                RunAction::Abort,
            ),
            (Phase::Paginating(_), RunEvent::Failed(e)) => (Self::fail(run, e), RunAction::Abort),
            (Phase::Merging, RunEvent::Continue) => {
                let Run { phase, platforms, remove_duplicates, sort, catalog, error } = run;
                let catalog = if remove_duplicates {
                    dedup_counted(catalog).0
                } else {
                    catalog
                };
                (
                    Run { phase: Phase::Sorting, platforms, remove_duplicates, sort, catalog, error },
                    RunAction::Continue,
                )
            },
            (Phase::Sorting, RunEvent::Continue) => {
                let Run { phase, platforms, remove_duplicates, sort, catalog, error } = run;
                let catalog = if sort {
                    sort_music(catalog)
                } else {
                    catalog
                };
                (
                    Run { phase: Phase::Done, platforms, remove_duplicates, sort, catalog, error },
                    RunAction::Store,
                )
            },
            (_, _) => (run, RunAction::Nothing),
        }
    }

    /// The run, failed with `e`: it keeps no record.
    fn fail(run: Run, e: MusicExporterError) -> (r: Run)
        ensures
            r@ == (RunView {
                phase: Phase::Failed,
                catalog: Seq::empty(),
                error: Some(e@),
                ..run@
            }),
    {
        let r = Run {
            phase: Phase::Failed,
            platforms: run.platforms,
            remove_duplicates: run.remove_duplicates,
            sort: run.sort,
            catalog: Vec::new(),
            error: Some(e),
        };
        assert(views(r.catalog@) == Seq::<MusicView>::empty());
        r
    }

    /// What the run ended with: the catalog to store, or the error. Nothing
    /// while the run is neither done nor failed.
    pub fn outcome(self) -> (r: Option<Result<Vec<Music>, MusicExporterError>>)
        ensures
            match r {
                Some(Ok(catalog)) => self.phase == Phase::Done && views(catalog@)
                    == self@.catalog,
                Some(Err(e)) => self.phase == Phase::Failed && self@.error == Some(e@),
                None => (self.phase != Phase::Done && self.phase != Phase::Failed) || (self.phase
                    == Phase::Failed && self.error is None),
            },
    {
        match self.phase {
            Phase::Done => Some(Ok(self.catalog)),
            Phase::Failed => match self.error {
                Some(e) => Some(Err(e)),
                None => None,
            },
            _ => None,
        }
    }
}

/// The run after each of `events` happened in turn.
pub open spec fn advanced_all(s: RunView, events: Seq<RunEventView>) -> RunView
    decreases events.len(),
{
    if events.len() == 0 {
        s
    } else {
        advanced(advanced_all(s, events.drop_last()), events.last()).0
    }
}

/// The records of `lists`, one list after the other.
pub open spec fn flatten(lists: Seq<Seq<MusicView>>) -> Seq<MusicView>
    decreases lists.len(),
{
    if lists.len() == 0 {
        Seq::empty()
    } else {
        flatten(lists.drop_last()) + lists.last()
    }
}

/// What happens in a run in which each platform is authorized and gives the
/// list that `lists` holds for it: the start, then for each platform its
/// authorization and its list.
pub open spec fn fetch_events(lists: Seq<Seq<MusicView>>) -> Seq<RunEventView>
    decreases lists.len(),
{
    if lists.len() == 0 {
        seq![RunEventView::Start]
    } else {
        fetch_events(lists.drop_last()).push(RunEventView::Authorized).push(
            RunEventView::Listed(lists.last()),
        )
    }
}

/// A run that is done or failed stays as it is, whatever happens, and asks
/// for nothing more. A failed run is never told to store.
pub proof fn lemma_over_is_final(s: RunView, event: RunEventView)
    requires
        s.phase == Phase::Done || s.phase == Phase::Failed,
    ensures
        advanced(s, event) == (s, RunAction::Nothing),
{
}

/// The catalog is to be stored only when the run becomes done, which it
/// becomes only from sorting; and a failure of a platform ends the run at
/// once, with no record kept.
pub proof fn lemma_store_and_failure(s: RunView, event: RunEventView)
    ensures
        advanced(s, event).1 == RunAction::Store <==> s.phase == Phase::Sorting && event
            is Continue,
        advanced(s, event).1 == RunAction::Store ==> advanced(s, event).0.phase == Phase::Done,
        (s.phase is Authorizing || s.phase is Paginating) && event is Failed ==> advanced(
            s,
            event,
        ).0.phase == Phase::Failed && advanced(s, event).0.catalog.len() == 0 && advanced(
            s,
            event,
        ).1 == RunAction::Abort,
        advanced(s, event).0.phase == Phase::Failed && s.phase != Phase::Failed ==> event
            is Failed,
{
}

/// After the platforms that `lists` speaks of gave their lists, the catalog
/// holds the existing records and behind them those lists, in order, and
/// the next platform is taken up.
pub proof fn lemma_fetches(
    existing: Seq<MusicView>,
    platforms: Seq<PlatformType>,
    remove_duplicates: bool,
    sort: bool,
    lists: Seq<Seq<MusicView>>,
)
    requires
        lists.len() <= platforms.len() <= usize::MAX,
    ensures
        advanced_all(begun(existing, platforms, remove_duplicates, sort), fetch_events(lists))
            == (RunView {
            phase: taking_up(platforms, lists.len() as int).0,
            catalog: existing + flatten(lists),
            ..begun(existing, platforms, remove_duplicates, sort)
        }),
    decreases lists.len(),
{
    let start = begun(existing, platforms, remove_duplicates, sort);
    let events = fetch_events(lists);
    if lists.len() == 0 {
        assert(events.drop_last() == Seq::<RunEventView>::empty());
        assert(events.last() == RunEventView::Start);
        assert(advanced_all(start, events.drop_last()) == start);
        assert(advanced_all(start, events) == advanced(start, RunEventView::Start).0);
        assert(flatten(lists) == Seq::<MusicView>::empty());
        assert(existing + flatten(lists) == existing);
    } else {
        let head = lists.drop_last();
        lemma_fetches(existing, platforms, remove_duplicates, sort, head);
        let before = fetch_events(head);
        let middle = before.push(RunEventView::Authorized);
        assert(events == middle.push(RunEventView::Listed(lists.last())));
        assert(events.drop_last() == middle);
        assert(middle.drop_last() == before);
        let s0 = advanced_all(start, before);
        let i = head.len() as int;
        assert(s0.phase == Phase::Authorizing(i as usize));
        let s1 = advanced(s0, RunEventView::Authorized).0;
        assert(advanced_all(start, middle) == s1);
        assert(s1.phase == Phase::Paginating(i as usize));
        let s2 = advanced(s1, RunEventView::Listed(lists.last())).0;
        assert(advanced_all(start, events) == s2);
        assert(existing + flatten(head) + lists.last() == existing + flatten(lists));
    }
}

/// A run in which no platform fails ends done, and its catalog is the merge
/// of the existing records with what the platforms gave, in the order in
/// which they were asked.
pub proof fn lemma_run_ends_merged(
    existing: Seq<MusicView>,
    platforms: Seq<PlatformType>,
    remove_duplicates: bool,
    sort: bool,
    lists: Seq<Seq<MusicView>>,
)
    requires
        lists.len() == platforms.len() <= usize::MAX,
    ensures
        advanced_all(
            begun(existing, platforms, remove_duplicates, sort),
            fetch_events(lists).push(RunEventView::Continue).push(RunEventView::Continue),
        ) == (RunView {
            phase: Phase::Done,
            catalog: merged(existing, flatten(lists), remove_duplicates, sort),
            ..begun(existing, platforms, remove_duplicates, sort)
        }),
{
    lemma_fetches(existing, platforms, remove_duplicates, sort, lists);
    let fetched = fetch_events(lists);
    let middle = fetched.push(RunEventView::Continue);
    let events = middle.push(RunEventView::Continue);
    assert(events.drop_last() == middle);
    assert(middle.drop_last() == fetched);
    let start = begun(existing, platforms, remove_duplicates, sort);
    let s0 = advanced_all(start, fetched);
    assert(s0.phase == Phase::Merging);
    let s1 = advanced(s0, RunEventView::Continue).0;
    assert(advanced_all(start, middle) == s1);
    let s2 = advanced(s1, RunEventView::Continue).0;
    assert(advanced_all(start, events) == s2);
}

} // verus!
