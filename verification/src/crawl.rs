//! The crawl as a state machine: from the state and the outcome of the last action to the
//! next state and the next action. The caller performs the actions (network, file system)
//! and hands back their outcomes.

use crate::archive::{archive_outcome, extract_datafile_from_zip, opened_archive};
use crate::cli::Args;
use crate::error::Error;
use crate::filename::{target_failure, target_file_name, target_name};
use crate::locator::{absolute_text, get_url, parsed_url, Locator, LocatorView};
use vstd::prelude::*;

verus! {

/// The step of the traversal during which a failure arose, where that adds to the failure.
#[derive(Debug, Clone, Copy)]
pub enum Context {
    /// While the list of jams was obtained.
    JamList,
    /// While the list of games of a jam was obtained.
    GameList,
    /// While the Windows download link of a game was looked up.
    DownloadLink,
}

impl Context {
    /// What was being done, in words.
    pub open spec fn message_text(self) -> Seq<char> {
        match self {
            Context::JamList => "Could not get list of Game Jams"@,
            Context::GameList => "Could not get list of games in Game Jam"@,
            Context::DownloadLink => "Could not get download URL for Windows"@,
        }
    }

    /// What was being done, in words.
    pub fn message(&self) -> (text: &'static str)
        ensures
            text@ == self.message_text(),
    {
        match self {
            Context::JamList => "Could not get list of Game Jams",
            Context::GameList => "Could not get list of games in Game Jam",
            Context::DownloadLink => "Could not get download URL for Windows",
        }
    }
}

/// A failure that ends the run.
#[derive(Debug)]
pub struct Failure {
    pub context: Option<Context>,
    pub error: Error,
}

/// How creating the destination directory ended.
#[derive(Debug)]
pub enum DirectoryOutcome {
    /// The directory was created.
    Created,
    /// The directory was there already.
    AlreadyExists,
    /// The directory is not there and could not be created.
    Failed { reason: String },
}

/// Whether the destination directory is there after the attempt to create it: one that
/// existed already is as good as one that was created; any other outcome is the failure
/// `DirectoryCreation`.
pub fn mkdir(outcome: DirectoryOutcome) -> (result: Result<(), Error>)
    ensures
        match outcome {
            DirectoryOutcome::Failed { reason } => result == Err::<(), Error>(
                Error::DirectoryCreation { reason },
            ),
            _ => result is Ok,
        },
{
    match outcome {
        DirectoryOutcome::Failed { reason } => Err(Error::DirectoryCreation { reason }),
        _ => Ok(()),
    }
}

/// The outcome of the action that the crawl asked for last.
#[derive(Debug)]
pub enum Event {
    /// Nothing has been done yet.
    Started,
    /// `Action::CreateDirectory` was performed.
    DirectoryReady(DirectoryOutcome),
    /// `Action::ListJams` was performed.
    JamsListed(Result<Vec<Locator>, Error>),
    /// `Action::ListGames` was performed.
    GamesListed(Result<Vec<Locator>, Error>),
    /// `Action::CheckTarget` was performed.
    TargetChecked { exists: bool },
    /// `Action::ResolveDownload` was performed.
    DownloadResolved(Result<Option<Locator>, Error>),
    /// `Action::Download` failed before the archive was at hand.
    DownloadFailed(Error),
    /// `Action::Download` fetched the archive, and extraction ended as given.
    Extracted(Result<Vec<u8>, Error>),
    /// `Action::Save` was performed.
    Saved(Result<(), Error>),
}

/// What a download amounts to, given what fetching the archive gave: a fetch that failed
/// is `DownloadFailed`; an archive that was fetched is searched for its data file, and the
/// outcome of that is `Extracted`.
pub fn download_game(fetched: Result<Vec<u8>, Error>) -> (event: Event)
    ensures
        match fetched {
            Ok(bytes) => event matches Event::Extracted(extracted) && archive_outcome(
                opened_archive(bytes@),
                extracted,
            ),
            Err(error) => event == Event::DownloadFailed(error),
        },
{
    match fetched {
        Ok(bytes) => Event::Extracted(extract_datafile_from_zip(bytes.as_slice())),
        Err(error) => Event::DownloadFailed(error),
    }
}

/// What the caller is to do next.
#[derive(Debug)]
pub enum Action {
    /// Create the destination directory.
    CreateDirectory,
    /// Fetch the jam index page at the given address and list its jams.
    ListJams(Locator),
    /// Fetch the page of the current jam and list its games.
    ListGames,
    /// Test whether the file of the current game exists in the destination directory.
    CheckTarget,
    /// Fetch the page of the current game and look up its Windows download link.
    ResolveDownload,
    /// Fetch the archive at the resolved address and extract its data file.
    Download,
    /// Write the content to the file of the current game.
    Save { content: Vec<u8> },
    /// The run is complete.
    Finish,
    /// The run has failed.
    Abort(Failure),
}

/// What a step reports besides its action. A game is given by its index in the current
/// list of games.
#[derive(Debug)]
pub enum Notice {
    /// The jam index was read and lists `count` jams.
    GotJams { count: usize },
    /// The page of the current jam was read and lists `count` games.
    GotGames { count: usize },
    /// The file of the game exists already: nothing was fetched for it.
    SkippedExisting { game: usize },
    /// The game has no Windows build.
    SkippedNoWindowsBuild { game: usize },
    /// The archive of the game gave no data file; the run goes on with the next game.
    ExtractionFailed { game: usize, error: Error },
}

/// The answer to one event.
#[derive(Debug)]
pub struct Step {
    pub notice: Option<Notice>,
    pub action: Action,
}

/// What the crawl waits for.
#[derive(Debug, Clone, Copy)]
pub enum Phase {
    /// Nothing was asked for yet.
    Idle,
    /// `Action::CreateDirectory` was asked for.
    CreatingDirectory,
    /// `Action::ListJams` was asked for.
    ListingJams,
    /// `Action::ListGames` was asked for.
    ListingGames,
    /// `Action::CheckTarget` was asked for.
    CheckingTarget,
    /// `Action::ResolveDownload` was asked for.
    ResolvingDownload,
    /// `Action::Download` was asked for.
    Downloading,
    /// `Action::Save` was asked for.
    Saving,
    /// The run is complete.
    Finished,
    /// The run has failed.
    Aborted,
}

/// The state of a crawl.
#[derive(Debug)]
pub struct Crawl {
    directory: String,
    phase: Phase,
    jams: Vec<Locator>,
    jam: usize,
    games: Vec<Locator>,
    game: usize,
    file_name: String,
    download: Option<Locator>,
}

/// A `Crawl` in specifications.
pub struct CrawlView {
    pub directory: Seq<char>,
    pub phase: Phase,
    pub jams: Seq<LocatorView>,
    pub jam: nat,
    pub games: Seq<LocatorView>,
    pub game: nat,
    pub file_name: Seq<char>,
    pub download: Option<LocatorView>,
}

/// The views of a sequence of addresses.
pub open spec fn locator_views(locators: Seq<Locator>) -> Seq<LocatorView> {
    locators.map_values(|locator: Locator| locator@)
}

/// The view of an address that may be absent.
pub open spec fn optional_view(locator: Option<Locator>) -> Option<LocatorView> {
    match locator {
        Some(locator) => Some(locator@),
        None => None,
    }
}

impl View for Crawl {
    type V = CrawlView;

    closed spec fn view(&self) -> CrawlView {
        CrawlView {
            directory: self.directory@,
            phase: self.phase,
            jams: locator_views(self.jams@),
            jam: self.jam as nat,
            games: locator_views(self.games@),
            game: self.game as nat,
            file_name: self.file_name@,
            download: optional_view(self.download),
        }
    }
}

impl CrawlView {
    /// The state before anything is done.
    pub open spec fn initial(directory: Seq<char>) -> CrawlView {
        CrawlView {
            directory,
            phase: Phase::Idle,
            jams: Seq::empty(),
            jam: 0,
            games: Seq::empty(),
            game: 0,
            file_name: Seq::empty(),
            download: None,
        }
    }

    /// Whether the crawl is at work on a game.
    pub open spec fn on_game(self) -> bool {
        self.phase is CheckingTarget || self.phase is ResolvingDownload || self.phase
            is Downloading || self.phase is Saving
    }

    /// Whether the crawl is at work on a jam.
    pub open spec fn on_jam(self) -> bool {
        self.phase is ListingGames || self.on_game()
    }

    /// What holds of every state that a crawl reaches: while it works on a jam or a game,
    /// that jam or game is one of those listed; while it downloads or saves, the download
    /// address is known; and the lists are short enough to be counted.
    pub open spec fn consistent(self) -> bool {
        &&& self.jams.len() <= usize::MAX
        &&& self.games.len() <= usize::MAX
        &&& self.jam <= self.jams.len()
        &&& self.game <= self.games.len()
        &&& self.on_jam() ==> self.jam < self.jams.len()
        &&& self.on_game() ==> self.game < self.games.len()
        &&& (self.phase is Downloading || self.phase is Saving) ==> self.download is Some
    }
}

/// The path of the jam index page, relative to the site.
pub open spec fn jam_index_path() -> Seq<char> {
    "game-jams/top-down/games"@
}

/// The step that ends the run with `error`.
pub open spec fn aborts(
    pre: CrawlView,
    post: CrawlView,
    step: Step,
    context: Option<Context>,
    error: Error,
) -> bool {
    &&& post == CrawlView { phase: Phase::Aborted, ..pre }
    &&& step.notice is None
    &&& step.action == Action::Abort(Failure { context, error })
}

/// Turning to the jam at `base.jam`: its games are listed, or the run is complete where no
/// jam is left.
pub open spec fn begins_jam(base: CrawlView, post: CrawlView, action: Action) -> bool {
    if base.jam < base.jams.len() {
        post == CrawlView { phase: Phase::ListingGames, ..base } && action == Action::ListGames
    } else {
        post == CrawlView { phase: Phase::Finished, ..base } && action == Action::Finish
    }
}

/// Turning to the game at `base.game`: its file is named and looked for, or the run fails
/// where it cannot be named; where no game is left, the crawl turns to the next jam.
pub open spec fn begins_game(base: CrawlView, post: CrawlView, action: Action) -> bool {
    if base.game < base.games.len() {
        let path = base.games[base.game as int].path;
        match action {
            Action::CheckTarget => {
                &&& target_name(path) == Some(post.file_name)
                &&& post == CrawlView {
                    phase: Phase::CheckingTarget,
                    file_name: post.file_name,
                    ..base
                }
            },
            Action::Abort(failure) => {
                &&& failure.context is None
                &&& target_failure(path, failure.error)
                &&& post == CrawlView { phase: Phase::Aborted, ..base }
            },
            _ => false,
        }
    } else {
        begins_jam(CrawlView { jam: base.jam + 1, ..base }, post, action)
    }
}

/// Leaving the game at `pre.game` for the next one.
pub open spec fn leaves_game(pre: CrawlView, post: CrawlView, action: Action) -> bool {
    begins_game(CrawlView { game: pre.game + 1, ..pre }, post, action)
}

/// The answer to the creation of the directory: the jam index is listed next, unless the
/// directory could not be created.
pub open spec fn after_directory(
    pre: CrawlView,
    outcome: DirectoryOutcome,
    post: CrawlView,
    step: Step,
) -> bool {
    match outcome {
        DirectoryOutcome::Failed { reason } => aborts(
            pre,
            post,
            step,
            None,
            Error::DirectoryCreation { reason },
        ),
        _ => {
            &&& step.notice is None
            &&& match step.action {
                Action::ListJams(index) => {
                    &&& parsed_url(absolute_text(jam_index_path())) == Some(index@)
                    &&& post == CrawlView { phase: Phase::ListingJams, ..pre }
                },
                Action::Abort(failure) => {
                    &&& parsed_url(absolute_text(jam_index_path())) is None
                    &&& failure.context == Some(Context::JamList)
                    &&& failure.error is InvalidLocator
                    &&& post == CrawlView { phase: Phase::Aborted, ..pre }
                },
                _ => false,
            }
        },
    }
}

/// The answer to the lookup of a game's Windows download link.
pub open spec fn after_resolution(
    pre: CrawlView,
    resolved: Result<Option<Locator>, Error>,
    post: CrawlView,
    step: Step,
) -> bool {
    match resolved {
        Ok(Some(url)) => {
            &&& step.notice is None
            &&& step.action == Action::Download
            &&& post == CrawlView { phase: Phase::Downloading, download: Some(url@), ..pre }
        },
        Ok(None) => {
            &&& step.notice == Some(Notice::SkippedNoWindowsBuild { game: pre.game as usize })
            &&& leaves_game(pre, post, step.action)
        },
        Err(error) => aborts(pre, post, step, Some(Context::DownloadLink), error),
    }
}

/// The answer to a download.
pub open spec fn after_extraction(
    pre: CrawlView,
    extracted: Result<Vec<u8>, Error>,
    post: CrawlView,
    step: Step,
) -> bool {
    match extracted {
        Ok(content) => {
            &&& step.notice is None
            &&& step.action == Action::Save { content }
            &&& post == CrawlView { phase: Phase::Saving, ..pre }
        },
        Err(error) => {
            &&& step.notice == Some(Notice::ExtractionFailed { game: pre.game as usize, error })
            &&& leaves_game(pre, post, step.action)
        },
    }
}

/// The crawl's transition relation: whether `post` and `step` answer `event` in state
/// `pre`.
pub open spec fn transition(pre: CrawlView, event: Event, post: CrawlView, step: Step) -> bool {
    match (pre.phase, event) {
        (Phase::Idle, Event::Started) => {
            &&& step.notice is None
            &&& step.action == Action::CreateDirectory
            &&& post == CrawlView { phase: Phase::CreatingDirectory, ..pre }
        },
        (Phase::CreatingDirectory, Event::DirectoryReady(outcome)) => after_directory(
            pre,
            outcome,
            post,
            step,
        ),
        (Phase::ListingJams, Event::JamsListed(Ok(jams))) => {
            &&& step.notice == Some(Notice::GotJams { count: jams.len() })
            &&& begins_jam(CrawlView { jams: locator_views(jams@), jam: 0, ..pre }, post, step.action)
        },
        (Phase::ListingJams, Event::JamsListed(Err(error))) => aborts(
            pre,
            post,
            step,
            Some(Context::JamList),
            error,
        ),
        (Phase::ListingGames, Event::GamesListed(Ok(games))) => {
            &&& step.notice == Some(Notice::GotGames { count: games.len() })
            &&& begins_game(
                CrawlView { games: locator_views(games@), game: 0, ..pre },
                post,
                step.action,
            )
        },
        (Phase::ListingGames, Event::GamesListed(Err(error))) => aborts(
            pre,
            post,
            step,
            Some(Context::GameList),
            error,
        ),
        (Phase::CheckingTarget, Event::TargetChecked { exists }) => if exists {
            &&& step.notice == Some(Notice::SkippedExisting { game: pre.game as usize })
            &&& leaves_game(pre, post, step.action)
        } else {
            &&& step.notice is None
            &&& step.action == Action::ResolveDownload
            &&& post == CrawlView { phase: Phase::ResolvingDownload, ..pre }
        },
        (Phase::ResolvingDownload, Event::DownloadResolved(resolved)) => after_resolution(
            pre,
            resolved,
            post,
            step,
        ),
        (Phase::Downloading, Event::DownloadFailed(error)) => aborts(pre, post, step, None, error),
        (Phase::Downloading, Event::Extracted(extracted)) => after_extraction(
            pre,
            extracted,
            post,
            step,
        ),
        (Phase::Saving, Event::Saved(Ok(()))) => {
            &&& step.notice is None
            &&& leaves_game(pre, post, step.action)
        },
        (Phase::Saving, Event::Saved(Err(error))) => aborts(pre, post, step, None, error),
        _ => aborts(pre, post, step, None, Error::UnexpectedEvent),
    }
}

/// A game whose file exists is skipped: the step reports the skip, asks for no lookup, no
/// download and no write, and turns to the next game.
pub proof fn lemma_existing_file_is_skipped(pre: CrawlView, post: CrawlView, step: Step)
    requires
        pre.phase is CheckingTarget,
        transition(pre, Event::TargetChecked { exists: true }, post, step),
    ensures
        step.notice == Some(Notice::SkippedExisting { game: pre.game as usize }),
        leaves_game(pre, post, step.action),
        !(step.action is ResolveDownload),
        !(step.action is Download),
        !(step.action is Save),
        !(post.phase is ResolvingDownload || post.phase is Downloading || post.phase is Saving),
{
}

/// Nothing is fetched for a game before its file was looked for and not found: a lookup of
/// the download link answers only a check that found no file, a download only a lookup that
/// found a link, and a write only an extraction that succeeded.
pub proof fn lemma_fetches_follow_a_missing_file(
    pre: CrawlView,
    event: Event,
    post: CrawlView,
    step: Step,
)
    requires
        transition(pre, event, post, step),
    ensures
        step.action is ResolveDownload ==> pre.phase is CheckingTarget && event
            == (Event::TargetChecked { exists: false }),
        step.action is Download ==> pre.phase is ResolvingDownload && (event
            matches Event::DownloadResolved(Ok(Some(_)))),
        step.action is Save ==> pre.phase is Downloading && (event matches Event::Extracted(Ok(_))),
{
}

/// Whether the crawl waits for the outcome of work on a game whose file was not found.
pub open spec fn is_fetching(phase: Phase) -> bool {
    phase is ResolvingDownload || phase is Downloading || phase is Saving
}

/// Whether an action fetches or writes for a game.
pub open spec fn is_fetch(action: Action) -> bool {
    action is ResolveDownload || action is Download || action is Save
}

/// Whether the given states, events and steps are a run of the crawl: each step and the
/// state after it answer the event in the state before it.
pub open spec fn is_run(states: Seq<CrawlView>, events: Seq<Event>, steps: Seq<Step>) -> bool {
    &&& states.len() == events.len() + 1
    &&& steps.len() == events.len()
    &&& forall|i: int|
        0 <= i < events.len() ==> transition(states[i], #[trigger] events[i], states[i + 1], steps[i])
}

/// A step that does not answer a check that found no file leaves the crawl out of the
/// fetching phases, and asks for no fetch.
pub proof fn lemma_no_fetch_without_missing_file(
    pre: CrawlView,
    event: Event,
    post: CrawlView,
    step: Step,
)
    requires
        transition(pre, event, post, step),
        !is_fetching(pre.phase),
        event != (Event::TargetChecked { exists: false }),
    ensures
        !is_fetching(post.phase),
        !is_fetch(step.action),
{
}

/// The first `upto` steps of a run over existing files: none of them fetches, and the state
/// after them is out of the fetching phases.
proof fn lemma_fetch_free_prefix(
    states: Seq<CrawlView>,
    events: Seq<Event>,
    steps: Seq<Step>,
    upto: int,
)
    requires
        is_run(states, events, steps),
        states[0].phase is Idle,
        forall|i: int|
            0 <= i < events.len() ==> #[trigger] events[i] != (Event::TargetChecked {
                exists: false,
            }),
        0 <= upto <= events.len(),
    ensures
        !is_fetching(states[upto].phase),
        forall|i: int| 0 <= i < upto ==> !is_fetch(#[trigger] steps[i].action),
    decreases upto,
{
    if upto > 0 {
        let last = upto - 1;
        lemma_fetch_free_prefix(states, events, steps, last);
        assert(transition(states[last], events[last], states[last + 1], steps[last]));
        lemma_no_fetch_without_missing_file(
            states[last],
            events[last],
            states[last + 1],
            steps[last],
        );
    }
}

/// A run in which every file that is looked for exists fetches nothing for any game: no
/// download link is looked up, no archive is downloaded and no file is written, from the
/// first step to the last.
pub proof fn lemma_run_over_existing_files_fetches_nothing(
    states: Seq<CrawlView>,
    events: Seq<Event>,
    steps: Seq<Step>,
)
    requires
        is_run(states, events, steps),
        states[0].phase is Idle,
        forall|i: int|
            0 <= i < events.len() ==> #[trigger] events[i] != (Event::TargetChecked {
                exists: false,
            }),
    ensures
        forall|i: int| 0 <= i < steps.len() ==> !is_fetch(#[trigger] steps[i].action),
{
    lemma_fetch_free_prefix(states, events, steps, events.len() as int);
}

/// Every step keeps the state consistent.
pub proof fn lemma_steps_keep_consistency(
    pre: CrawlView,
    event: Event,
    post: CrawlView,
    step: Step,
)
    requires
        pre.consistent(),
        transition(pre, event, post, step),
    ensures
        post.consistent(),
{
}

/// A game without a Windows build is skipped, and the run goes on: the step reports the
/// skip and turns to the next game. It is not a failure of this game: where the step aborts,
/// the next game is one whose file cannot be named.
pub proof fn lemma_missing_build_is_skipped(pre: CrawlView, post: CrawlView, step: Step)
    requires
        pre.consistent(),
        pre.phase is ResolvingDownload,
        transition(pre, Event::DownloadResolved(Ok(None)), post, step),
    ensures
        step.notice == Some(Notice::SkippedNoWindowsBuild { game: pre.game as usize }),
        leaves_game(pre, post, step.action),
        !(step.action is Download),
        !(step.action is Save),
        pre.game + 1 < pre.games.len() ==> {
            let path = pre.games[pre.game + 1 as int].path;
            &&& target_name(path) is Some ==> step.action is CheckTarget && post.game == pre.game
                + 1 && post.phase is CheckingTarget
            &&& (step.action matches Action::Abort(failure) ==> target_failure(path, failure.error))
        },
        pre.game + 1 == pre.games.len() && pre.jam + 1 < pre.jams.len() ==> step.action
            is ListGames && post.jam == pre.jam + 1,
        pre.game + 1 == pre.games.len() && pre.jam + 1 == pre.jams.len() ==> step.action
            is Finish,
{
}

impl Crawl {
    /// A crawl that has done nothing yet.
    pub fn new(args: Args) -> (crawl: Crawl)
        ensures
            crawl@ == CrawlView::initial(args.directory@),
            crawl@.consistent(),
    {
        let crawl = Crawl {
            directory: args.directory,
            phase: Phase::Idle,
            jams: Vec::new(),
            jam: 0,
            games: Vec::new(),
            game: 0,
            file_name: String::new(),
            download: None,
        };
        assert(crawl@.jams =~= Seq::empty());
        assert(crawl@.games =~= Seq::empty());
        crawl
    }

    /// The destination directory.
    pub fn directory(&self) -> (directory: &str)
        ensures
            directory@ == self@.directory,
    {
        self.directory.as_str()
    }

    /// What the crawl waits for.
    pub fn phase(&self) -> (phase: Phase)
        ensures
            phase == self@.phase,
    {
        self.phase
    }

    /// The jam that the crawl works on, where there is one.
    pub fn current_jam(&self) -> (jam: Option<&Locator>)
        ensures
            match jam {
                Some(jam) => self@.jam < self@.jams.len() && jam@ == self@.jams[self@.jam as int],
                None => self@.jam >= self@.jams.len(),
            },
    {
        if self.jam < self.jams.len() {
            Some(&self.jams[self.jam])
        } else {
            None
        }
    }

    /// The game at `index` of the current list of games, where there is one.
    pub fn game_at(&self, index: usize) -> (game: Option<&Locator>)
        ensures
            match game {
                Some(game) => index < self@.games.len() && game@ == self@.games[index as int],
                None => index >= self@.games.len(),
            },
    {
        if index < self.games.len() {
            Some(&self.games[index])
        } else {
            None
        }
    }

    /// The game that the crawl works on, where there is one.
    pub fn current_game(&self) -> (game: Option<&Locator>)
        ensures
            match game {
                Some(game) => self@.game < self@.games.len() && game@ == self@.games[self@.game as int],
                None => self@.game >= self@.games.len(),
            },
    {
        self.game_at(self.game)
    }

    /// The name of the file of the game that the crawl works on.
    pub fn file_name(&self) -> (name: &str)
        ensures
            name@ == self@.file_name,
    {
        self.file_name.as_str()
    }

    /// The address of the archive that was resolved last.
    pub fn download(&self) -> (url: Option<&Locator>)
        ensures
            match url {
                Some(url) => self@.download == Some(url@),
                None => self@.download is None,
            },
    {
        match &self.download {
            Some(url) => Some(url),
            None => None,
        }
    }

    fn abort(self, context: Option<Context>, error: Error) -> (next: (Crawl, Step))
        ensures
            aborts(self@, next.0@, next.1, context, error),
    {
        let crawl = Crawl { phase: Phase::Aborted, ..self };
        (crawl, Step { notice: None, action: Action::Abort(Failure { context, error }) })
    }

    fn begin_jam(self) -> (next: (Crawl, Action))
        ensures
            begins_jam(self@, next.0@, next.1),
    {
        if self.jam < self.jams.len() {
            (Crawl { phase: Phase::ListingGames, ..self }, Action::ListGames)
        } else {
            (Crawl { phase: Phase::Finished, ..self }, Action::Finish)
        }
    }

    fn begin_game(self) -> (next: (Crawl, Action))
        requires
            self@.jam < self@.jams.len(),
        ensures
            begins_game(self@, next.0@, next.1),
    {
        if self.game < self.games.len() {
            assert(self@.games[self.game as int] == self.games@[self.game as int]@);
            match target_file_name(&self.games[self.game]) {
                Ok(file_name) => (
                    Crawl { phase: Phase::CheckingTarget, file_name, ..self },
                    Action::CheckTarget,
                ),
                Err(error) => (
                    Crawl { phase: Phase::Aborted, ..self },
                    Action::Abort(Failure { context: None, error }),
                ),
            }
        } else {
            let listed = self.jams.len();
            assert(self.jam < listed);
            let jam = self.jam + 1;
            Crawl { jam, ..self }.begin_jam()
        }
    }

    fn leave_game(self) -> (next: (Crawl, Action))
        requires
            self@.jam < self@.jams.len(),
            self@.game < self@.games.len(),
        ensures
            leaves_game(self@, next.0@, next.1),
    {
        let listed = self.games.len();
        assert(self.game < listed);
        let game = self.game + 1;
        Crawl { game, ..self }.begin_game()
    }

    /// The answer to `event`: the next state, and what the caller is to do next.
    ///
    /// The caller starts with `Event::Started` and then hands in the outcome of each action.
    /// An event that does not answer the last action ends the run with `UnexpectedEvent`.
    pub fn step(self, event: Event) -> (next: (Crawl, Step))
        requires
            self@.consistent(),
        ensures
            transition(self@, event, next.0@, next.1),
            next.0@.consistent(),
    {
        match (self.phase, event) {
            (Phase::Idle, Event::Started) => (
                Crawl { phase: Phase::CreatingDirectory, ..self },
                Step { notice: None, action: Action::CreateDirectory },
            ),
            (Phase::CreatingDirectory, Event::DirectoryReady(outcome)) => match mkdir(outcome) {
                Err(error) => self.abort(None, error),
                Ok(()) => match get_url("game-jams/top-down/games") {
                    Ok(index) => (
                        Crawl { phase: Phase::ListingJams, ..self },
                        Step { notice: None, action: Action::ListJams(index) },
                    ),
                    Err(error) => self.abort(Some(Context::JamList), error),
                },
            },
            (Phase::ListingJams, Event::JamsListed(Ok(jams))) => {
                let notice = Notice::GotJams { count: jams.len() };
                let (crawl, action) = Crawl { jams, jam: 0, ..self }.begin_jam();
                (crawl, Step { notice: Some(notice), action })
            },
            (Phase::ListingJams, Event::JamsListed(Err(error))) => self.abort(
                Some(Context::JamList),
                error,
            ),
            (Phase::ListingGames, Event::GamesListed(Ok(games))) => {
                let notice = Notice::GotGames { count: games.len() };
                let (crawl, action) = Crawl { games, game: 0, ..self }.begin_game();
                (crawl, Step { notice: Some(notice), action })
            },
            (Phase::ListingGames, Event::GamesListed(Err(error))) => self.abort(
                Some(Context::GameList),
                error,
            ),
            (Phase::CheckingTarget, Event::TargetChecked { exists }) => {
                if exists {
                    let notice = Notice::SkippedExisting { game: self.game };
                    let (crawl, action) = self.leave_game();
                    (crawl, Step { notice: Some(notice), action })
                } else {
                    (
                        Crawl { phase: Phase::ResolvingDownload, ..self },
                        Step { notice: None, action: Action::ResolveDownload },
                    )
                }
            },
            (Phase::ResolvingDownload, Event::DownloadResolved(resolved)) => match resolved {
                Ok(Some(url)) => (
                    Crawl { phase: Phase::Downloading, download: Some(url), ..self },
                    Step { notice: None, action: Action::Download },
                ),
                Ok(None) => {
                    let notice = Notice::SkippedNoWindowsBuild { game: self.game };
                    let (crawl, action) = self.leave_game();
                    (crawl, Step { notice: Some(notice), action })
                },
                Err(error) => self.abort(Some(Context::DownloadLink), error),
            },
            (Phase::Downloading, Event::DownloadFailed(error)) => self.abort(None, error),
            (Phase::Downloading, Event::Extracted(extracted)) => match extracted {
                Ok(content) => (
                    Crawl { phase: Phase::Saving, ..self },
                    Step { notice: None, action: Action::Save { content } },
                ),
                Err(error) => {
                    let notice = Notice::ExtractionFailed { game: self.game, error };
                    let (crawl, action) = self.leave_game();
                    (crawl, Step { notice: Some(notice), action })
                },
            },
            (Phase::Saving, Event::Saved(Ok(()))) => {
                let (crawl, action) = self.leave_game();
                (crawl, Step { notice: None, action })
            },
            (Phase::Saving, Event::Saved(Err(error))) => self.abort(None, error),
            _ => self.abort(None, Error::UnexpectedEvent),
        }
    }
}

} // verus!
