use gm48_scraper::cli::Args;
use gm48_scraper::crawl::{download_game, Action, Crawl, DirectoryOutcome, Event, Failure, Notice};
use gm48_scraper::error::{Error, FetchCause};
use gm48_scraper::locator::Locator;
use gm48_scraper::scrape::{get_games, get_html, get_jams, get_windows_download_url, Page};
use std::collections::BTreeMap;
use std::io::{Cursor, Write};
use zip::write::SimpleFileOptions;
use zip::ZipWriter;

/// A site held in memory, and what a run did against it.
struct World {
    pages: BTreeMap<String, String>,
    archives: BTreeMap<String, Vec<u8>>,
    files: BTreeMap<String, Vec<u8>>,
    fetched: Vec<String>,
    skips: Vec<String>,
    reports: Vec<String>,
}

impl World {
    fn page(&mut self, url: &Locator) -> Result<Page, Error> {
        self.fetched.push(url.as_str().to_string());
        match self.pages.get(url.as_str()) {
            Some(body) => get_html(200, body.clone()),
            None => get_html(404, String::new()),
        }
    }

    fn archive(&mut self, url: &Locator) -> Result<Vec<u8>, Error> {
        self.fetched.push(url.as_str().to_string());
        match self.archives.get(url.as_str()) {
            Some(bytes) => Ok(bytes.clone()),
            None => Err(Error::FetchFailed(FetchCause::HttpStatus { code: 404 })),
        }
    }

    fn run(&mut self) -> Result<(), Failure> {
        let mut crawl = Crawl::new(Args { directory: "out".to_string() });
        let mut event = Event::Started;
        loop {
            let (next, step) = crawl.step(event);
            crawl = next;
            match step.notice {
                Some(Notice::SkippedExisting { game }) => {
                    self.skips.push(format!("exists: {}", crawl.game_at(game).unwrap().as_str()))
                }
                Some(Notice::SkippedNoWindowsBuild { game }) => {
                    self.skips.push(format!("no windows build: {}", crawl.game_at(game).unwrap().as_str()))
                }
                Some(Notice::ExtractionFailed { game, error }) => {
                    self.reports.push(format!("{}: {:?}", crawl.game_at(game).unwrap().as_str(), error))
                }
                _ => {}
            }
            event = match step.action {
                Action::CreateDirectory => Event::DirectoryReady(DirectoryOutcome::AlreadyExists),
                Action::ListJams(index) => Event::JamsListed(self.page(&index).and_then(|page| get_jams(&page))),
                Action::ListGames => {
                    let page = self.page(crawl.current_jam().unwrap());
                    Event::GamesListed(page.and_then(|page| get_games(&page)))
                }
                Action::CheckTarget => Event::TargetChecked { exists: self.files.contains_key(crawl.file_name()) },
                Action::ResolveDownload => {
                    let page = self.page(crawl.current_game().unwrap());
                    Event::DownloadResolved(page.and_then(|page| get_windows_download_url(&page)))
                }
                Action::Download => download_game(self.archive(crawl.download().unwrap())),
                Action::Save { content } => {
                    assert!(!self.files.contains_key(crawl.file_name()));
                    self.files.insert(crawl.file_name().to_string(), content);
                    Event::Saved(Ok(()))
                }
                Action::Finish => return Ok(()),
                Action::Abort(failure) => return Err(failure),
            };
        }
    }
}

fn archive_with(name: &str, content: &[u8]) -> Vec<u8> {
    let mut writer = ZipWriter::new(Cursor::new(Vec::new()));
    writer.add_directory("game/", SimpleFileOptions::default()).unwrap();
    writer.start_file(name, SimpleFileOptions::default()).unwrap();
    writer.write_all(content).unwrap();
    writer.finish().unwrap().into_inner()
}

fn world() -> World {
    let mut pages = BTreeMap::new();
    pages.insert(
        "https://gm48.net/game-jams/top-down/games".to_string(),
        r#"<div id="jamModal"><div class="modal-body"><div class="list-group">
            <a href="https://gm48.net/game-jams/small-world/games">Small World</a>
        </div></div></div>"#
            .to_string(),
    );
    pages.insert(
        "https://gm48.net/game-jams/small-world/games".to_string(),
        r#"<div id="games">
            <div class="single-game"><a href="https://gm48.net/game-jams/small-world/games/habitat">Habitat</a></div>
            <div class="single-game"><a href="https://gm48.net/game-jams/small-world/games/burrow">Burrow</a></div>
        </div>"#
            .to_string(),
    );
    pages.insert(
        "https://gm48.net/game-jams/small-world/games/habitat".to_string(),
        r#"<div id="download"><a class="dropdown-item" href="https://gm48.net/builds/habitat.zip"> Windows </a></div>"#
            .to_string(),
    );
    pages.insert(
        "https://gm48.net/game-jams/small-world/games/burrow".to_string(),
        r#"<div id="download"><a class="dropdown-item" href="https://gm48.net/builds/burrow.tar">Linux</a></div>"#
            .to_string(),
    );
    let mut archives = BTreeMap::new();
    archives.insert("https://gm48.net/builds/habitat.zip".to_string(), archive_with("game/data.win", b"0123456789abcdef"));
    World { pages, archives, files: BTreeMap::new(), fetched: Vec::new(), skips: Vec::new(), reports: Vec::new() }
}

#[test]
fn one_game_is_saved_and_one_is_skipped() {
    let mut world = world();
    world.run().unwrap();
    assert_eq!(world.files.len(), 1);
    let content = world.files.get("small-world_habitat.win").unwrap();
    assert_eq!(content.len(), 16);
    assert_eq!(content, b"0123456789abcdef");
    assert_eq!(
        world.skips,
        vec!["no windows build: https://gm48.net/game-jams/small-world/games/burrow".to_string()]
    );
    assert!(world.reports.is_empty());
}

#[test]
fn a_second_run_downloads_nothing() {
    let mut world = world();
    world.files.insert("small-world_burrow.win".to_string(), b"kept".to_vec());
    world.run().unwrap();
    assert_eq!(world.files.len(), 2);
    assert_eq!(world.files.get("small-world_burrow.win").unwrap(), b"kept");

    world.fetched.clear();
    world.skips.clear();
    world.run().unwrap();
    assert_eq!(
        world.fetched,
        vec![
            "https://gm48.net/game-jams/top-down/games".to_string(),
            "https://gm48.net/game-jams/small-world/games".to_string(),
        ]
    );
    assert_eq!(
        world.skips,
        vec![
            "exists: https://gm48.net/game-jams/small-world/games/habitat".to_string(),
            "exists: https://gm48.net/game-jams/small-world/games/burrow".to_string(),
        ]
    );
    assert_eq!(world.files.get("small-world_habitat.win").unwrap(), b"0123456789abcdef");
}

#[test]
fn an_archive_without_data_file_is_reported_and_passed_over() {
    let mut world = world();
    world.archives.insert("https://gm48.net/builds/habitat.zip".to_string(), archive_with("game/game.exe", b"MZ"));
    world.run().unwrap();
    assert!(world.files.is_empty());
    assert_eq!(world.reports.len(), 1);
    assert!(world.reports[0].starts_with("https://gm48.net/game-jams/small-world/games/habitat: DataFileNotFound"));
    assert_eq!(world.skips.len(), 1);
}

#[test]
fn a_missing_game_page_ends_the_run() {
    let mut world = world();
    world.pages.remove("https://gm48.net/game-jams/small-world/games/habitat");
    let failure = world.run().unwrap_err();
    assert!(matches!(failure.context, Some(gm48_scraper::crawl::Context::DownloadLink)));
    assert!(matches!(failure.error, Error::FetchFailed(FetchCause::HttpStatus { code: 404 })));
    assert!(world.files.is_empty());
}

#[test]
fn a_missing_archive_ends_the_run() {
    let mut world = world();
    world.archives.clear();
    let failure = world.run().unwrap_err();
    assert!(failure.context.is_none());
    assert!(matches!(failure.error, Error::FetchFailed(FetchCause::HttpStatus { code: 404 })));
}

#[test]
fn an_empty_jam_index_ends_the_run() {
    let mut world = world();
    world.pages.insert("https://gm48.net/game-jams/top-down/games".to_string(), "<html></html>".to_string());
    let failure = world.run().unwrap_err();
    assert!(matches!(failure.context, Some(gm48_scraper::crawl::Context::JamList)));
    assert!(matches!(failure.error, Error::NoJamsFound));
}
