//! Scraping GameMaker data files from the GM48 game jam site.
//!
//! The site lists jams, each jam lists games, and a game may offer a Windows build: a ZIP
//! archive that holds the game's data file, `data.win`. This library holds the logic of a
//! crawl over the site, with contracts that Verus proves:
//!
//! - `locator`: validated addresses, and the jam and game that a game's address names;
//! - `scrape`: the links of the site's pages, and the Windows download link of a game;
//! - `archive`: the search for the data file in an archive, and its extraction;
//! - `filename`: the name of the file that a game's data file is stored under;
//! - `crawl`: the run as a state machine, which says after each outcome what to do next;
//! - `cli`, `error`, `text`: the arguments of a run, its failures, and text helpers.
//!
//! Network and file system stay with the caller. URL parsing, HTML selection, ZIP reading,
//! percent-decoding and file name sanitizing are done by the crates `url`, `scraper`, `zip`,
//! `urlencoding` and `sanitize-filename`; each call stands in a small private function
//! whose contract is assumed, not proved, and whose documentation says what it assumes.

pub mod archive;
pub mod cli;
pub mod crawl;
pub mod error;
pub mod filename;
pub mod locator;
pub mod scrape;
pub mod text;
