//! Validated network addresses, link targets resolved against the site, and the slugs that a
//! game address carries.

use crate::error::Error;
use crate::text::{basename, game_slugs, last_slash, lemma_last_slash, parent, scan_slashes};
use vstd::prelude::*;
use vstd::string::{StrSliceExecFns, StringExecFns};

verus! {

/// An absolute, well-formed network address: its full text and its path.
#[derive(Debug, Clone)]
pub struct Locator {
    text: String,
    path: String,
}

/// A `Locator` in specifications.
pub struct LocatorView {
    pub text: Seq<char>,
    pub path: Seq<char>,
}

impl View for Locator {
    type V = LocatorView;

    closed spec fn view(&self) -> LocatorView {
        LocatorView { text: self.text@, path: self.path@ }
    }
}

/// What the URL parser makes of `input`: `None` where it refuses it, else the serialization
/// and the path of the address that it read.
pub uninterp spec fn parsed_url(input: Seq<char>) -> Option<LocatorView>;

/// `url::Url::parse`, with the accepted address taken apart by `Url::as_str` and `Url::path`.
/// The contract only names the outcome: it is `parsed_url` of the input, and an error
/// exactly where that is `None`.
#[verifier::external_body]
fn parse_url(input: &str) -> (parsed: Result<Locator, url::ParseError>)
    ensures
        match parsed {
            Ok(locator) => parsed_url(input@) == Some(locator@),
            Err(_) => parsed_url(input@) is None,
        },
{
    match url::Url::parse(input) {
        Ok(url) => Ok(Locator { text: url.as_str().to_owned(), path: url.path().to_owned() }),
        Err(cause) => Err(cause),
    }
}

/// What the URL parser makes of `reference` read against the address `base`: `None` where
/// `base` is no absolute address or the parser refuses `reference` against it, else the
/// serialization and the path of the address that it read.
pub uninterp spec fn joined_url(base: Seq<char>, reference: Seq<char>) -> Option<LocatorView>;

/// `url::Url::join` on the address that `url::Url::parse` reads from `base`, with the
/// result taken apart by `Url::as_str` and `Url::path`. The contract only names the
/// outcome: it is `joined_url` of the two texts, and an error exactly where that is `None`.
#[verifier::external_body]
fn join_url(base: &str, reference: &str) -> (joined: Result<Locator, url::ParseError>)
    ensures
        match joined {
            Ok(locator) => joined_url(base@, reference@) == Some(locator@),
            Err(_) => joined_url(base@, reference@) is None,
        },
{
    match url::Url::parse(base) {
        Ok(base) => match base.join(reference) {
            Ok(url) => Ok(Locator { text: url.as_str().to_owned(), path: url.path().to_owned() }),
            Err(cause) => Err(cause),
        },
        Err(cause) => Err(cause),
    }
}

/// The jam and the game that a game's detail page belongs to, each by its slug.
#[derive(Debug, Clone)]
pub struct GameIdentity {
    pub jam: String,
    pub game: String,
}

/// The address under which the site is reached.
pub open spec fn base_url() -> Seq<char> {
    "https://gm48.net"@
}

/// The address text that `get_url` validates for `relative_url`.
pub open spec fn absolute_text(relative_url: Seq<char>) -> Seq<char> {
    base_url() + "/"@ + relative_url
}

/// What a parse outcome is as a result of this library.
pub open spec fn locator_outcome(
    outcome: Option<LocatorView>,
    result: Result<Locator, Error>,
) -> bool {
    match result {
        Ok(locator) => outcome == Some(locator@),
        Err(Error::InvalidLocator(_)) => outcome is None,
        Err(_) => false,
    }
}

/// The address that a link target stands for: the target itself where it is an absolute
/// address, else the target read against the site's base address. `None` where it is
/// neither.
pub open spec fn resolved_url(reference: Seq<char>) -> Option<LocatorView> {
    match parsed_url(reference) {
        Some(locator) => Some(locator),
        None => joined_url(base_url(), reference),
    }
}

impl Locator {
    /// Validates `input` as an absolute address. It is `Ok` exactly where the URL parser
    /// accepts `input`, and `InvalidLocator` otherwise.
    pub fn parse(input: &str) -> (result: Result<Locator, Error>)
        ensures
            locator_outcome(parsed_url(input@), result),
    {
        match parse_url(input) {
            Ok(locator) => Ok(locator),
            Err(cause) => Err(Error::InvalidLocator(cause)),
        }
    }

    /// The address that a link target stands for: the target itself where it is an
    /// absolute address, else the target resolved against the site's base address. It fails
    /// with `InvalidLocator` exactly where the target is neither.
    pub fn resolve(reference: &str) -> (result: Result<Locator, Error>)
        ensures
            locator_outcome(resolved_url(reference@), result),
    {
        match parse_url(reference) {
            Ok(locator) => Ok(locator),
            Err(_) => match join_url("https://gm48.net", reference) {
                Ok(locator) => Ok(locator),
                Err(cause) => Err(Error::InvalidLocator(cause)),
            },
        }
    }

    /// The full text of the address.
    pub fn as_str(&self) -> (text: &str)
        ensures
            text@ == self@.text,
    {
        self.text.as_str()
    }

    /// The path of the address.
    pub fn path(&self) -> (path: &str)
        ensures
            path@ == self@.path,
    {
        self.path.as_str()
    }
}

/// The address of `relative_url` on the site: the base address, a `/` and `relative_url`,
/// validated. It fails with `InvalidLocator` exactly where the URL parser refuses that text.
pub fn get_url(relative_url: &str) -> (result: Result<Locator, Error>)
    ensures
        locator_outcome(parsed_url(absolute_text(relative_url@)), result),
{
    let mut text = String::from_str("https://gm48.net");
    text.append("/");
    text.append(relative_url);
    Locator::parse(text.as_str())
}

/// What `extract_meta_from_game_url` returns for a path.
pub open spec fn identity_outcome(path: Seq<char>, result: Result<GameIdentity, Error>) -> bool {
    match result {
        Ok(identity) => {
            &&& game_slugs(path) == Some((identity.jam@, identity.game@))
            &&& identity.jam@.len() > 0
            &&& identity.game@.len() > 0
        },
        Err(Error::GameIdentityMalformed) => game_slugs(path) is None,
        Err(_) => false,
    }
}

/// The jam and game slugs of a game's detail page: the last piece of the address path is
/// the game, the piece two before it the jam (`/game-jams/{jam}/games/{game}`). Both are
/// non-empty. It fails with `GameIdentityMalformed` exactly where the path has fewer than two
/// `/`, or one of the two pieces is empty.
pub fn extract_meta_from_game_url(url: &Locator) -> (result: Result<GameIdentity, Error>)
    ensures
        identity_outcome(url@.path, result),
{
    let path = url.path();
    let (total, marks) = scan_slashes(path);
    proof {
        lemma_last_slash(path@);
        if last_slash(path@) >= 0 {
            lemma_last_slash(parent(path@));
            if last_slash(parent(path@)) >= 0 {
                lemma_last_slash(parent(parent(path@)));
            }
        }
    }
    match (marks.last, marks.middle) {
        (Some(last), Some(middle)) => {
            let game = path.substring_char(last + 1, total);
            let start = match marks.first {
                Some(first) => first + 1,
                None => 0,
            };
            let jam = path.substring_char(start, middle);
            proof {
                let head = parent(parent(path@));
                assert(head =~= path@.subrange(0, middle as int));
                assert(basename(head) =~= path@.subrange(start as int, middle as int));
            }
            if start == middle || last + 1 == total {
                Err(Error::GameIdentityMalformed)
            } else {
                Ok(GameIdentity { jam: jam.to_owned(), game: game.to_owned() })
            }
        },
        _ => Err(Error::GameIdentityMalformed),
    }
}

} // verus!
