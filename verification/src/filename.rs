//! The name of the file under which a game's data file is stored.

use crate::error::Error;
use crate::locator::{extract_meta_from_game_url, GameIdentity, Locator};
use crate::text::game_slugs;
use vstd::prelude::*;
use vstd::string::StringExecFns;

verus! {

/// What percent-decoding makes of `text`: `None` where the decoded bytes are not UTF-8.
pub uninterp spec fn percent_decoded(text: Seq<char>) -> Option<Seq<char>>;

/// `urlencoding::decode`, with the decoded text made an owned string. The contract only
/// names the outcome: an error exactly where `percent_decoded` is `None`.
#[verifier::external_body]
fn percent_decode(text: &str) -> (decoded: Result<String, std::string::FromUtf8Error>)
    ensures
        match decoded {
            Ok(plain) => percent_decoded(text@) == Some(plain@),
            Err(_) => percent_decoded(text@) is None,
        },
{
    match urlencoding::decode(text) {
        Ok(plain) => Ok(plain.into_owned()),
        Err(cause) => Err(cause),
    }
}

/// Whether a character cannot stand in a file name: a path or wildcard character of a
/// common file system, or a control character.
pub open spec fn is_reserved_char(c: char) -> bool {
    ||| c == '/'
    ||| c == '?'
    ||| c == '<'
    ||| c == '>'
    ||| c == '\\'
    ||| c == ':'
    ||| c == '*'
    ||| c == '|'
    ||| c == '"'
    ||| (c as u32) <= 0x1f
    ||| 0x80 <= (c as u32) <= 0x9f
}

/// Whether a replacement text is taken literally and brings in no reserved character.
pub open spec fn is_plain_replacement(replacement: Seq<char>) -> bool {
    forall|i: int|
        0 <= i < replacement.len() ==> !is_reserved_char(#[trigger] replacement[i])
            && replacement[i] != '$'
}

/// Whether a text holds no reserved character.
pub open spec fn is_clean(name: Seq<char>) -> bool {
    forall|i: int| 0 <= i < name.len() ==> !is_reserved_char(#[trigger] name[i])
}

/// The longest file name, in bytes, that sanitizing with truncation gives.
pub const MAX_FILE_NAME_BYTES: usize = 255;

/// The length of a text in bytes, as UTF-8.
pub open spec fn byte_length(name: Seq<char>) -> nat {
    vstd::utf8::encode_utf8(name).len()
}

/// `name` with each reserved character replaced by `with`, one for one.
pub open spec fn replace_reserved(name: Seq<char>, with: char) -> Seq<char> {
    name.map_values(|c: char| if is_reserved_char(c) { with } else { c })
}

/// Whether no rule on whole names applies to `name`: it does not end in `.` or a space, so
/// it is not made of dots, and it is too short for the name of a device (`con`, `lpt1`) or
/// goes on after one with something else than a `.`.
pub open spec fn is_ordinary_name(name: Seq<char>) -> bool {
    name.len() == 0 || {
        &&& name.last() != '.'
        &&& name.last() != ' '
        &&& name.len() < 3 || (name.len() >= 5 && name[3] != '.' && name[4] != '.')
    }
}

/// Whether a name is fit for the file system: it holds no reserved character and is at most
/// `MAX_FILE_NAME_BYTES` bytes long.
pub open spec fn is_fit(name: Seq<char>) -> bool {
    is_clean(name) && byte_length(name) <= MAX_FILE_NAME_BYTES
}

/// What the file name sanitizer makes of `name` under the given options.
pub uninterp spec fn sanitized(
    name: Seq<char>,
    windows: bool,
    truncate: bool,
    replacement: Seq<char>,
) -> Seq<char>;

/// `sanitize_filename::sanitize_with_options`. Besides naming the result, the contract
/// claims three things of it. With a plain replacement no reserved character is left. With
/// truncation the result is at most 255 bytes long. And with a plain replacement of one
/// character, a name to which no rule on whole names applies once its reserved characters
/// are replaced, and which is then short enough, comes back as just that: each reserved
/// character replaced, none dropped, nothing else changed.
#[verifier::external_body]
fn sanitize_with_options(name: &str, windows: bool, truncate: bool, replacement: &str) -> (clean:
    String)
    ensures
        clean@ == sanitized(name@, windows, truncate, replacement@),
        is_plain_replacement(replacement@) ==> is_clean(clean@),
        truncate ==> byte_length(clean@) <= MAX_FILE_NAME_BYTES,
        ({
            &&& replacement@.len() == 1
            &&& is_plain_replacement(replacement@)
            &&& is_ordinary_name(replace_reserved(name@, replacement@[0]))
            &&& byte_length(replace_reserved(name@, replacement@[0])) <= MAX_FILE_NAME_BYTES
        }) ==> clean@ == replace_reserved(name@, replacement@[0]),
{
    sanitize_filename::sanitize_with_options(
        name,
        sanitize_filename::Options { windows, truncate, replacement },
    )
}

/// The character that replaces what cannot stand in a file name.
pub open spec fn replacement() -> char {
    '_'
}

/// `filename` as `sanitize_filename` returns it.
pub open spec fn sanitized_name(filename: Seq<char>) -> Seq<char> {
    sanitized(filename, true, true, seq![replacement()])
}

/// A text has at least as many bytes as characters.
pub proof fn lemma_byte_length_bounds_length(name: Seq<char>)
    ensures
        name.len() <= byte_length(name),
    decreases name.len(),
{
    reveal_with_fuel(vstd::utf8::encode_utf8, 2);
    if name.len() > 0 {
        lemma_byte_length_bounds_length(name.drop_first());
    }
}

/// `filename` made fit for the local file system: reserved characters and reserved names
/// are replaced by `_`, also those that only Windows reserves, and the name is cut to the
/// length that file systems take.
///
/// The result depends on `filename` alone. It holds no reserved character and is at most
/// `MAX_FILE_NAME_BYTES` bytes long. Where no rule on whole names applies to `filename` with
/// its reserved characters replaced, and that is short enough, it is the result: characters
/// are replaced, not dropped.
pub fn sanitize_filename(filename: &str) -> (clean: String)
    ensures
        clean@ == sanitized_name(filename@),
        is_fit(clean@),
        clean@.len() <= MAX_FILE_NAME_BYTES,
        ({
            &&& is_ordinary_name(replace_reserved(filename@, replacement()))
            &&& byte_length(replace_reserved(filename@, replacement())) <= MAX_FILE_NAME_BYTES
        }) ==> clean@ == replace_reserved(filename@, replacement()),
{
    proof {
        reveal_strlit("_");
        assert("_"@ =~= seq![replacement()]);
    }
    let clean = sanitize_with_options(filename, true, true, "_");
    proof {
        lemma_byte_length_bounds_length(clean@);
    }
    clean
}

/// Sanitizing is a function of the name: two results for the same name are the same.
pub proof fn lemma_sanitized_name_is_determined(filename: Seq<char>, first: String, second: String)
    requires
        first@ == sanitized_name(filename),
        second@ == sanitized_name(filename),
    ensures
        first@ == second@,
{
}

/// Where the sanitizer keeps the shape of a name, the result is as long as the name, and
/// holds `_` exactly where the name holds a reserved character.
pub proof fn lemma_reserved_characters_are_replaced(filename: Seq<char>, clean: Seq<char>)
    requires
        clean == replace_reserved(filename, replacement()),
    ensures
        clean.len() == filename.len(),
        forall|i: int|
            0 <= i < filename.len() ==> #[trigger] clean[i] == if is_reserved_char(filename[i]) {
                '_'
            } else {
                filename[i]
            },
{
}

/// The file name of a game before it is sanitized: `{jam}_{game}.win`.
pub open spec fn raw_file_name(jam: Seq<char>, game: Seq<char>) -> Seq<char> {
    jam + "_"@ + game + ".win"@
}

/// The file name for the given slugs, the game's slug still percent-encoded: `None` where
/// that slug does not decode.
pub open spec fn file_name_of(jam: Seq<char>, game: Seq<char>) -> Option<Seq<char>> {
    match percent_decoded(game) {
        Some(plain) => Some(sanitized_name(raw_file_name(jam, plain))),
        None => None,
    }
}

/// What `file_name` returns for the given slugs.
pub open spec fn file_name_outcome(
    jam: Seq<char>,
    game: Seq<char>,
    result: Result<String, Error>,
) -> bool {
    match result {
        Ok(name) => file_name_of(jam, game) == Some(name@) && is_fit(name@),
        Err(Error::UndecodableSlug(_)) => file_name_of(jam, game) is None,
        Err(_) => false,
    }
}

/// The file name depends on the slugs alone: two results for the same jam and game are both
/// failures, or hold the same name.
pub proof fn lemma_file_name_is_determined(
    jam: Seq<char>,
    game: Seq<char>,
    first: Result<String, Error>,
    second: Result<String, Error>,
)
    requires
        file_name_outcome(jam, game, first),
        file_name_outcome(jam, game, second),
    ensures
        first is Ok <==> second is Ok,
        first is Ok ==> first->Ok_0@ == second->Ok_0@,
{
}

/// The name of the file that holds the data file of a game: `{jam}_{game}.win`, with the
/// game's slug percent-decoded, sanitized. It fails with `UndecodableSlug` exactly where
/// the game's slug does not decode to UTF-8.
pub fn file_name(identity: &GameIdentity) -> (result: Result<String, Error>)
    ensures
        file_name_outcome(identity.jam@, identity.game@, result),
{
    let game = match percent_decode(identity.game.as_str()) {
        Ok(game) => game,
        Err(cause) => {
            return Err(Error::UndecodableSlug(cause));
        },
    };
    let mut name = String::from_str(identity.jam.as_str());
    name.append("_");
    name.append(game.as_str());
    name.append(".win");
    Ok(sanitize_filename(name.as_str()))
}

/// The file name for a game address with the given path: `None` where the path names no
/// jam and game, or the game's slug does not decode.
pub open spec fn target_name(path: Seq<char>) -> Option<Seq<char>> {
    match game_slugs(path) {
        None => None,
        Some((jam, game)) => file_name_of(jam, game),
    }
}

/// Whether `error` is the failure of naming the file for a game address with the given
/// path.
pub open spec fn target_failure(path: Seq<char>, error: Error) -> bool {
    match game_slugs(path) {
        None => error is GameIdentityMalformed,
        Some((jam, game)) => file_name_of(jam, game) is None && error is UndecodableSlug,
    }
}

/// What `target_file_name` returns for a game address with the given path.
pub open spec fn target_outcome(path: Seq<char>, result: Result<String, Error>) -> bool {
    match result {
        Ok(name) => target_name(path) == Some(name@) && is_fit(name@),
        Err(error) => target_failure(path, error),
    }
}

/// The name of the file that holds the data file of the game at `game_url`. It fails as
/// `extract_meta_from_game_url` and `file_name` do.
pub fn target_file_name(game_url: &Locator) -> (result: Result<String, Error>)
    ensures
        target_outcome(game_url@.path, result),
{
    match extract_meta_from_game_url(game_url) {
        Ok(identity) => file_name(&identity),
        Err(error) => Err(error),
    }
}

} // verus!
