//! The failures that scraping, extraction and the crawl can report.

use crate::archive::ArchiveEntry;
use vstd::prelude::*;

verus! {

/// Why a page or an archive could not be fetched.
#[derive(Debug)]
pub enum FetchCause {
    /// The request never produced a response: connection failure, timeout, unreadable body.
    Transport { reason: String },
    /// The server answered with a status outside the success range.
    HttpStatus { code: u16 },
}

/// A failure of one unit of work.
#[derive(Debug)]
pub enum Error {
    /// A resource could not be fetched.
    FetchFailed(FetchCause),
    /// The jam index page lists no jam.
    NoJamsFound,
    /// A selected link element carries no `href` attribute.
    MissingLinkAttribute,
    /// A link target is not an absolute, well-formed address.
    InvalidLocator(url::ParseError),
    /// A selector was refused by the selector parser.
    InvalidSelector,
    /// A game address has too short a path to name a jam and a game.
    GameIdentityMalformed,
    /// A percent-encoded slug does not decode to UTF-8 text.
    UndecodableSlug(std::string::FromUtf8Error),
    /// The archive, or one of its entries, could not be read.
    InvalidArchive(zip::result::ZipError),
    /// The data file declares a size that no buffer in memory can have.
    ArchiveEntryTooLarge { size: u64 },
    /// The archive holds no data file; `listing` is every entry that it does hold.
    DataFileNotFound { listing: Vec<ArchiveEntry> },
    /// The destination directory could not be created.
    DirectoryCreation { reason: String },
    /// An extracted data file could not be written.
    WriteFailed { reason: String },
    /// The crawl was handed an event that does not answer its last action.
    UnexpectedEvent,
}

impl Error {
    /// What the failure is, in words, without its cause.
    pub open spec fn message_text(self) -> Seq<char> {
        match self {
            Error::FetchFailed(_) => "Could not fetch resource"@,
            Error::NoJamsFound => "Could not find any Game Jams in HTML"@,
            Error::MissingLinkAttribute => "Link node <a> does not contain href"@,
            Error::InvalidLocator(_) => "Link target is not an absolute URL"@,
            Error::InvalidSelector => "Could not parse selector"@,
            Error::GameIdentityMalformed => "Could not extract game jam name"@,
            Error::UndecodableSlug(_) => "Game name is not valid UTF-8"@,
            Error::InvalidArchive(_) => "Could not read ZIP archive"@,
            Error::ArchiveEntryTooLarge { .. } => "File is too massive for this poor architecture"@,
            Error::DataFileNotFound { .. } => "Could not find a data file in ZIP archive"@,
            Error::DirectoryCreation { .. } => "Could not create directory"@,
            Error::WriteFailed { .. } => "Could not write data file"@,
            Error::UnexpectedEvent => "Crawl was handed an event out of turn"@,
        }
    }

    /// What the failure is, in words, without its cause.
    pub fn message(&self) -> (text: &'static str)
        ensures
            text@ == self.message_text(),
    {
        match self {
            Error::FetchFailed(_) => "Could not fetch resource",
            Error::NoJamsFound => "Could not find any Game Jams in HTML",
            Error::MissingLinkAttribute => "Link node <a> does not contain href",
            Error::InvalidLocator(_) => "Link target is not an absolute URL",
            Error::InvalidSelector => "Could not parse selector",
            Error::GameIdentityMalformed => "Could not extract game jam name",
            Error::UndecodableSlug(_) => "Game name is not valid UTF-8",
            Error::InvalidArchive(_) => "Could not read ZIP archive",
            Error::ArchiveEntryTooLarge { .. } => "File is too massive for this poor architecture",
            Error::DataFileNotFound { .. } => "Could not find a data file in ZIP archive",
            Error::DirectoryCreation { .. } => "Could not create directory",
            Error::WriteFailed { .. } => "Could not write data file",
            Error::UnexpectedEvent => "Crawl was handed an event out of turn",
        }
    }
}

#[verifier::external_type_specification]
#[verifier::external_body]
pub struct ExParseError(url::ParseError);

#[verifier::external_type_specification]
#[verifier::external_body]
pub struct ExFromUtf8Error(std::string::FromUtf8Error);

#[verifier::external_type_specification]
#[verifier::external_body]
pub struct ExZipError(zip::result::ZipError);

} // verus!
