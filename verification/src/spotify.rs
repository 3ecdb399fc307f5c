//! The few pure functions of the `rspotify` model that the handlers rely on:
//! validation of identifiers, parsing of URIs and the words for categories
//! and kinds. Each stands behind a small function whose contract is taken on
//! trust from that crate's source.

use crate::error::{CommandError, ErrorView};
use crate::service::{ContextKind, SearchType};
use rspotify::model::{AlbumId, ArtistId, Id, IdError, PlaylistId, TrackId, Type};
use vstd::prelude::*;

verus! {

/// Why an identifier or a URI was refused.
#[derive(Debug, Clone, Copy, PartialEq, Eq, Structural)]
pub enum IdFault {
    /// The URI does not start with `spotify:` or `spotify/`.
    Prefix,
    /// The URI cannot be split into a type and an identifier.
    Format,
    /// The URI names no type, or another one than was asked for.
    Type,
    /// The identifier holds a character that no identifier may hold.
    Id,
}

impl IdFault {
    /// The wording of a fault.
    pub open spec fn reason(self) -> Seq<char> {
        match self {
            IdFault::Prefix => "URI does not start with spotify"@,
            IdFault::Format => "URI has no type and identifier"@,
            IdFault::Type => "URI is of another type"@,
            IdFault::Id => "identifier holds a character that is no letter or digit"@,
        }
    }

    /// The error a fault surfaces as: an `InvalidArgument` with the fault's
    /// wording as its reason.
    pub fn into_error(self) -> (e: CommandError)
        ensures
            e@ == ErrorView::InvalidArgument(self.reason()),
    {
        match self {
            IdFault::Prefix => CommandError::invalid("URI does not start with spotify"),
            IdFault::Format => CommandError::invalid("URI has no type and identifier"),
            IdFault::Type => CommandError::invalid("URI is of another type"),
            IdFault::Id => CommandError::invalid(
                "identifier holds a character that is no letter or digit",
            ),
        }
    }
}

/// Whether `c` is an ASCII letter or digit.
pub open spec fn is_id_char(c: char) -> bool {
    ||| '0' <= c <= '9'
    ||| 'a' <= c <= 'z'
    ||| 'A' <= c <= 'Z'
}

/// Whether `id` is made of ASCII letters and digits only.
pub open spec fn is_valid_id(id: Seq<char>) -> bool {
    forall|i: int| 0 <= i < id.len() ==> is_id_char(#[trigger] id[i])
}

/// What checking an identifier yields: the identifier itself where it is
/// valid, the fault `Id` where it is not.
pub open spec fn checked_id(id: Seq<char>) -> Result<Seq<char>, IdFault> {
    if is_valid_id(id) {
        Ok(id)
    } else {
        Err(IdFault::Id)
    }
}

/// The content of what a check of an identifier returned.
pub open spec fn id_outcome(r: Result<String, IdFault>) -> Result<Seq<char>, IdFault> {
    match r {
        Ok(id) => Ok(id@),
        Err(fault) => Err(fault),
    }
}

/// Calls `TrackId::from_id`, which accepts exactly the texts made of ASCII
/// letters and digits, keeps an accepted text as it is and refuses any other
/// with `IdError::InvalidId`.
#[verifier::external_body]
pub(crate) fn track_id(id: &str) -> (r: Result<String, IdFault>)
    ensures
        id_outcome(r) == checked_id(id@),
{
    match TrackId::from_id(id) {
        Ok(v) => Ok(v.id().to_string()),
        Err(IdError::InvalidPrefix) => Err(IdFault::Prefix),
        Err(IdError::InvalidFormat) => Err(IdFault::Format),
        Err(IdError::InvalidType) => Err(IdFault::Type),
        Err(IdError::InvalidId) => Err(IdFault::Id),
    }
}

/// Calls `AlbumId::from_id`, which accepts exactly the texts made of ASCII
/// letters and digits, keeps an accepted text as it is and refuses any other
/// with `IdError::InvalidId`.
#[verifier::external_body]
pub(crate) fn album_id(id: &str) -> (r: Result<String, IdFault>)
    ensures
        id_outcome(r) == checked_id(id@),
{
    match AlbumId::from_id(id) {
        Ok(v) => Ok(v.id().to_string()),
        Err(IdError::InvalidPrefix) => Err(IdFault::Prefix),
        Err(IdError::InvalidFormat) => Err(IdFault::Format),
        Err(IdError::InvalidType) => Err(IdFault::Type),
        Err(IdError::InvalidId) => Err(IdFault::Id),
    }
}

/// Calls `PlaylistId::from_id`, which accepts exactly the texts made of ASCII
/// letters and digits, keeps an accepted text as it is and refuses any other
/// with `IdError::InvalidId`.
#[verifier::external_body]
pub(crate) fn playlist_id(id: &str) -> (r: Result<String, IdFault>)
    ensures
        id_outcome(r) == checked_id(id@),
{
    match PlaylistId::from_id(id) {
        Ok(v) => Ok(v.id().to_string()),
        Err(IdError::InvalidPrefix) => Err(IdFault::Prefix),
        Err(IdError::InvalidFormat) => Err(IdFault::Format),
        Err(IdError::InvalidType) => Err(IdFault::Type),
        Err(IdError::InvalidId) => Err(IdFault::Id),
    }
}

/// Calls `ArtistId::from_id`, which accepts exactly the texts made of ASCII
/// letters and digits, keeps an accepted text as it is and refuses any other
/// with `IdError::InvalidId`.
#[verifier::external_body]
pub(crate) fn artist_id(id: &str) -> (r: Result<String, IdFault>)
    ensures
        id_outcome(r) == checked_id(id@),
{
    match ArtistId::from_id(id) {
        Ok(v) => Ok(v.id().to_string()),
        Err(IdError::InvalidPrefix) => Err(IdFault::Prefix),
        Err(IdError::InvalidFormat) => Err(IdFault::Format),
        Err(IdError::InvalidType) => Err(IdFault::Type),
        Err(IdError::InvalidId) => Err(IdFault::Id),
    }
}

/// Checks the identifier of a thing of the given category.
pub fn check_id(category: SearchType, id: &str) -> (r: Result<String, IdFault>)
    ensures
        id_outcome(r) == checked_id(id@),
{
    match category {
        SearchType::Track => track_id(id),
        SearchType::Album => album_id(id),
        SearchType::Playlist => playlist_id(id),
        SearchType::Artist => artist_id(id),
    }
}

/// What `ArtistId::from_uri` makes of a URI: the identifier it holds, or why
/// the URI was refused.
pub uninterp spec fn artist_uri_id(uri: Seq<char>) -> Result<Seq<char>, IdFault>;

/// What `AlbumId::from_uri` makes of a URI: the identifier it holds, or why
/// the URI was refused.
pub uninterp spec fn album_uri_id(uri: Seq<char>) -> Result<Seq<char>, IdFault>;

/// What `PlaylistId::from_uri` makes of a URI: the identifier it holds, or
/// why the URI was refused.
pub uninterp spec fn playlist_uri_id(uri: Seq<char>) -> Result<Seq<char>, IdFault>;

/// Calls `ArtistId::from_uri`. Its outcome depends on the URI alone and goes
/// by the name `artist_uri_id`; nothing more is claimed of it.
#[verifier::external_body]
pub(crate) fn artist_id_of_uri(uri: &str) -> (r: Result<String, IdFault>)
    ensures
        id_outcome(r) == artist_uri_id(uri@),
{
    match ArtistId::from_uri(uri) {
        Ok(v) => Ok(v.id().to_string()),
        Err(IdError::InvalidPrefix) => Err(IdFault::Prefix),
        Err(IdError::InvalidFormat) => Err(IdFault::Format),
        Err(IdError::InvalidType) => Err(IdFault::Type),
        Err(IdError::InvalidId) => Err(IdFault::Id),
    }
}

/// Calls `AlbumId::from_uri`. Its outcome depends on the URI alone and goes
/// by the name `album_uri_id`; nothing more is claimed of it.
#[verifier::external_body]
pub(crate) fn album_id_of_uri(uri: &str) -> (r: Result<String, IdFault>)
    ensures
        id_outcome(r) == album_uri_id(uri@),
{
    match AlbumId::from_uri(uri) {
        Ok(v) => Ok(v.id().to_string()),
        Err(IdError::InvalidPrefix) => Err(IdFault::Prefix),
        Err(IdError::InvalidFormat) => Err(IdFault::Format),
        Err(IdError::InvalidType) => Err(IdFault::Type),
        Err(IdError::InvalidId) => Err(IdFault::Id),
    }
}

/// Calls `PlaylistId::from_uri`. Its outcome depends on the URI alone and
/// goes by the name `playlist_uri_id`; nothing more is claimed of it.
#[verifier::external_body]
pub(crate) fn playlist_id_of_uri(uri: &str) -> (r: Result<String, IdFault>)
    ensures
        id_outcome(r) == playlist_uri_id(uri@),
{
    match PlaylistId::from_uri(uri) {
        Ok(v) => Ok(v.id().to_string()),
        Err(IdError::InvalidPrefix) => Err(IdFault::Prefix),
        Err(IdError::InvalidFormat) => Err(IdFault::Format),
        Err(IdError::InvalidType) => Err(IdFault::Type),
        Err(IdError::InvalidId) => Err(IdFault::Id),
    }
}

/// What parsing the URI of a context of the given kind yields.
pub open spec fn context_uri_id(kind: ContextKind, uri: Seq<char>) -> Result<Seq<char>, IdFault> {
    match kind {
        ContextKind::Artist => artist_uri_id(uri),
        ContextKind::Album => album_uri_id(uri),
        ContextKind::Playlist => playlist_uri_id(uri),
    }
}

/// Parses the URI of a context of the given kind into its identifier.
pub fn id_of_context_uri(kind: ContextKind, uri: &str) -> (r: Result<String, IdFault>)
    ensures
        id_outcome(r) == context_uri_id(kind, uri@),
{
    match kind {
        ContextKind::Artist => artist_id_of_uri(uri),
        ContextKind::Album => album_id_of_uri(uri),
        ContextKind::Playlist => playlist_id_of_uri(uri),
    }
}

/// Converts a category into `rspotify`'s `SearchType` and asks that type for
/// its word, which is the variant's name in lower case.
#[verifier::external_body]
pub(crate) fn search_type_word(category: SearchType) -> (word: &'static str)
    ensures
        word@ == category.label(),
{
    let outside = match category {
        SearchType::Track => rspotify::model::SearchType::Track,
        SearchType::Album => rspotify::model::SearchType::Album,
        SearchType::Playlist => rspotify::model::SearchType::Playlist,
        SearchType::Artist => rspotify::model::SearchType::Artist,
    };
    outside.into()
}

/// Converts a kind into `rspotify`'s `Type` and formats it for debugging,
/// which gives the variant's name.
#[verifier::external_body]
pub(crate) fn context_kind_word(kind: ContextKind) -> (word: String)
    ensures
        word@ == kind.label(),
{
    let outside = match kind {
        ContextKind::Artist => Type::Artist,
        ContextKind::Album => Type::Album,
        ContextKind::Playlist => Type::Playlist,
    };
    format!("{:?}", outside)
}

} // verus!
