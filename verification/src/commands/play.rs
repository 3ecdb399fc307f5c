//! `play`: starts playback of the first hit of a search, or of the thing a
//! link points to.

use crate::error::{fails_with, yields, CommandError, ErrorView};
use crate::link::{id_from_url, link_id};
use crate::options::{
    bool_at, bool_from_value, search_type_at, search_type_from_value, str_from_value, text_at,
    DecodedOptions,
};
use crate::schema::{
    CommandSchema, CommandSchemaView, OptionSchema, OptionSchemaView, OptionType, ValueView,
};
use crate::service::{
    acknowledge, acknowledged, first_artist, lead_artist, setback, setback_of, ContextKind,
    Request, RequestView, Response, ResponseView, SearchResult, SearchResultView, SearchType,
    Step, StepView,
};
use crate::spotify::{check_id, checked_id};
use vstd::prelude::*;

verus! {

/// The call that starts playback of the thing of category `category` with
/// identifier `id`: a track is played by itself, anything else as a context.
pub open spec fn start(category: SearchType, id: Seq<char>) -> RequestView {
    match category {
        SearchType::Track => RequestView::StartTrack { id },
        SearchType::Album => RequestView::StartContext { kind: ContextKind::Album, id },
        SearchType::Playlist => RequestView::StartContext { kind: ContextKind::Playlist, id },
        SearchType::Artist => RequestView::StartContext { kind: ContextKind::Artist, id },
    }
}

/// The error for a search that came back with a category no handler deals
/// with.
pub open spec fn unexpected_result() -> ErrorView {
    ErrorView::RemoteFailure("Unexpected search result type"@)
}

/// What a search result is played as: the call that starts its first hit and
/// the reply that follows, or the error where there is no hit or the hit
/// lacks what is needed.
pub open spec fn chosen(result: SearchResultView) -> Result<(RequestView, Seq<char>), ErrorView> {
    match result {
        SearchResultView::Tracks(tracks) => if tracks.len() == 0 {
            Err(ErrorView::NotFound("track"@))
        } else {
            match (tracks[0].id, lead_artist(tracks[0].artists)) {
                (None, _) => Err(ErrorView::NotFound("track id"@)),
                (Some(id), Err(e)) => Err(e),
                (Some(id), Ok(artist)) => Ok(
                    (
                        start(SearchType::Track, id),
                        "Now playing "@ + tracks[0].name + " by "@ + artist,
                    ),
                ),
            }
        },
        SearchResultView::Albums(albums) => if albums.len() == 0 {
            Err(ErrorView::NotFound("album"@))
        } else {
            match (albums[0].id, lead_artist(albums[0].artists)) {
                (None, _) => Err(ErrorView::NotFound("album id"@)),
                (Some(id), Err(e)) => Err(e),
                (Some(id), Ok(artist)) => Ok(
                    (
                        start(SearchType::Album, id),
                        "Now playing "@ + albums[0].name + " by "@ + artist,
                    ),
                ),
            }
        },
        SearchResultView::Playlists(playlists) => if playlists.len() == 0 {
            Err(ErrorView::NotFound("playlist"@))
        } else {
            Ok(
                (
                    start(SearchType::Playlist, playlists[0].id),
                    "Now playing "@ + playlists[0].name,
                ),
            )
        },
        SearchResultView::Artists(artists) => if artists.len() == 0 {
            Err(ErrorView::NotFound("artist"@))
        } else {
            Ok(
                (
                    start(SearchType::Artist, artists[0].id),
                    "Now playing from "@ + artists[0].name,
                ),
            )
        },
        SearchResultView::Other => Err(unexpected_result()),
    }
}

/// The steps of playing by search: the search for one hit in the category,
/// the start of that hit, the reply.
pub open spec fn by_search(term: Seq<char>, category: SearchType, replies: Seq<ResponseView>)
    -> StepView {
    if replies.len() == 0 {
        StepView::Call(RequestView::Search { term, category, limit: 1 })
    } else {
        match replies[0] {
            ResponseView::Found(result) => match chosen(result) {
                Err(e) => StepView::Fail(e),
                Ok((request, message)) => if replies.len() == 1 {
                    StepView::Call(request)
                } else {
                    acknowledged(replies[1], message)
                },
            },
            _ => StepView::Fail(setback(replies[0])),
        }
    }
}

/// The steps of playing by link: the identifier is read out of the link and
/// checked, the thing is started, the reply follows.
pub open spec fn by_link(term: Seq<char>, category: SearchType, replies: Seq<ResponseView>)
    -> StepView {
    match link_id(term) {
        Err(e) => StepView::Fail(e),
        Ok(segment) => match checked_id(segment) {
            Err(fault) => StepView::Fail(ErrorView::InvalidArgument(fault.reason())),
            Ok(id) => if replies.len() == 0 {
                StepView::Call(start(category, id))
            } else {
                acknowledged(replies[0], "Now playing"@)
            },
        },
    }
}

/// The next step of `play` for the decoded `options` after the answers in
/// `replies`. The category defaults to tracks; the third option says whether
/// the first is a link, and defaults to no.
pub open spec fn next_step(options: Seq<Option<ValueView>>, replies: Seq<ResponseView>)
    -> StepView {
    match text_at(options, 0, None) {
        Err(e) => StepView::Fail(e),
        Ok(term) => match search_type_at(options, 1) {
            Err(e) => StepView::Fail(e),
            Ok(category) => match bool_at(options, 2, Some(false)) {
                Err(e) => StepView::Fail(e),
                Ok(is_link) => if is_link {
                    by_link(term, category, replies)
                } else {
                    by_search(term, category, replies)
                },
            },
        },
    }
}

fn start_request(category: SearchType, id: String) -> (request: Request)
    ensures
        request@ == start(category, id@),
{
    match category {
        SearchType::Track => Request::StartTrack { id },
        SearchType::Album => Request::StartContext { kind: ContextKind::Album, id },
        SearchType::Playlist => Request::StartContext { kind: ContextKind::Playlist, id },
        SearchType::Artist => Request::StartContext { kind: ContextKind::Artist, id },
    }
}

fn now_playing(name: &str, joint: &str, artist: &str) -> (message: String)
    ensures
        message@ == "Now playing "@ + name@ + joint@ + artist@,
{
    let mut message = String::from_str("Now playing ");
    message.append(name);
    message.append(joint);
    message.append(artist);
    message
}

/// Picks what a search result is played as: always its first hit.
pub fn choose_hit(result: &SearchResult) -> (r: Result<(Request, String), CommandError>)
    ensures
        r matches Ok((request, message)) ==> yields(chosen(result@), (request@, message@)),
        r matches Err(e) ==> fails_with(chosen(result@), e@),
{
    match result {
        SearchResult::Tracks(tracks) => {
            if tracks.len() == 0 {
                return Err(CommandError::not_found("track"));
            }
            let id = match &tracks[0].id {
                Some(id) => id.clone(),
                None => {
                    return Err(CommandError::not_found("track id"));
                },
            };
            let artist = match first_artist(&tracks[0].artists) {
                Ok(artist) => artist,
                Err(e) => {
                    return Err(e);
                },
            };
            Ok(
                (
                    start_request(SearchType::Track, id),
                    now_playing(tracks[0].name.as_str(), " by ", artist),
                ),
            )
        },
        SearchResult::Albums(albums) => {
            if albums.len() == 0 {
                return Err(CommandError::not_found("album"));
            }
            let id = match &albums[0].id {
                Some(id) => id.clone(),
                None => {
                    return Err(CommandError::not_found("album id"));
                },
            };
            let artist = match first_artist(&albums[0].artists) {
                Ok(artist) => artist,
                Err(e) => {
                    return Err(e);
                },
            };
            Ok(
                (
                    start_request(SearchType::Album, id),
                    now_playing(albums[0].name.as_str(), " by ", artist),
                ),
            )
        },
        SearchResult::Playlists(playlists) => {
            if playlists.len() == 0 {
                return Err(CommandError::not_found("playlist"));
            }
            let mut message = String::from_str("Now playing ");
            message.append(playlists[0].name.as_str());
            Ok((start_request(SearchType::Playlist, playlists[0].id.clone()), message))
        },
        SearchResult::Artists(artists) => {
            if artists.len() == 0 {
                return Err(CommandError::not_found("artist"));
            }
            let mut message = String::from_str("Now playing from ");
            message.append(artists[0].name.as_str());
            Ok((start_request(SearchType::Artist, artists[0].id.clone()), message))
        },
        SearchResult::Other => Err(CommandError::remote("Unexpected search result type")),
    }
}

fn play_by_search(term: &str, category: SearchType, replies: &Vec<Response>) -> (step: Step)
    ensures
        step@ == by_search(term@, category, replies.deep_view()),
{
    if replies.len() == 0 {
        return Step::Call(Request::Search { term: String::from_str(term), category, limit: 1 });
    }
    match &replies[0] {
        Response::Found(result) => match choose_hit(result) {
            Err(e) => Step::Fail(e),
            Ok((request, message)) => if replies.len() == 1 {
                Step::Call(request)
            } else {
                acknowledge(&replies[1], message.as_str())
            },
        },
        other => Step::Fail(setback_of(other)),
    }
}

fn play_by_link(term: &str, category: SearchType, replies: &Vec<Response>) -> (step: Step)
    ensures
        step@ == by_link(term@, category, replies.deep_view()),
{
    let segment = match id_from_url(term) {
        Ok(segment) => segment,
        Err(e) => {
            return Step::Fail(e);
        },
    };
    let id = match check_id(category, segment) {
        Ok(id) => id,
        Err(fault) => {
            return Step::Fail(fault.into_error());
        },
    };
    if replies.len() == 0 {
        Step::Call(start_request(category, id))
    } else {
        acknowledge(&replies[0], "Now playing")
    }
}

/// The handler of `play`. By search it asks for one hit in the category and
/// starts it; by link it starts the thing the link names.
pub fn run(options: &DecodedOptions, replies: &Vec<Response>) -> (step: Step)
    ensures
        step@ == next_step(options.deep_view(), replies.deep_view()),
{
    let term = match str_from_value(options, 0, None) {
        Ok(term) => term,
        Err(e) => {
            return Step::Fail(e);
        },
    };
    let category = match search_type_from_value(options, 1) {
        Ok(category) => category,
        Err(e) => {
            return Step::Fail(e);
        },
    };
    let is_link = match bool_from_value(options, 2, Some(false)) {
        Ok(is_link) => is_link,
        Err(e) => {
            return Step::Fail(e);
        },
    };
    if is_link {
        play_by_link(term, category, replies)
    } else {
        play_by_search(term, category, replies)
    }
}

/// The categories that `play` and `search` offer.
pub open spec fn categories() -> Seq<Seq<char>> {
    seq!["track"@, "album"@, "playlist"@, "artist"@]
}

/// The options of `play`: what to play, in which category, and whether the
/// first option is a link.
pub open spec fn declared_options() -> Seq<OptionSchemaView> {
    seq![
        OptionSchemaView {
            name: "name"@,
            description: "Name of music search for"@,
            kind: OptionType::String,
            required: true,
            default: None,
            allowed_values: None,
            allowed_range: None,
        },
        OptionSchemaView {
            name: "type"@,
            description: "Type of music"@,
            kind: OptionType::String,
            required: false,
            default: None,
            allowed_values: Some(categories()),
            allowed_range: None,
        },
        OptionSchemaView {
            name: "link"@,
            description: "Whether the search term should be interpretted as a link"@,
            kind: OptionType::Boolean,
            required: false,
            default: None,
            allowed_values: None,
            allowed_range: None,
        },
    ]
}

/// The four categories as a list of choices.
pub fn category_choices() -> (choices: Vec<String>)
    ensures
        choices.deep_view() == categories(),
{
    let mut choices: Vec<String> = Vec::new();
    choices.push(String::from_str("track"));
    choices.push(String::from_str("album"));
    choices.push(String::from_str("playlist"));
    choices.push(String::from_str("artist"));
    assert(choices.deep_view() =~= categories());
    choices
}

/// What `play` is declared as.
pub open spec fn declared() -> CommandSchemaView {
    CommandSchemaView {
        name: "play"@,
        description: "Play spotify music"@,
        options: declared_options(),
        subcommands: Seq::empty(),
    }
}

/// The schema of `play`.
pub fn register() -> (schema: CommandSchema)
    ensures
        schema@ == declared(),
{
    let schema = CommandSchema::new("play", "Play spotify music").option(
        OptionSchema::new("name", "Name of music search for", OptionType::String).required(true),
    ).option(
        OptionSchema::new("type", "Type of music", OptionType::String).with_choices(
            category_choices(),
        ),
    ).option(
        OptionSchema::new(
            "link",
            "Whether the search term should be interpretted as a link",
            OptionType::Boolean,
        ),
    );
    assert(schema@.options =~= declared_options());
    schema
}

} // verus!
