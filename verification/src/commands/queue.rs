//! `queue`: puts the first hit of a search behind what is playing: a track by
//! itself, an album or a playlist track by track.

use crate::commands::play::unexpected_result;
use crate::error::{CommandError, ErrorView};
use crate::options::{
    search_type_at, search_type_from_value, str_from_value, text_at, DecodedOptions,
};
use crate::schema::{
    CommandSchema, CommandSchemaView, OptionSchema, OptionSchemaView, OptionType, ValueView,
};
use crate::service::{
    acknowledge, acknowledged, setback, setback_of, PlayableId, PlayableIdView, PlaylistItem,
    PlaylistItemView, Request, RequestView, Response, ResponseView, SearchResult,
    SearchResultView, SearchType, Step, StepView,
};
use crate::spotify::search_type_word;
use vstd::prelude::*;

verus! {

/// One thing to put into the queue: its identifier, or why it cannot be
/// queued.
pub type Entry = Result<PlayableId, CommandError>;

/// The mathematical content of an [`Entry`].
pub type EntryView = Result<PlayableIdView, ErrorView>;

/// The content of one entry.
pub open spec fn entry_view(entry: Entry) -> EntryView {
    match entry {
        Ok(id) => Ok(id@),
        Err(e) => Err(e@),
    }
}

/// The content of a list of entries.
pub open spec fn entries_view(entries: Seq<Entry>) -> Seq<EntryView> {
    Seq::new(entries.len(), |i: int| entry_view(entries[i]))
}

/// The entry for a track of an album: a track without identifier cannot be
/// queued.
pub open spec fn album_entry(track: Option<Seq<char>>) -> EntryView {
    match track {
        Some(id) => Ok(PlayableIdView::Track(id)),
        None => Err(ErrorView::NotFound("track id"@)),
    }
}

/// The entry for an item of a playlist: an item that holds nothing playable,
/// or nothing with an identifier, cannot be queued.
pub open spec fn playlist_entry(item: PlaylistItemView) -> EntryView {
    match item {
        PlaylistItemView::Playable(id) => Ok(id),
        PlaylistItemView::Unidentified => Err(ErrorView::NotFound("track id"@)),
        PlaylistItemView::Unavailable => Err(ErrorView::NotFound("track"@)),
    }
}

/// The entries for the tracks of an album, in order.
pub open spec fn album_entries_of(tracks: Seq<Option<Seq<char>>>) -> Seq<EntryView> {
    Seq::new(tracks.len(), |i: int| album_entry(tracks[i]))
}

/// The entries for the items of a playlist, in order.
pub open spec fn playlist_entries_of(items: Seq<PlaylistItemView>) -> Seq<EntryView> {
    Seq::new(items.len(), |i: int| playlist_entry(items[i]))
}

/// The reply once everything is queued: the category that was asked for and
/// the name of the hit.
pub open spec fn queued_message(category: SearchType, name: Seq<char>) -> Seq<char> {
    "Successfully queued "@ + category.label() + " "@ + name
}

/// Queues `entries` one by one from position `k` on. The answers to these
/// calls stand in `replies` from position 2 on. An entry that cannot be
/// queued, or an answer that is no success, ends the invocation with its
/// error; the reply follows the last entry.
pub open spec fn queue_from(
    entries: Seq<EntryView>,
    replies: Seq<ResponseView>,
    message: Seq<char>,
    k: nat,
) -> StepView
    decreases entries.len() - k,
{
    if k >= entries.len() {
        StepView::Reply(message)
    } else {
        match entries[k as int] {
            Err(e) => StepView::Fail(e),
            Ok(id) => if replies.len() <= k + 2 {
                StepView::Call(RequestView::AddToQueue { item: id })
            } else {
                match replies[k as int + 2] {
                    ResponseView::Done => queue_from(entries, replies, message, k + 1),
                    _ => StepView::Fail(setback(replies[k as int + 2])),
                }
            },
        }
    }
}

/// Queuing ends at the latest once there is an answer for each entry.
pub proof fn queue_ends(
    entries: Seq<EntryView>,
    replies: Seq<ResponseView>,
    message: Seq<char>,
    k: nat,
)
    requires
        replies.len() >= entries.len() + 2,
    ensures
        !(queue_from(entries, replies, message, k) is Call),
    decreases entries.len() - k,
{
    if k < entries.len() {
        queue_ends(entries, replies, message, k + 1);
    }
}

/// Once queuing has ended, with the reply or with an error, answers that
/// are handed in afterwards change nothing.
pub proof fn ended_queue_stays(
    entries: Seq<EntryView>,
    replies: Seq<ResponseView>,
    more: Seq<ResponseView>,
    message: Seq<char>,
    k: nat,
)
    requires
        !(queue_from(entries, replies, message, k) is Call),
    ensures
        queue_from(entries, replies + more, message, k) == queue_from(
            entries,
            replies,
            message,
            k,
        ),
    decreases entries.len() - k,
{
    if k < entries.len() && entries[k as int] is Ok && replies.len() > k + 2 {
        assert((replies + more)[k as int + 2] == replies[k as int + 2]);
        if replies[k as int + 2] is Done {
            ended_queue_stays(entries, replies, more, message, k + 1);
        }
    }
}

/// What follows the answer to the search: a track is queued by itself; an
/// album or a playlist is looked up in full and queued entry by entry.
pub open spec fn after_search(
    category: SearchType,
    result: SearchResultView,
    replies: Seq<ResponseView>,
) -> StepView {
    match result {
        SearchResultView::Tracks(tracks) => if tracks.len() == 0 {
            StepView::Fail(ErrorView::NotFound("track"@))
        } else {
            match tracks[0].id {
                None => StepView::Fail(ErrorView::NotFound("track id"@)),
                Some(id) => if replies.len() <= 1 {
                    StepView::Call(RequestView::AddToQueue { item: PlayableIdView::Track(id) })
                } else {
                    acknowledged(replies[1], queued_message(category, tracks[0].name))
                },
            }
        },
        SearchResultView::Albums(albums) => if albums.len() == 0 {
            StepView::Fail(ErrorView::NotFound("album"@))
        } else {
            match albums[0].id {
                None => StepView::Fail(ErrorView::NotFound("album id"@)),
                Some(id) => if replies.len() <= 1 {
                    StepView::Call(RequestView::Album { id })
                } else {
                    match replies[1] {
                        ResponseView::Album(details) => queue_from(
                            album_entries_of(details.tracks),
                            replies,
                            queued_message(category, albums[0].name),
                            0,
                        ),
                        _ => StepView::Fail(setback(replies[1])),
                    }
                },
            }
        },
        SearchResultView::Playlists(playlists) => if playlists.len() == 0 {
            StepView::Fail(ErrorView::NotFound("playlist"@))
        } else if replies.len() <= 1 {
            StepView::Call(RequestView::Playlist { id: playlists[0].id })
        } else {
            match replies[1] {
                ResponseView::Playlist(details) => queue_from(
                    playlist_entries_of(details.items),
                    replies,
                    queued_message(category, playlists[0].name),
                    0,
                ),
                _ => StepView::Fail(setback(replies[1])),
            }
        },
        _ => StepView::Fail(unexpected_result()),
    }
}

/// The next step of `queue` for the decoded `options` after the answers in
/// `replies`. The category defaults to tracks.
pub open spec fn next_step(options: Seq<Option<ValueView>>, replies: Seq<ResponseView>)
    -> StepView {
    match text_at(options, 0, None) {
        Err(e) => StepView::Fail(e),
        Ok(term) => match search_type_at(options, 1) {
            Err(e) => StepView::Fail(e),
            Ok(category) => if replies.len() == 0 {
                StepView::Call(RequestView::Search { term, category, limit: 1 })
            } else {
                match replies[0] {
                    ResponseView::Found(result) => after_search(category, result, replies),
                    _ => StepView::Fail(setback(replies[0])),
                }
            },
        },
    }
}

/// Once `queue` has ended the invocation, with the reply or with an error,
/// answers that are handed in afterwards change nothing.
pub proof fn ended_stays(
    options: Seq<Option<ValueView>>,
    replies: Seq<ResponseView>,
    more: Seq<ResponseView>,
)
    requires
        !(next_step(options, replies) is Call),
    ensures
        next_step(options, replies + more) == next_step(options, replies),
{
    let longer = replies + more;
    if replies.len() >= 1 {
        assert(longer[0] == replies[0]);
    }
    if replies.len() >= 2 {
        assert(longer[1] == replies[1]);
    }
    if text_at(options, 0, None) is Ok && search_type_at(options, 1) is Ok && replies.len() >= 2 {
        let category = search_type_at(options, 1)->Ok_0;
        match (replies[0], replies[1]) {
            (
                ResponseView::Found(SearchResultView::Albums(albums)),
                ResponseView::Album(details),
            ) => {
                if albums.len() > 0 && albums[0].id is Some {
                    ended_queue_stays(
                        album_entries_of(details.tracks),
                        replies,
                        more,
                        queued_message(category, albums[0].name),
                        0,
                    );
                }
            },
            (
                ResponseView::Found(SearchResultView::Playlists(playlists)),
                ResponseView::Playlist(details),
            ) => {
                if playlists.len() > 0 {
                    ended_queue_stays(
                        playlist_entries_of(details.items),
                        replies,
                        more,
                        queued_message(category, playlists[0].name),
                        0,
                    );
                }
            },
            _ => {},
        }
    }
}

fn message_for(category: SearchType, name: &str) -> (message: String)
    ensures
        message@ == queued_message(category, name@),
{
    let mut message = String::from_str("Successfully queued ");
    message.append(search_type_word(category));
    message.append(" ");
    message.append(name);
    message
}

fn album_entries(tracks: &Vec<Option<String>>) -> (entries: Vec<Entry>)
    ensures
        entries_view(entries@) == album_entries_of(tracks.deep_view()),
{
    let mut entries: Vec<Entry> = Vec::new();
    let mut i: usize = 0;
    while i < tracks.len()
        invariant
            i <= tracks.len(),
            entries.len() == i,
            forall|j: int|
                0 <= j < i ==> entry_view(#[trigger] entries@[j]) == album_entry(
                    tracks.deep_view()[j],
                ),
        decreases tracks.len() - i,
    {
        let entry = match &tracks[i] {
            Some(id) => Ok(PlayableId::Track(id.clone())),
            None => Err(CommandError::not_found("track id")),
        };
        entries.push(entry);
        i += 1;
    }
    assert(entries_view(entries@) =~= album_entries_of(tracks.deep_view()));
    entries
}

fn playlist_entries(items: &Vec<PlaylistItem>) -> (entries: Vec<Entry>)
    ensures
        entries_view(entries@) == playlist_entries_of(items.deep_view()),
{
    let mut entries: Vec<Entry> = Vec::new();
    let mut i: usize = 0;
    while i < items.len()
        invariant
            i <= items.len(),
            entries.len() == i,
            forall|j: int|
                0 <= j < i ==> entry_view(#[trigger] entries@[j]) == playlist_entry(
                    items.deep_view()[j],
                ),
        decreases items.len() - i,
    {
        let entry = match &items[i] {
            PlaylistItem::Playable(id) => Ok(id.duplicate()),
            PlaylistItem::Unidentified => Err(CommandError::not_found("track id")),
            PlaylistItem::Unavailable => Err(CommandError::not_found("track")),
        };
        entries.push(entry);
        i += 1;
    }
    assert(entries_view(entries@) =~= playlist_entries_of(items.deep_view()));
    entries
}

/// Finds how far queuing `entries` has come, given the answers in `replies`
/// from position 2 on, and says what is next.
pub fn queue_entries(entries: &Vec<Entry>, replies: &Vec<Response>, message: String) -> (step: Step)
    ensures
        step@ == queue_from(entries_view(entries@), replies.deep_view(), message@, 0),
{
    let mut k: usize = 0;
    while k < entries.len()
        invariant
            k <= entries.len(),
            queue_from(entries_view(entries@), replies.deep_view(), message@, 0) == queue_from(
                entries_view(entries@),
                replies.deep_view(),
                message@,
                k as nat,
            ),
        decreases entries.len() - k,
    {
        assert(entries_view(entries@)[k as int] == entry_view(entries@[k as int]));
        match &entries[k] {
            Err(e) => {
                return Step::Fail(e.duplicate());
            },
            Ok(id) => {
                if replies.len() < 2 || k >= replies.len() - 2 {
                    return Step::Call(Request::AddToQueue { item: id.duplicate() });
                }
                match &replies[k + 2] {
                    Response::Done => {},
                    other => {
                        return Step::Fail(setback_of(other));
                    },
                }
            },
        }
        k += 1;
    }
    Step::Reply(message)
}

fn continue_after_search(category: SearchType, result: &SearchResult, replies: &Vec<Response>)
    -> (step: Step)
    ensures
        step@ == after_search(category, result@, replies.deep_view()),
{
    match result {
        SearchResult::Tracks(tracks) => {
            if tracks.len() == 0 {
                return Step::Fail(CommandError::not_found("track"));
            }
            match &tracks[0].id {
                None => Step::Fail(CommandError::not_found("track id")),
                Some(id) => if replies.len() <= 1 {
                    Step::Call(Request::AddToQueue { item: PlayableId::Track(id.clone()) })
                } else {
                    let message = message_for(category, tracks[0].name.as_str());
                    acknowledge(&replies[1], message.as_str())
                },
            }
        },
        SearchResult::Albums(albums) => {
            if albums.len() == 0 {
                return Step::Fail(CommandError::not_found("album"));
            }
            match &albums[0].id {
                None => Step::Fail(CommandError::not_found("album id")),
                Some(id) => if replies.len() <= 1 {
                    Step::Call(Request::Album { id: id.clone() })
                } else {
                    match &replies[1] {
                        Response::Album(details) => {
                            let entries = album_entries(&details.tracks);
                            let message = message_for(category, albums[0].name.as_str());
                            queue_entries(&entries, replies, message)
                        },
                        other => Step::Fail(setback_of(other)),
                    }
                },
            }
        },
        SearchResult::Playlists(playlists) => {
            if playlists.len() == 0 {
                return Step::Fail(CommandError::not_found("playlist"));
            }
            if replies.len() <= 1 {
                return Step::Call(Request::Playlist { id: playlists[0].id.clone() });
            }
            match &replies[1] {
                Response::Playlist(details) => {
                    let entries = playlist_entries(&details.items);
                    let message = message_for(category, playlists[0].name.as_str());
                    queue_entries(&entries, replies, message)
                },
                other => Step::Fail(setback_of(other)),
            }
        },
        _ => Step::Fail(CommandError::remote("Unexpected search result type")),
    }
}

/// The handler of `queue`. It asks for one hit in the category and queues
/// it: a track by itself, an album or a playlist entry by entry after having
/// looked it up in full.
pub fn run(options: &DecodedOptions, replies: &Vec<Response>) -> (step: Step)
    ensures
        step@ == next_step(options.deep_view(), replies.deep_view()),
{
    let term = match str_from_value(options, 0, None) {
        Ok(term) => term,
        Err(e) => {
            return Step::Fail(e);
        },
    };
    let category = match search_type_from_value(options, 1) {
        Ok(category) => category,
        Err(e) => {
            return Step::Fail(e);
        },
    };
    if replies.len() == 0 {
        return Step::Call(Request::Search { term: String::from_str(term), category, limit: 1 });
    }
    match &replies[0] {
        Response::Found(result) => continue_after_search(category, result, replies),
        other => Step::Fail(setback_of(other)),
    }
}

/// The categories that `queue` offers.
pub open spec fn categories() -> Seq<Seq<char>> {
    seq!["track"@, "album"@, "playlist"@]
}

/// The options of `queue`: what to queue and in which category.
pub open spec fn declared_options() -> Seq<OptionSchemaView> {
    seq![
        OptionSchemaView {
            name: "name"@,
            description: "name of music to add to queue"@,
            kind: OptionType::String,
            required: true,
            default: None,
            allowed_values: None,
            allowed_range: None,
        },
        OptionSchemaView {
            name: "type"@,
            description: "track, album, or playlist"@,
            kind: OptionType::String,
            required: false,
            default: None,
            allowed_values: Some(categories()),
            allowed_range: None,
        },
    ]
}

/// What `queue` is declared as.
pub open spec fn declared() -> CommandSchemaView {
    CommandSchemaView {
        name: "queue"@,
        description: "Queue spotify music"@,
        options: declared_options(),
        subcommands: Seq::empty(),
    }
}

/// The schema of `queue`.
pub fn register() -> (schema: CommandSchema)
    ensures
        schema@ == declared(),
{
    let mut choices: Vec<String> = Vec::new();
    choices.push(String::from_str("track"));
    choices.push(String::from_str("album"));
    choices.push(String::from_str("playlist"));
    assert(choices.deep_view() =~= categories());
    let schema = CommandSchema::new("queue", "Queue spotify music").option(
        OptionSchema::new("name", "name of music to add to queue", OptionType::String).required(
            true,
        ),
    ).option(
        OptionSchema::new("type", "track, album, or playlist", OptionType::String).with_choices(
            choices,
        ),
    );
    assert(schema@.options =~= declared_options());
    schema
}

} // verus!
