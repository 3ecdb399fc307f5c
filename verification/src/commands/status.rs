//! `status`: shows what is playing, where in the track playback stands, and
//! the volume, shuffle and repeat settings.

use crate::error::{CommandError, ErrorView};
use crate::options::DecodedOptions;
use crate::schema::{CommandSchema, CommandSchemaView};
use crate::service::{
    first_artist, lead_artist, setback, setback_of, ContextKind, PlayableItem, PlayableItemView,
    Playback, PlaybackView, RepeatState, Request, RequestView, Response, ResponseView, Step,
    StepView,
};
use crate::spotify::{
    context_kind_word, context_uri_id, id_of_context_uri, id_outcome, IdFault,
};
use crate::text::{clock, decimal, push_clock, push_decimal};
use vstd::prelude::*;

verus! {

/// The first line: whether playback runs.
pub open spec fn head_line(is_playing: bool) -> Seq<char> {
    if is_playing {
        "> Playing"@
    } else {
        "> Paused"@
    }
}

/// The line for what playback runs in: its kind and its name.
pub open spec fn context_line(context: Option<(ContextKind, Seq<char>)>) -> Seq<char> {
    match context {
        Some((kind, name)) => "\n> "@ + kind.label() + " "@ + name,
        None => Seq::empty(),
    }
}

/// The line for the item that plays: a track with its first artist, an
/// episode by its name alone.
pub open spec fn item_line(item: Option<PlayableItemView>) -> Result<Seq<char>, ErrorView> {
    match item {
        Some(PlayableItemView::Track { name, artists, duration_secs }) => match lead_artist(
            artists,
        ) {
            Ok(artist) => Ok("\n> "@ + name + " \u{2014} "@ + artist),
            Err(e) => Err(e),
        },
        Some(PlayableItemView::Episode { name, duration_secs }) => Ok("\n> "@ + name),
        None => Ok(Seq::empty()),
    }
}

/// How long the item that plays lasts, in seconds.
pub open spec fn item_duration(item: Option<PlayableItemView>) -> Option<u64> {
    match item {
        Some(PlayableItemView::Track { name, artists, duration_secs }) => Some(duration_secs),
        Some(PlayableItemView::Episode { name, duration_secs }) => Some(duration_secs),
        None => None,
    }
}

/// The line for how far playback has come: progress and duration as clock
/// readings, with hours where the item lasts an hour or more.
pub open spec fn progress_line(progress: Option<u64>, duration: Option<u64>) -> Seq<char> {
    match (progress, duration) {
        (Some(p), Some(d)) => "\n> "@ + clock(p as nat, d / 3600 > 0) + " / "@ + clock(
            d as nat,
            d / 3600 > 0,
        ),
        _ => Seq::empty(),
    }
}

/// The line for the volume, where the device reports one.
pub open spec fn volume_line(volume: Option<u32>) -> Seq<char> {
    match volume {
        Some(v) => "\n> Volume: "@ + decimal(v as nat) + "%"@,
        None => Seq::empty(),
    }
}

/// The line for shuffle.
pub open spec fn shuffle_line(shuffle: bool) -> Seq<char> {
    if shuffle {
        "\n> Shuffle: On"@
    } else {
        "\n> Shuffle: Off"@
    }
}

/// The line for repeat: on for every state but `Off`.
pub open spec fn repeat_line(repeat: RepeatState) -> Seq<char> {
    if repeat == RepeatState::Off {
        "\n> Repeat: Off"@
    } else {
        "\n> Repeat: On"@
    }
}

/// The report on `playback`, with the line for its context where one is
/// given. The lines follow each other in a fixed order, each but the first
/// behind a line break and `> `.
pub open spec fn report(playback: PlaybackView, context: Option<(ContextKind, Seq<char>)>)
    -> StepView {
    match item_line(playback.item) {
        Err(e) => StepView::Fail(e),
        Ok(item) => StepView::Reply(
            head_line(playback.is_playing) + context_line(context) + item + progress_line(
                playback.progress_secs,
                item_duration(playback.item),
            ) + volume_line(playback.device.volume_percent) + shuffle_line(playback.shuffle)
                + repeat_line(playback.repeat),
        ),
    }
}

/// The kind and name of a context as content.
pub open spec fn kind_and_name(context: Option<(ContextKind, &str)>) -> Option<
    (ContextKind, Seq<char>),
> {
    match context {
        Some((kind, name)) => Some((kind, name@)),
        None => None,
    }
}

/// The kind and URI of what playback runs in, where the kind is one that has
/// a name to look up.
pub open spec fn named_context(playback: PlaybackView) -> Option<(ContextKind, Seq<char>)> {
    match playback.context {
        Some(context) => match context.kind {
            Some(kind) => Some((kind, context.uri)),
            None => None,
        },
        None => None,
    }
}

/// The call that looks up the thing of kind `kind` with identifier `id`.
pub open spec fn lookup(kind: ContextKind, id: Seq<char>) -> RequestView {
    match kind {
        ContextKind::Artist => RequestView::Artist { id },
        ContextKind::Album => RequestView::Album { id },
        ContextKind::Playlist => RequestView::Playlist { id },
    }
}

/// The name that the answer to a lookup of kind `kind` holds, or the error
/// where the answer is not that of such a lookup.
pub open spec fn looked_up_name(kind: ContextKind, answer: ResponseView) -> Result<
    Seq<char>,
    ErrorView,
> {
    match (kind, answer) {
        (ContextKind::Artist, ResponseView::Artist(artist)) => Ok(artist.name),
        (ContextKind::Album, ResponseView::Album(album)) => Ok(album.name),
        (ContextKind::Playlist, ResponseView::Playlist(playlist)) => Ok(playlist.name),
        _ => Err(setback(answer)),
    }
}

/// What follows once the URI of the context has been parsed: an error where
/// it was refused, the lookup of the name where that has not been asked for
/// yet, and the report once the name is there.
pub open spec fn after_parse(
    playback: PlaybackView,
    kind: ContextKind,
    parsed: Result<Seq<char>, IdFault>,
    replies: Seq<ResponseView>,
) -> StepView {
    match parsed {
        Err(fault) => StepView::Fail(ErrorView::InvalidArgument(fault.reason())),
        Ok(id) => if replies.len() < 2 {
            StepView::Call(lookup(kind, id))
        } else {
            match looked_up_name(kind, replies[1]) {
                Ok(name) => report(playback, Some((kind, name))),
                Err(e) => StepView::Fail(e),
            }
        },
    }
}

/// The next step of `status` after the answers in `replies`.
pub open spec fn next_step(replies: Seq<ResponseView>) -> StepView {
    if replies.len() == 0 {
        StepView::Call(RequestView::CurrentPlayback)
    } else {
        match replies[0] {
            ResponseView::Playback(Some(playback)) => match named_context(playback) {
                Some((kind, uri)) => after_parse(
                    playback,
                    kind,
                    context_uri_id(kind, uri),
                    replies,
                ),
                None => report(playback, None),
            },
            ResponseView::Playback(None) => StepView::Fail(ErrorView::NotFound("playback"@)),
            _ => StepView::Fail(setback(replies[0])),
        }
    }
}

fn push_context_line(out: &mut String, context: Option<(ContextKind, &str)>)
    ensures
        final(out)@ == old(out)@ + context_line(kind_and_name(context)),
{
    match context {
        Some((kind, name)) => {
            out.append("\n> ");
            let word = context_kind_word(kind);
            out.append(word.as_str());
            out.append(" ");
            out.append(name);
        },
        None => {},
    }
}

fn push_item_line(out: &mut String, item: &Option<PlayableItem>) -> (r: Result<(), CommandError>)
    ensures
        r is Ok ==> item_line(item.deep_view()) is Ok && final(out)@ == old(out)@ + item_line(
            item.deep_view(),
        )->Ok_0,
        r matches Err(e) ==> item_line(item.deep_view()) is Err && e@ == item_line(
            item.deep_view(),
        )->Err_0,
{
    match item {
        Some(PlayableItem::Track { name, artists, .. }) => {
            let artist = match first_artist(artists) {
                Ok(artist) => artist,
                Err(e) => {
                    return Err(e);
                },
            };
            out.append("\n> ");
            out.append(name.as_str());
            out.append(" \u{2014} ");
            out.append(artist);
        },
        Some(PlayableItem::Episode { name, .. }) => {
            out.append("\n> ");
            out.append(name.as_str());
        },
        None => {},
    }
    Ok(())
}

fn duration_of(item: &Option<PlayableItem>) -> (d: Option<u64>)
    ensures
        d == item_duration(item.deep_view()),
{
    match item {
        Some(PlayableItem::Track { duration_secs, .. }) => Some(*duration_secs),
        Some(PlayableItem::Episode { duration_secs, .. }) => Some(*duration_secs),
        None => None,
    }
}

fn push_progress_line(out: &mut String, progress: Option<u64>, duration: Option<u64>)
    ensures
        final(out)@ == old(out)@ + progress_line(progress, duration),
{
    match (progress, duration) {
        (Some(p), Some(d)) => {
            let long = d / 3600 > 0;
            out.append("\n> ");
            push_clock(out, p, long);
            out.append(" / ");
            push_clock(out, d, long);
        },
        _ => {},
    }
}

fn push_volume_line(out: &mut String, volume: Option<u32>)
    ensures
        final(out)@ == old(out)@ + volume_line(volume),
{
    match volume {
        Some(v) => {
            out.append("\n> Volume: ");
            push_decimal(out, v as u64);
            out.append("%");
        },
        None => {},
    }
}

/// Writes the report on `playback`, with the line for its context where
/// `context` gives its kind and name.
pub fn describe(playback: &Playback, context: Option<(ContextKind, &str)>) -> (step: Step)
    ensures
        step@ == report(playback@, kind_and_name(context)),
{
    let mut out = String::from_str(
        if playback.is_playing {
            "> Playing"
        } else {
            "> Paused"
        },
    );
    push_context_line(&mut out, context);
    match push_item_line(&mut out, &playback.item) {
        Ok(()) => {},
        Err(e) => {
            return Step::Fail(e);
        },
    }
    push_progress_line(&mut out, playback.progress_secs, duration_of(&playback.item));
    push_volume_line(&mut out, playback.device.volume_percent);
    out.append(
        if playback.shuffle {
            "\n> Shuffle: On"
        } else {
            "\n> Shuffle: Off"
        },
    );
    match playback.repeat {
        RepeatState::Off => out.append("\n> Repeat: Off"),
        _ => out.append("\n> Repeat: On"),
    }
    Step::Reply(out)
}

/// What follows once the URI of the context has been parsed; `parsed` is
/// what the parse gave.
pub fn continue_with_context(
    playback: &Playback,
    kind: ContextKind,
    parsed: Result<String, IdFault>,
    replies: &Vec<Response>,
) -> (step: Step)
    ensures
        step@ == after_parse(
            playback@,
            kind,
            id_outcome(parsed),
            replies.deep_view(),
        ),
{
    let id = match parsed {
        Ok(id) => id,
        Err(fault) => {
            return Step::Fail(fault.into_error());
        },
    };
    if replies.len() < 2 {
        return Step::Call(
            match kind {
                ContextKind::Artist => Request::Artist { id },
                ContextKind::Album => Request::Album { id },
                ContextKind::Playlist => Request::Playlist { id },
            },
        );
    }
    match (kind, &replies[1]) {
        (ContextKind::Artist, Response::Artist(artist)) => describe(
            playback,
            Some((kind, artist.name.as_str())),
        ),
        (ContextKind::Album, Response::Album(album)) => describe(
            playback,
            Some((kind, album.name.as_str())),
        ),
        (ContextKind::Playlist, Response::Playlist(playlist)) => describe(
            playback,
            Some((kind, playlist.name.as_str())),
        ),
        (_, other) => Step::Fail(setback_of(other)),
    }
}

/// The handler of `status`. It asks for the state of playback, then, where
/// playback runs in an artist, an album or a playlist, for that thing's
/// name, and replies with the report.
pub fn run(_options: &DecodedOptions, replies: &Vec<Response>) -> (step: Step)
    ensures
        step@ == next_step(replies.deep_view()),
{
    if replies.len() == 0 {
        return Step::Call(Request::CurrentPlayback);
    }
    match &replies[0] {
        Response::Playback(Some(playback)) => {
            match &playback.context {
                Some(context) => match context.kind {
                    Some(kind) => {
                        let parsed = id_of_context_uri(kind, context.uri.as_str());
                        continue_with_context(playback, kind, parsed, replies)
                    },
                    None => describe(playback, None),
                },
                None => describe(playback, None),
            }
        },
        Response::Playback(None) => Step::Fail(CommandError::not_found("playback")),
        other => Step::Fail(setback_of(other)),
    }
}

/// What `status` is declared as.
pub open spec fn declared() -> CommandSchemaView {
    CommandSchemaView {
        name: "status"@,
        description: "Show playback status"@,
        options: Seq::empty(),
        subcommands: Seq::empty(),
    }
}

/// The schema of `status`: it takes no option.
pub fn register() -> (schema: CommandSchema)
    ensures
        schema@ == declared(),
{
    CommandSchema::new("status", "Show playback status")
}

} // verus!
