//! `search`: lists the first hits of a search in one category.

use crate::commands::play::{categories, category_choices, unexpected_result};
use crate::error::CommandError;
use crate::listing::{joined, listing, one_more_line, Line};
use crate::options::{
    search_type_at, search_type_from_value, str_from_value, text_at, DecodedOptions,
};
use crate::schema::{
    CommandSchema, CommandSchemaView, OptionSchema, OptionSchemaView, OptionType, OptionValue,
    ValueView,
};
use crate::service::{
    first_artist, lead_artist, setback, setback_of, Album, Artist, NamedView, Playlist, Request,
    RequestView, Response, ResponseView, SearchResult, SearchResultView, Step, StepView, Track,
    WorkView,
};
use vstd::prelude::*;

verus! {

/// How many hits a search asks for.
pub const HITS: u32 = 5;

/// The line that heads the hits.
pub open spec fn heading(term: Seq<char>) -> Seq<char> {
    "Search results for '"@ + term + "'\n"@
}

/// The line of a hit that has artists: its first artist and its name.
pub open spec fn credited_line(artists: Seq<Seq<char>>, name: Seq<char>) -> Line {
    match lead_artist(artists) {
        Ok(artist) => Ok(artist + " \u{2014} "@ + name + " \n"@),
        Err(e) => Err(e),
    }
}

/// The line of a hit that goes by its name alone.
pub open spec fn plain_line(name: Seq<char>) -> Seq<char> {
    name + " \n"@
}

/// The lines of hits that have artists, one for each in order.
pub open spec fn credited_lines(works: Seq<WorkView>) -> Seq<Line> {
    Seq::new(works.len(), |i: int| credited_line(works[i].artists, works[i].name))
}

/// The lines of hits that go by their names alone, one for each in order.
pub open spec fn plain_lines(things: Seq<NamedView>) -> Seq<Line> {
    Seq::new(things.len(), |i: int| Ok(plain_line(things[i].name)))
}

/// The lines of the hits, one for each in order.
pub open spec fn hit_lines(result: SearchResultView) -> Seq<Line> {
    match result {
        SearchResultView::Tracks(tracks) => credited_lines(tracks),
        SearchResultView::Albums(albums) => credited_lines(albums),
        SearchResultView::Playlists(playlists) => plain_lines(playlists),
        SearchResultView::Artists(artists) => plain_lines(artists),
        SearchResultView::Other => Seq::empty(),
    }
}

/// What follows the answer to the search: the heading and the hits, the
/// error of the first hit that cannot be written, or the error for a result
/// of a category that is not dealt with.
pub open spec fn listed(term: Seq<char>, result: SearchResultView) -> StepView {
    if result is Other {
        StepView::Fail(unexpected_result())
    } else {
        match listing(hit_lines(result)) {
            Ok(hits) => StepView::Reply(heading(term) + hits),
            Err(e) => StepView::Fail(e),
        }
    }
}

/// The next step of `search` for the decoded `options` after the answers in
/// `replies`. The category defaults to tracks.
pub open spec fn next_step(options: Seq<Option<ValueView>>, replies: Seq<ResponseView>)
    -> StepView {
    match text_at(options, 0, None) {
        Err(e) => StepView::Fail(e),
        Ok(term) => match search_type_at(options, 1) {
            Err(e) => StepView::Fail(e),
            Ok(category) => if replies.len() == 0 {
                StepView::Call(RequestView::Search { term, category, limit: HITS })
            } else {
                match replies[0] {
                    ResponseView::Found(result) => listed(term, result),
                    _ => StepView::Fail(setback(replies[0])),
                }
            },
        },
    }
}

fn push_credited_line(out: &mut String, artists: &Vec<String>, name: &str) -> (r: Result<
    (),
    CommandError,
>)
    ensures
        r is Ok ==> credited_line(artists.deep_view(), name@) is Ok && final(out)@ == old(out)@
            + credited_line(artists.deep_view(), name@)->Ok_0,
        r matches Err(e) ==> credited_line(artists.deep_view(), name@) is Err && e@
            == credited_line(artists.deep_view(), name@)->Err_0,
{
    let artist = match first_artist(artists) {
        Ok(artist) => artist,
        Err(e) => {
            return Err(e);
        },
    };
    out.append(artist);
    out.append(" \u{2014} ");
    out.append(name);
    out.append(" \n");
    Ok(())
}

fn push_plain_line(out: &mut String, name: &str)
    ensures
        final(out)@ == old(out)@ + plain_line(name@),
{
    out.append(name);
    out.append(" \n");
}

fn list_tracks(out: String, tracks: &Vec<Track>) -> (step: Step)
    ensures
        step@ == (match listing(credited_lines(tracks.deep_view())) {
            Ok(hits) => StepView::Reply(out@ + hits),
            Err(e) => StepView::Fail(e),
        }),
{
    let ghost lines = credited_lines(tracks.deep_view());
    let ghost head = out@;
    let mut out = out;
    let mut i: usize = 0;
    while i < tracks.len()
        invariant
            i <= tracks.len(),
            lines == credited_lines(tracks.deep_view()),
            joined(lines, i as nat) is Ok,
            out@ == head + joined(lines, i as nat)->Ok_0,
        decreases tracks.len() - i,
    {
        proof {
            one_more_line(lines, i as nat);
        }
        match push_credited_line(&mut out, &tracks[i].artists, tracks[i].name.as_str()) {
            Ok(()) => {},
            Err(e) => {
                return Step::Fail(e);
            },
        }
        i += 1;
    }
    Step::Reply(out)
}

fn list_albums(out: String, albums: &Vec<Album>) -> (step: Step)
    ensures
        step@ == (match listing(credited_lines(albums.deep_view())) {
            Ok(hits) => StepView::Reply(out@ + hits),
            Err(e) => StepView::Fail(e),
        }),
{
    let ghost lines = credited_lines(albums.deep_view());
    let ghost head = out@;
    let mut out = out;
    let mut i: usize = 0;
    while i < albums.len()
        invariant
            i <= albums.len(),
            lines == credited_lines(albums.deep_view()),
            joined(lines, i as nat) is Ok,
            out@ == head + joined(lines, i as nat)->Ok_0,
        decreases albums.len() - i,
    {
        proof {
            one_more_line(lines, i as nat);
        }
        match push_credited_line(&mut out, &albums[i].artists, albums[i].name.as_str()) {
            Ok(()) => {},
            Err(e) => {
                return Step::Fail(e);
            },
        }
        i += 1;
    }
    Step::Reply(out)
}

fn list_playlists(out: String, playlists: &Vec<Playlist>) -> (step: Step)
    ensures
        step@ == (match listing(plain_lines(playlists.deep_view())) {
            Ok(hits) => StepView::Reply(out@ + hits),
            Err(e) => StepView::Fail(e),
        }),
{
    let ghost lines = plain_lines(playlists.deep_view());
    let ghost head = out@;
    let mut out = out;
    let mut i: usize = 0;
    while i < playlists.len()
        invariant
            i <= playlists.len(),
            lines == plain_lines(playlists.deep_view()),
            joined(lines, i as nat) is Ok,
            out@ == head + joined(lines, i as nat)->Ok_0,
        decreases playlists.len() - i,
    {
        proof {
            one_more_line(lines, i as nat);
        }
        push_plain_line(&mut out, playlists[i].name.as_str());
        i += 1;
    }
    Step::Reply(out)
}

fn list_artists(out: String, artists: &Vec<Artist>) -> (step: Step)
    ensures
        step@ == (match listing(plain_lines(artists.deep_view())) {
            Ok(hits) => StepView::Reply(out@ + hits),
            Err(e) => StepView::Fail(e),
        }),
{
    let ghost lines = plain_lines(artists.deep_view());
    let ghost head = out@;
    let mut out = out;
    let mut i: usize = 0;
    while i < artists.len()
        invariant
            i <= artists.len(),
            lines == plain_lines(artists.deep_view()),
            joined(lines, i as nat) is Ok,
            out@ == head + joined(lines, i as nat)->Ok_0,
        decreases artists.len() - i,
    {
        proof {
            one_more_line(lines, i as nat);
        }
        push_plain_line(&mut out, artists[i].name.as_str());
        i += 1;
    }
    Step::Reply(out)
}

/// Writes the hits of `result` under the heading for `term`.
pub fn list_hits(term: &str, result: &SearchResult) -> (step: Step)
    ensures
        step@ == listed(term@, result@),
{
    let mut out = String::from_str("Search results for '");
    out.append(term);
    out.append("'\n");
    match result {
        SearchResult::Tracks(tracks) => list_tracks(out, tracks),
        SearchResult::Albums(albums) => list_albums(out, albums),
        SearchResult::Playlists(playlists) => list_playlists(out, playlists),
        SearchResult::Artists(artists) => list_artists(out, artists),
        SearchResult::Other => Step::Fail(CommandError::remote("Unexpected search result type")),
    }
}

/// The handler of `search`. It asks for the first hits in the category and
/// replies with one line for each.
pub fn run(options: &DecodedOptions, replies: &Vec<Response>) -> (step: Step)
    ensures
        step@ == next_step(options.deep_view(), replies.deep_view()),
{
    let term = match str_from_value(options, 0, None) {
        Ok(term) => term,
        Err(e) => {
            return Step::Fail(e);
        },
    };
    let category = match search_type_from_value(options, 1) {
        Ok(category) => category,
        Err(e) => {
            return Step::Fail(e);
        },
    };
    if replies.len() == 0 {
        return Step::Call(Request::Search { term: String::from_str(term), category, limit: HITS });
    }
    match &replies[0] {
        Response::Found(result) => list_hits(term, result),
        other => Step::Fail(setback_of(other)),
    }
}

/// The options of `search`: the term, which is required, and the category,
/// which is one of four and stands at `track` where it is left out.
pub open spec fn declared_options() -> Seq<OptionSchemaView> {
    seq![
        OptionSchemaView {
            name: "term"@,
            description: "name of music to search for"@,
            kind: OptionType::String,
            required: true,
            default: None,
            allowed_values: None,
            allowed_range: None,
        },
        OptionSchemaView {
            name: "category"@,
            description: "track, album, or playlist"@,
            kind: OptionType::String,
            required: false,
            default: Some(ValueView::String("track"@)),
            allowed_values: Some(categories()),
            allowed_range: None,
        },
    ]
}

/// What `search` is declared as.
pub open spec fn declared() -> CommandSchemaView {
    CommandSchemaView {
        name: "search"@,
        description: "Search for tracks, albums, and playlists through spotify"@,
        options: declared_options(),
        subcommands: Seq::empty(),
    }
}

/// The schema of `search`.
pub fn register() -> (schema: CommandSchema)
    ensures
        schema@ == declared(),
{
    let schema = CommandSchema::new(
        "search",
        "Search for tracks, albums, and playlists through spotify",
    ).option(
        OptionSchema::new("term", "name of music to search for", OptionType::String).required(
            true,
        ),
    ).option(
        OptionSchema::new("category", "track, album, or playlist", OptionType::String)
            .with_default(OptionValue::text("track")).with_choices(category_choices()),
    );
    assert(schema@.options =~= declared_options());
    schema
}

} // verus!
