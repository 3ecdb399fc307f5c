//! `list`: shows what is playing and what waits in the queue.

use crate::error::{outcome, CommandError};
use crate::listing::{joined, listing, one_more_line, Line};
use crate::options::DecodedOptions;
use crate::schema::{CommandSchema, CommandSchemaView};
use crate::service::{
    first_artist, lead_artist, setback, setback_of, PlayableItem, PlayableItemView, Queue,
    QueueView, Request, RequestView, Response, ResponseView, Step, StepView,
};
use vstd::prelude::*;

verus! {

/// The heading: what is playing, where something is, and the word that
/// opens the queue.
pub open spec fn heading(playing: Option<PlayableItemView>) -> Line {
    match playing {
        Some(PlayableItemView::Track { name, artists, duration_secs }) => match lead_artist(
            artists,
        ) {
            Ok(artist) => Ok(
                "> Currently playing "@ + name + " by "@ + artist + " \n> Queue: \n"@,
            ),
            Err(e) => Err(e),
        },
        Some(PlayableItemView::Episode { name, duration_secs }) => Ok(
            "> Currently playing "@ + name + " \n> Queue: \n"@,
        ),
        None => Ok("> Queue: \n"@),
    }
}

/// The line of an item that waits: a track with its first artist in front,
/// an episode by its name alone.
pub open spec fn waiting_line(item: PlayableItemView) -> Line {
    match item {
        PlayableItemView::Track { name, artists, duration_secs } => match lead_artist(artists) {
            Ok(artist) => Ok("> "@ + artist + " \u{2014} "@ + name + "\n"@),
            Err(e) => Err(e),
        },
        PlayableItemView::Episode { name, duration_secs } => Ok("> "@ + name + "\n"@),
    }
}

/// The lines of the items that wait, in order.
pub open spec fn waiting_lines(items: Seq<PlayableItemView>) -> Seq<Line> {
    Seq::new(items.len(), |i: int| waiting_line(items[i]))
}

/// What follows the queue: the heading and one line for each item that
/// waits, or the error of the first of them that cannot be written.
pub open spec fn listed(queue: QueueView) -> StepView {
    match heading(queue.currently_playing) {
        Err(e) => StepView::Fail(e),
        Ok(head) => match listing(waiting_lines(queue.queue)) {
            Ok(lines) => StepView::Reply(head + lines),
            Err(e) => StepView::Fail(e),
        },
    }
}

/// The next step of `list` after the answers in `replies`.
pub open spec fn next_step(replies: Seq<ResponseView>) -> StepView {
    if replies.len() == 0 {
        StepView::Call(RequestView::CurrentQueue)
    } else {
        match replies[0] {
            ResponseView::Queue(queue) => listed(queue),
            _ => StepView::Fail(setback(replies[0])),
        }
    }
}

fn write_heading(playing: &Option<PlayableItem>) -> (r: Result<String, CommandError>)
    ensures
        outcome(r) == heading(playing.deep_view()),
{
    match playing {
        Some(PlayableItem::Track { name, artists, .. }) => {
            let artist = match first_artist(artists) {
                Ok(artist) => artist,
                Err(e) => {
                    return Err(e);
                },
            };
            let mut head = String::from_str("> Currently playing ");
            head.append(name.as_str());
            head.append(" by ");
            head.append(artist);
            head.append(" \n> Queue: \n");
            Ok(head)
        },
        Some(PlayableItem::Episode { name, .. }) => {
            let mut head = String::from_str("> Currently playing ");
            head.append(name.as_str());
            head.append(" \n> Queue: \n");
            Ok(head)
        },
        None => Ok(String::from_str("> Queue: \n")),
    }
}

fn push_waiting_line(out: &mut String, item: &PlayableItem) -> (r: Result<(), CommandError>)
    ensures
        r is Ok ==> waiting_line(item@) is Ok && final(out)@ == old(out)@ + waiting_line(
            item@,
        )->Ok_0,
        r matches Err(e) ==> waiting_line(item@) is Err && e@ == waiting_line(item@)->Err_0,
{
    match item {
        PlayableItem::Track { name, artists, .. } => {
            let artist = match first_artist(artists) {
                Ok(artist) => artist,
                Err(e) => {
                    return Err(e);
                },
            };
            out.append("> ");
            out.append(artist);
            out.append(" \u{2014} ");
            out.append(name.as_str());
            out.append("\n");
        },
        PlayableItem::Episode { name, .. } => {
            out.append("> ");
            out.append(name.as_str());
            out.append("\n");
        },
    }
    Ok(())
}

/// Writes what is playing and what waits.
pub fn list_queue(queue: &Queue) -> (step: Step)
    ensures
        step@ == listed(queue@),
{
    let mut out = match write_heading(&queue.currently_playing) {
        Ok(head) => head,
        Err(e) => {
            return Step::Fail(e);
        },
    };
    let ghost head = out@;
    let ghost lines = waiting_lines(queue.queue.deep_view());
    let mut i: usize = 0;
    while i < queue.queue.len()
        invariant
            i <= queue.queue.len(),
            lines == waiting_lines(queue.queue.deep_view()),
            joined(lines, i as nat) is Ok,
            out@ == head + joined(lines, i as nat)->Ok_0,
        decreases queue.queue.len() - i,
    {
        proof {
            one_more_line(lines, i as nat);
        }
        match push_waiting_line(&mut out, &queue.queue[i]) {
            Ok(()) => {},
            Err(e) => {
                return Step::Fail(e);
            },
        }
        i += 1;
    }
    Step::Reply(out)
}

/// The handler of `list`. It asks for the queue and replies with its list.
pub fn run(_options: &DecodedOptions, replies: &Vec<Response>) -> (step: Step)
    ensures
        step@ == next_step(replies.deep_view()),
{
    if replies.len() == 0 {
        return Step::Call(Request::CurrentQueue);
    }
    match &replies[0] {
        Response::Queue(queue) => list_queue(queue),
        other => Step::Fail(setback_of(other)),
    }
}

/// What `list` is declared as.
pub open spec fn declared() -> CommandSchemaView {
    CommandSchemaView {
        name: "list"@,
        description: "List current queue"@,
        options: Seq::empty(),
        subcommands: Seq::empty(),
    }
}

/// The schema of `list`: it takes no option.
pub fn register() -> (schema: CommandSchema)
    ensures
        schema@ == declared(),
{
    CommandSchema::new("list", "List current queue")
}

} // verus!
