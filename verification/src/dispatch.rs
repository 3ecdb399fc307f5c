//! The dispatcher: one pass from an invocation to what the transport has to
//! do next. The command is looked up, its options are decoded, its handler
//! is asked for the next step, and whatever fails on the way is turned into
//! text. Every invocation ends in exactly one text.

use crate::commands;
use crate::commands::set::unknown_setting;
use crate::error::{outcome, rendered, rendering_is_never_empty, CommandError, ErrorView};
use crate::options::{
    decode, decoded, int_at, search_type_at, DecodedOptions, RawOption, RawOptionView,
};
use crate::registry::{found, EntryView, Handler, Registry};
use crate::schema::{
    CommandSchema, CommandSchemaView, SubcommandSchema, SubcommandSchemaView, ValueView,
};
use crate::service::{
    Request, RequestView, Response, ResponseView, SearchResultView, Step, StepView,
};
use crate::text::same_text;
use vstd::prelude::*;

verus! {

/// One inbound request: the name of a command, the name of a sub-command
/// where one is meant, and the options as the transport delivers them.
#[derive(Debug, PartialEq, Eq)]
pub struct Invocation {
    pub name: String,
    pub subcommand: Option<String>,
    pub options: Vec<RawOption>,
}

/// The mathematical content of an [`Invocation`].
pub struct InvocationView {
    pub name: Seq<char>,
    pub subcommand: Option<Seq<char>>,
    pub options: Seq<RawOptionView>,
}

impl View for Invocation {
    type V = InvocationView;

    open spec fn view(&self) -> InvocationView {
        InvocationView {
            name: self.name@,
            subcommand: self.subcommand.deep_view(),
            options: self.options.deep_view(),
        }
    }
}

/// What the transport has to do next for an invocation: have a call made on
/// the remote service and come back with its answer, or send the text and
/// be done.
#[derive(Debug, PartialEq, Eq)]
pub enum Turn {
    Call(Request),
    Say(String),
}

/// The mathematical content of a [`Turn`].
pub enum TurnView {
    Call(RequestView),
    Say(Seq<char>),
}

impl View for Turn {
    type V = TurnView;

    open spec fn view(&self) -> TurnView {
        match *self {
            Turn::Call(request) => TurnView::Call(request@),
            Turn::Say(text) => TurnView::Say(text@),
        }
    }
}

/// The position of the first sub-command at or behind `from` that is called
/// `name`.
pub open spec fn subcommand_position(
    subcommands: Seq<SubcommandSchemaView>,
    name: Seq<char>,
    from: nat,
) -> Option<nat>
    decreases subcommands.len() - from,
{
    if from >= subcommands.len() {
        None
    } else if subcommands[from as int].name == name {
        Some(from)
    } else {
        subcommand_position(subcommands, name, from + 1)
    }
}

/// The decoded options of an invocation of the command declared as `schema`.
/// A command without sub-commands decodes the options against its own
/// declaration and refuses a sub-command; a command with sub-commands needs
/// one of them named and decodes against the declaration of that one.
pub open spec fn arguments(schema: CommandSchemaView, invocation: InvocationView) -> Result<
    Seq<Option<ValueView>>,
    ErrorView,
> {
    if schema.subcommands.len() == 0 {
        match invocation.subcommand {
            Some(_) => Err(unknown_setting()),
            None => decoded(invocation.options, schema.options),
        }
    } else {
        match invocation.subcommand {
            None => Err(ErrorView::MissingArgument(0)),
            Some(name) => match subcommand_position(schema.subcommands, name, 0) {
                None => Err(unknown_setting()),
                Some(at) => decoded(invocation.options, schema.subcommands[at as int].options),
            },
        }
    }
}

/// The sub-command an invocation names, the empty text where it names none.
pub open spec fn setting_of(invocation: InvocationView) -> Seq<char> {
    match invocation.subcommand {
        Some(name) => name,
        None => Seq::empty(),
    }
}

/// The next step that `handler` takes for the decoded `options` after the
/// answers in `replies`.
pub open spec fn handled(
    handler: Handler,
    setting: Seq<char>,
    options: Seq<Option<ValueView>>,
    replies: Seq<ResponseView>,
) -> StepView {
    match handler {
        Handler::Connect => commands::connect::next_step(options, replies),
        Handler::Devices => commands::devices::next_step(replies),
        Handler::Info => commands::info::next_step(replies),
        Handler::List => commands::list::next_step(replies),
        Handler::Pause => commands::pause::next_step(replies),
        Handler::Play => commands::play::next_step(options, replies),
        Handler::Queue => commands::queue::next_step(options, replies),
        Handler::Refresh => commands::refresh::next_step(replies),
        Handler::Resume => commands::resume::next_step(replies),
        Handler::Search => commands::search::next_step(options, replies),
        Handler::Settings => commands::set::next_step(setting, options, replies),
        Handler::Skip => commands::skip::next_step(options, replies),
        Handler::Status => commands::status::next_step(replies),
    }
}

/// What a step of a handler means for the transport: a call is passed on, a
/// reply is sent as it is, an error is sent as its rendering.
pub open spec fn turn_of(step: StepView) -> TurnView {
    match step {
        StepView::Call(request) => TurnView::Call(request),
        StepView::Reply(text) => TurnView::Say(text),
        StepView::Fail(e) => TurnView::Say(rendered(e)),
    }
}

/// What dispatching `invocation` yields after the answers in `replies`.
pub open spec fn dispatched(
    registry: Seq<EntryView>,
    invocation: InvocationView,
    replies: Seq<ResponseView>,
) -> TurnView {
    match found(registry, invocation.name) {
        None => TurnView::Say(rendered(ErrorView::Unsupported(invocation.name))),
        Some(entry) => match arguments(entry.schema, invocation) {
            Err(e) => TurnView::Say(rendered(e)),
            Ok(options) => turn_of(
                handled(entry.handler, setting_of(invocation), options, replies),
            ),
        },
    }
}

/// An unknown command is answered with the rendering of `Unsupported`,
/// whatever its options and whatever answers are handed in: no handler is
/// asked and no call on the remote service is ever made for it.
pub proof fn unknown_command_is_unsupported(
    registry: Seq<EntryView>,
    invocation: InvocationView,
    replies: Seq<ResponseView>,
)
    requires
        found(registry, invocation.name) is None,
    ensures
        dispatched(registry, invocation, replies) == TurnView::Say(
            rendered(ErrorView::Unsupported(invocation.name)),
        ),
{
}

/// Options that do not decode are answered with the rendering of the
/// decoder's error, whatever answers are handed in: no handler is asked and
/// no call on the remote service is ever made for them.
pub proof fn undecodable_options_are_rendered(
    registry: Seq<EntryView>,
    invocation: InvocationView,
    replies: Seq<ResponseView>,
)
    requires
        found(registry, invocation.name) is Some,
        arguments(found(registry, invocation.name)->0.schema, invocation) is Err,
    ensures
        dispatched(registry, invocation, replies) == TurnView::Say(
            rendered(arguments(found(registry, invocation.name)->0.schema, invocation)->Err_0),
        ),
{
}

/// After how many answers `handler` has ended the invocation at the latest.
/// `skip` makes one call for each track; `queue` makes two calls and one
/// more for each entry of the album or playlist that its second answer
/// holds; `connect`, `play` and `status` make up to two calls; every other
/// handler makes one.
pub open spec fn most_calls(
    handler: Handler,
    options: Seq<Option<ValueView>>,
    replies: Seq<ResponseView>,
) -> nat {
    match handler {
        Handler::Skip => match int_at(options, 0, Some(1)) {
            Ok(count) => if count > 0 {
                count as nat
            } else {
                0
            },
            Err(_) => 0,
        },
        Handler::Queue => if replies.len() >= 2 {
            match replies[1] {
                ResponseView::Album(details) => details.tracks.len() + 2,
                ResponseView::Playlist(details) => details.items.len() + 2,
                _ => 2,
            }
        } else {
            2
        },
        Handler::Connect => 2,
        Handler::Play => 2,
        Handler::Status => 2,
        _ => 1,
    }
}

/// A handler has ended the invocation once it has been handed as many
/// answers as it makes calls at the most.
pub proof fn handler_ends(
    handler: Handler,
    setting: Seq<char>,
    options: Seq<Option<ValueView>>,
    replies: Seq<ResponseView>,
)
    requires
        replies.len() >= most_calls(handler, options, replies),
    ensures
        !(handled(handler, setting, options, replies) is Call),
{
    match handler {
        Handler::Skip => match int_at(options, 0, Some(1)) {
            Ok(count) => commands::skip::skip_ends(count, replies, 0),
            Err(_) => {},
        },
        Handler::Queue => {
            if search_type_at(options, 1) is Ok && replies.len() >= 2 {
                let category = search_type_at(options, 1)->Ok_0;
                match (replies[0], replies[1]) {
                    (
                        ResponseView::Found(SearchResultView::Albums(albums)),
                        ResponseView::Album(details),
                    ) => {
                        if albums.len() > 0 {
                            commands::queue::queue_ends(
                                commands::queue::album_entries_of(details.tracks),
                                replies,
                                commands::queue::queued_message(category, albums[0].name),
                                0,
                            );
                        }
                    },
                    (
                        ResponseView::Found(SearchResultView::Playlists(playlists)),
                        ResponseView::Playlist(details),
                    ) => {
                        if playlists.len() > 0 {
                            commands::queue::queue_ends(
                                commands::queue::playlist_entries_of(details.items),
                                replies,
                                commands::queue::queued_message(category, playlists[0].name),
                                0,
                            );
                        }
                    },
                    _ => {},
                }
            }
        },
        _ => {},
    }
}

/// The first `n` of the answers that the transport would hand in, one for
/// each call, however many calls are made.
pub open spec fn first_answers(answers: spec_fn(nat) -> ResponseView, n: nat) -> Seq<
    ResponseView,
> {
    Seq::new(n, |i: int| answers(i as nat))
}

/// Every invocation ends in a text: whatever the answers to its calls are,
/// after some number of them the dispatcher says the text and asks for no
/// further call.
pub proof fn every_invocation_ends(
    registry: Seq<EntryView>,
    invocation: InvocationView,
    answers: spec_fn(nat) -> ResponseView,
) -> (n: nat)
    ensures
        dispatched(registry, invocation, first_answers(answers, n)) is Say,
{
    match found(registry, invocation.name) {
        Some(entry) => match arguments(entry.schema, invocation) {
            Ok(options) => {
                let two = first_answers(answers, 2);
                let bound = most_calls(entry.handler, options, two);
                let n = if bound >= 2 {
                    bound
                } else {
                    2
                };
                let replies = first_answers(answers, n);
                assert(replies[1] == two[1]);
                assert(most_calls(entry.handler, options, replies) == bound);
                handler_ends(entry.handler, setting_of(invocation), options, replies);
                n
            },
            Err(_) => 0,
        },
        None => 0,
    }
}

/// A handler that has ended the invocation, with a reply or with an error,
/// gives the same end whatever answers are handed in afterwards.
pub proof fn ended_handler_stays(
    handler: Handler,
    setting: Seq<char>,
    options: Seq<Option<ValueView>>,
    replies: Seq<ResponseView>,
    more: Seq<ResponseView>,
)
    requires
        !(handled(handler, setting, options, replies) is Call),
    ensures
        handled(handler, setting, options, replies + more) == handled(
            handler,
            setting,
            options,
            replies,
        ),
{
    let longer = replies + more;
    if replies.len() >= 1 {
        assert(longer[0] == replies[0]);
    }
    if replies.len() >= 2 {
        assert(longer[1] == replies[1]);
    }
    match handler {
        Handler::Queue => commands::queue::ended_stays(options, replies, more),
        Handler::Skip => commands::skip::ended_stays(options, replies, more),
        _ => {},
    }
}

/// An invocation that has ended in a text stays ended in that text: answers
/// that are handed in afterwards change nothing.
pub proof fn ended_invocation_stays(
    registry: Seq<EntryView>,
    invocation: InvocationView,
    replies: Seq<ResponseView>,
    more: Seq<ResponseView>,
)
    requires
        dispatched(registry, invocation, replies) is Say,
    ensures
        dispatched(registry, invocation, replies + more) == dispatched(
            registry,
            invocation,
            replies,
        ),
{
    match found(registry, invocation.name) {
        Some(entry) => match arguments(entry.schema, invocation) {
            Ok(options) => ended_handler_stays(
                entry.handler,
                setting_of(invocation),
                options,
                replies,
                more,
            ),
            Err(_) => {},
        },
        None => {},
    }
}

/// What is said at the end of an invocation that fails is never empty.
pub proof fn failure_is_never_silent(e: ErrorView)
    ensures
        turn_of(StepView::Fail(e)) is Say,
        turn_of(StepView::Fail(e))->Say_0.len() > 0,
{
    rendering_is_never_empty(e);
}

fn find_subcommand<'a>(subcommands: &'a Vec<SubcommandSchema>, name: &str) -> (r: Option<
    &'a SubcommandSchema,
>)
    ensures
        r matches Some(sub) ==> subcommand_position(subcommands.deep_view(), name@, 0) is Some
            && sub@ == subcommands.deep_view()[subcommand_position(
            subcommands.deep_view(),
            name@,
            0,
        )->0 as int],
        r is None ==> subcommand_position(subcommands.deep_view(), name@, 0) is None,
{
    let mut i: usize = 0;
    while i < subcommands.len()
        invariant
            i <= subcommands.len(),
            subcommand_position(subcommands.deep_view(), name@, 0) == subcommand_position(
                subcommands.deep_view(),
                name@,
                i as nat,
            ),
        decreases subcommands.len() - i,
    {
        if same_text(subcommands[i].name.as_str(), name) {
            return Some(&subcommands[i]);
        }
        i += 1;
    }
    None
}

/// Decodes the options of `invocation` for the command declared as `schema`.
pub fn decode_arguments(schema: &CommandSchema, invocation: &Invocation) -> (r: Result<
    DecodedOptions,
    CommandError,
>)
    ensures
        outcome(r) == arguments(schema@, invocation@),
{
    if schema.subcommands.len() == 0 {
        match &invocation.subcommand {
            Some(_) => Err(CommandError::invalid("Unknown subcommand")),
            None => decode(&invocation.options, &schema.options),
        }
    } else {
        match &invocation.subcommand {
            None => Err(CommandError::MissingArgument(0)),
            Some(name) => match find_subcommand(&schema.subcommands, name.as_str()) {
                None => Err(CommandError::invalid("Unknown subcommand")),
                Some(sub) => decode(&invocation.options, &sub.options),
            },
        }
    }
}

/// Asks `handler` for its next step.
pub fn handle(
    handler: Handler,
    setting: &str,
    options: &DecodedOptions,
    replies: &Vec<Response>,
) -> (step: Step)
    ensures
        step@ == handled(handler, setting@, options.deep_view(), replies.deep_view()),
{
    match handler {
        Handler::Connect => commands::connect::run(options, replies),
        Handler::Devices => commands::devices::run(options, replies),
        Handler::Info => commands::info::run(options, replies),
        Handler::List => commands::list::run(options, replies),
        Handler::Pause => commands::pause::run(options, replies),
        Handler::Play => commands::play::run(options, replies),
        Handler::Queue => commands::queue::run(options, replies),
        Handler::Refresh => commands::refresh::run(options, replies),
        Handler::Resume => commands::resume::run(options, replies),
        Handler::Search => commands::search::run(options, replies),
        Handler::Settings => commands::set::run(setting, options, replies),
        Handler::Skip => commands::skip::run(options, replies),
        Handler::Status => commands::status::run(options, replies),
    }
}

/// Dispatches an invocation: looks the command up, decodes the options,
/// asks the handler for its next step given the answers so far, and turns
/// any error into text. It never fails: the outcome is a call to make or the
/// one text to send.
pub fn dispatch(registry: &Registry, invocation: &Invocation, replies: &Vec<Response>) -> (turn:
    Turn)
    ensures
        turn@ == dispatched(registry@, invocation@, replies.deep_view()),
{
    let entry = match registry.lookup(invocation.name.as_str()) {
        Some(entry) => entry,
        None => {
            return Turn::Say(CommandError::unsupported(invocation.name.as_str()).render());
        },
    };
    let options = match decode_arguments(&entry.schema, invocation) {
        Ok(options) => options,
        Err(e) => {
            return Turn::Say(e.render());
        },
    };
    let setting = match &invocation.subcommand {
        Some(name) => name.as_str(),
        None => "",
    };
    proof {
        reveal_strlit("");
        assert(""@ =~= Seq::<char>::empty());
    }
    match handle(entry.handler, setting, &options, replies) {
        Step::Call(request) => Turn::Call(request),
        Step::Reply(text) => Turn::Say(text),
        Step::Fail(e) => Turn::Say(e.render()),
    }
}

} // verus!
