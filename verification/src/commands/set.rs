//! `set`: changes a setting of playback. Each setting is a sub-command with
//! one option of its own: `repeat` and `shuffle` take a boolean, `volume`
//! takes a level from 0 to 100.

use crate::error::{CommandError, ErrorView};
use crate::options::{
    bool_at, bool_from_value, int_at, int_from_value, out_of_range_error, DecodedOptions,
};
use crate::schema::{
    CommandSchema, CommandSchemaView, OptionSchema, OptionSchemaView, OptionType,
    SubcommandSchemaView, ValueView,
};
use crate::service::{
    call_once, one_call, RepeatState, Request, RequestView, Response, ResponseView, Step,
    StepView,
};
use crate::text::{push_decimal, same_text, signed_decimal};
use vstd::prelude::*;

verus! {

/// The error for a sub-command that `set` does not have.
pub open spec fn unknown_setting() -> ErrorView {
    ErrorView::InvalidArgument("Unknown subcommand"@)
}

/// The steps of `set repeat`: repeat is switched to the context where it is
/// switched on.
pub open spec fn repeat_step(options: Seq<Option<ValueView>>, replies: Seq<ResponseView>)
    -> StepView {
    match bool_at(options, 0, None) {
        Err(e) => StepView::Fail(e),
        Ok(on) => if on {
            one_call(
                RequestView::Repeat { state: RepeatState::Context },
                replies,
                "Set repeat to on"@,
            )
        } else {
            one_call(
                RequestView::Repeat { state: RepeatState::Off },
                replies,
                "Set repeat to off"@,
            )
        },
    }
}

/// The steps of `set shuffle`.
pub open spec fn shuffle_step(options: Seq<Option<ValueView>>, replies: Seq<ResponseView>)
    -> StepView {
    match bool_at(options, 0, None) {
        Err(e) => StepView::Fail(e),
        Ok(on) => one_call(
            RequestView::Shuffle { on },
            replies,
            if on {
                "Set shuffle to true"@
            } else {
                "Set shuffle to false"@
            },
        ),
    }
}

/// The steps of `set volume`: a level outside 0 to 100 is refused before any
/// call is made.
pub open spec fn volume_step(options: Seq<Option<ValueView>>, replies: Seq<ResponseView>)
    -> StepView {
    match int_at(options, 0, None) {
        Err(e) => StepView::Fail(e),
        Ok(level) => if 0 <= level <= 100 {
            one_call(
                RequestView::Volume { percent: level as u8 },
                replies,
                "Set volume to "@ + signed_decimal(level),
            )
        } else {
            StepView::Fail(out_of_range_error())
        },
    }
}

/// The next step of `set` for the sub-command `setting` and its decoded
/// `options` after the answers in `replies`.
pub open spec fn next_step(
    setting: Seq<char>,
    options: Seq<Option<ValueView>>,
    replies: Seq<ResponseView>,
) -> StepView {
    if setting == "repeat"@ {
        repeat_step(options, replies)
    } else if setting == "shuffle"@ {
        shuffle_step(options, replies)
    } else if setting == "volume"@ {
        volume_step(options, replies)
    } else {
        StepView::Fail(unknown_setting())
    }
}

fn set_repeat(options: &DecodedOptions, replies: &Vec<Response>) -> (step: Step)
    ensures
        step@ == repeat_step(options.deep_view(), replies.deep_view()),
{
    match bool_from_value(options, 0, None) {
        Err(e) => Step::Fail(e),
        Ok(true) => call_once(
            Request::Repeat { state: RepeatState::Context },
            replies,
            "Set repeat to on",
        ),
        Ok(false) => call_once(
            Request::Repeat { state: RepeatState::Off },
            replies,
            "Set repeat to off",
        ),
    }
}

fn set_shuffle(options: &DecodedOptions, replies: &Vec<Response>) -> (step: Step)
    ensures
        step@ == shuffle_step(options.deep_view(), replies.deep_view()),
{
    match bool_from_value(options, 0, None) {
        Err(e) => Step::Fail(e),
        Ok(on) => call_once(
            Request::Shuffle { on },
            replies,
            if on {
                "Set shuffle to true"
            } else {
                "Set shuffle to false"
            },
        ),
    }
}

fn set_volume(options: &DecodedOptions, replies: &Vec<Response>) -> (step: Step)
    ensures
        step@ == volume_step(options.deep_view(), replies.deep_view()),
{
    match int_from_value(options, 0, None) {
        Err(e) => Step::Fail(e),
        Ok(level) => {
            if level < 0 || level > 100 {
                return Step::Fail(CommandError::invalid("value out of range"));
            }
            let mut message = String::from_str("Set volume to ");
            push_decimal(&mut message, level as u64);
            call_once(Request::Volume { percent: level as u8 }, replies, message.as_str())
        },
    }
}

/// The handler of `set`. `setting` names the sub-command, `options` are the
/// decoded options of that sub-command.
pub fn run(setting: &str, options: &DecodedOptions, replies: &Vec<Response>) -> (step: Step)
    ensures
        step@ == next_step(setting@, options.deep_view(), replies.deep_view()),
{
    if same_text(setting, "repeat") {
        set_repeat(options, replies)
    } else if same_text(setting, "shuffle") {
        set_shuffle(options, replies)
    } else if same_text(setting, "volume") {
        set_volume(options, replies)
    } else {
        Step::Fail(CommandError::invalid("Unknown subcommand"))
    }
}

/// The one option of `repeat` and of `shuffle`.
pub open spec fn switch_option() -> OptionSchemaView {
    OptionSchemaView {
        name: "bool"@,
        description: "true/false"@,
        kind: OptionType::Boolean,
        required: true,
        default: None,
        allowed_values: None,
        allowed_range: None,
    }
}

/// The one option of `volume`.
pub open spec fn level_option() -> OptionSchemaView {
    OptionSchemaView {
        name: "level"@,
        description: "0 to 100"@,
        kind: OptionType::Integer,
        required: true,
        default: None,
        allowed_values: None,
        allowed_range: Some((0, 100)),
    }
}

/// The sub-commands of `set`.
pub open spec fn declared_subcommands() -> Seq<SubcommandSchemaView> {
    seq![
        SubcommandSchemaView {
            name: "repeat"@,
            description: "enable or disable repeat"@,
            options: seq![switch_option()],
        },
        SubcommandSchemaView {
            name: "shuffle"@,
            description: "enable or disable shuffle"@,
            options: seq![switch_option()],
        },
        SubcommandSchemaView {
            name: "volume"@,
            description: "set volume"@,
            options: seq![level_option()],
        },
    ]
}

fn switch_options() -> (options: Vec<OptionSchema>)
    ensures
        options.deep_view() == seq![switch_option()],
{
    let mut options: Vec<OptionSchema> = Vec::new();
    options.push(OptionSchema::new("bool", "true/false", OptionType::Boolean).required(true));
    assert(options.deep_view() =~= seq![switch_option()]);
    options
}

fn level_options() -> (options: Vec<OptionSchema>)
    ensures
        options.deep_view() == seq![level_option()],
{
    let mut options: Vec<OptionSchema> = Vec::new();
    options.push(
        OptionSchema::new("level", "0 to 100", OptionType::Integer).required(true).with_range(
            0,
            100,
        ),
    );
    assert(options.deep_view() =~= seq![level_option()]);
    options
}

/// What `set` is declared as.
pub open spec fn declared() -> CommandSchemaView {
    CommandSchemaView {
        name: "set"@,
        description: "Change settings for spotify music"@,
        options: Seq::empty(),
        subcommands: declared_subcommands(),
    }
}

/// The schema of `set`: no option of its own, and the three sub-commands.
pub fn register() -> (schema: CommandSchema)
    ensures
        schema@ == declared(),
{
    let schema = CommandSchema::new("set", "Change settings for spotify music").subcommand(
        "repeat",
        "enable or disable repeat",
        switch_options(),
    ).subcommand("shuffle", "enable or disable shuffle", switch_options()).subcommand(
        "volume",
        "set volume",
        level_options(),
    );
    assert(schema@.subcommands =~= declared_subcommands());
    schema
}

} // verus!
