//! `info`: shows the device that plays.

use crate::error::{CommandError, ErrorView};
use crate::options::DecodedOptions;
use crate::schema::{CommandSchema, CommandSchemaView};
use crate::service::{
    setback, setback_of, Device, DeviceView, Request, RequestView, Response, ResponseView, Step,
    StepView,
};
use vstd::prelude::*;

verus! {

/// The identifier of a device as it is shown, `missing` where it has none.
pub open spec fn shown_id(device: DeviceView, missing: Seq<char>) -> Seq<char> {
    match device.id {
        Some(id) => id,
        None => missing,
    }
}

/// A boolean as it is shown.
pub open spec fn shown_flag(flag: bool) -> Seq<char> {
    if flag {
        "true"@
    } else {
        "false"@
    }
}

/// The card of a device: its name, identifier, whether it is active, and its
/// kind, one indented line each.
pub open spec fn card(device: DeviceView) -> Seq<char> {
    "\n        > Device: "@ + device.name + "\n        > Id: "@ + shown_id(device, "N/A"@)
        + "\n        > Active: "@ + shown_flag(device.is_active) + "\n        > Type: "@
        + device.kind + "\n    "@
}

/// The next step of `info` after the answers in `replies`.
pub open spec fn next_step(replies: Seq<ResponseView>) -> StepView {
    if replies.len() == 0 {
        StepView::Call(RequestView::CurrentPlayback)
    } else {
        match replies[0] {
            ResponseView::Playback(Some(playback)) => StepView::Reply(card(playback.device)),
            ResponseView::Playback(None) => StepView::Fail(ErrorView::NotFound("playback"@)),
            _ => StepView::Fail(setback(replies[0])),
        }
    }
}

/// Writes the card of `device`.
pub fn describe(device: &Device) -> (text: String)
    ensures
        text@ == card(device@),
{
    let mut text = String::from_str("\n        > Device: ");
    text.append(device.name.as_str());
    text.append("\n        > Id: ");
    match &device.id {
        Some(id) => text.append(id.as_str()),
        None => text.append("N/A"),
    }
    text.append("\n        > Active: ");
    text.append(
        if device.is_active {
            "true"
        } else {
            "false"
        },
    );
    text.append("\n        > Type: ");
    text.append(device.kind.as_str());
    text.append("\n    ");
    text
}

/// The handler of `info`. It asks for the state of playback and replies
/// with the card of the device that plays.
pub fn run(_options: &DecodedOptions, replies: &Vec<Response>) -> (step: Step)
    ensures
        step@ == next_step(replies.deep_view()),
{
    if replies.len() == 0 {
        return Step::Call(Request::CurrentPlayback);
    }
    match &replies[0] {
        Response::Playback(Some(playback)) => Step::Reply(describe(&playback.device)),
        Response::Playback(None) => Step::Fail(CommandError::not_found("playback")),
        other => Step::Fail(setback_of(other)),
    }
}

/// What `info` is declared as.
pub open spec fn declared() -> CommandSchemaView {
    CommandSchemaView {
        name: "info"@,
        description: "Show playback device info"@,
        options: Seq::empty(),
        subcommands: Seq::empty(),
    }
}

/// The schema of `info`: it takes no option.
pub fn register() -> (schema: CommandSchema)
    ensures
        schema@ == declared(),
{
    CommandSchema::new("info", "Show playback device info")
}

} // verus!
