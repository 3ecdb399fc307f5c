//! `connect`: hands playback over to a device, the one of the given name or,
//! where no name is given, the first one there is. A name that is no string
//! is refused: it is never taken for no name.

use crate::error::{CommandError, ErrorView};
use crate::options::{optional_str_from_value, optional_text_at, DecodedOptions};
use crate::schema::{
    CommandSchema, CommandSchemaView, OptionSchema, OptionSchemaView, OptionType, ValueView,
};
use crate::service::{
    acknowledge, acknowledged, setback, setback_of, Device, DeviceView, Request, RequestView,
    Response, ResponseView, Step, StepView,
};
use crate::text::same_text;
use vstd::prelude::*;

verus! {

/// The position of the first device at or behind `from` that is called
/// `name`.
pub open spec fn position(devices: Seq<DeviceView>, name: Seq<char>, from: nat) -> Option<nat>
    decreases devices.len() - from,
{
    if from >= devices.len() {
        None
    } else if devices[from as int].name == name {
        Some(from)
    } else {
        position(devices, name, from + 1)
    }
}

/// The position of the device to connect to: the first of the given name
/// where a name is given, the first device where none is.
pub open spec fn target(name: Option<Seq<char>>, devices: Seq<DeviceView>) -> Option<nat> {
    match name {
        Some(name) => position(devices, name, 0),
        None => if devices.len() > 0 {
            Some(0)
        } else {
            None
        },
    }
}

/// The reply once playback is with the device called `name`.
pub open spec fn transferred(name: Seq<char>) -> Seq<char> {
    "Playback transfered to "@ + name
}

/// What follows the list of devices: `NotFound` where there is no device to
/// connect to or it has no identifier, the transfer where it has not been
/// asked for yet, and then what follows its answer.
pub open spec fn after_devices(
    name: Option<Seq<char>>,
    devices: Seq<DeviceView>,
    replies: Seq<ResponseView>,
) -> StepView {
    match target(name, devices) {
        None => StepView::Fail(ErrorView::NotFound("device"@)),
        Some(at) => match devices[at as int].id {
            None => StepView::Fail(ErrorView::NotFound("device id"@)),
            Some(id) => if replies.len() <= 1 {
                StepView::Call(RequestView::TransferPlayback { device_id: id, play: None })
            } else {
                acknowledged(replies[1], transferred(devices[at as int].name))
            },
        },
    }
}

/// The next step of `connect` for the decoded `options` after the answers
/// in `replies`. The first option is the name of the device: a string is
/// the name, an empty slot means that no name is given, and a value of
/// another type ends the invocation with the type mismatch before any call
/// is made.
pub open spec fn next_step(options: Seq<Option<ValueView>>, replies: Seq<ResponseView>)
    -> StepView {
    match optional_text_at(options, 0) {
        Err(e) => StepView::Fail(e),
        Ok(name) => if replies.len() == 0 {
            StepView::Call(RequestView::Devices)
        } else {
            match replies[0] {
                ResponseView::Devices(devices) => after_devices(name, devices, replies),
                _ => StepView::Fail(setback(replies[0])),
            }
        },
    }
}

/// A position that `position` gives lies in the list, holds a device of the
/// name, and no device before it from `from` on has that name.
pub proof fn position_is_first(devices: Seq<DeviceView>, name: Seq<char>, from: nat)
    ensures
        position(devices, name, from) matches Some(at) ==> from <= at < devices.len()
            && devices[at as int].name == name && forall|j: int|
            from <= j < at ==> (#[trigger] devices[j]).name != name,
        position(devices, name, from) is None ==> forall|j: int|
            from <= j < devices.len() ==> (#[trigger] devices[j]).name != name,
    decreases devices.len() - from,
{
    if from < devices.len() && devices[from as int].name != name {
        position_is_first(devices, name, from + 1);
    }
}

fn find_by_name(devices: &Vec<Device>, name: &str) -> (at: Option<usize>)
    ensures
        at matches Some(i) ==> position(devices.deep_view(), name@, 0) == Some(i as nat),
        at is None ==> position(devices.deep_view(), name@, 0) is None,
{
    let mut i: usize = 0;
    while i < devices.len()
        invariant
            i <= devices.len(),
            position(devices.deep_view(), name@, 0) == position(
                devices.deep_view(),
                name@,
                i as nat,
            ),
        decreases devices.len() - i,
    {
        if same_text(devices[i].name.as_str(), name) {
            return Some(i);
        }
        i += 1;
    }
    None
}

/// Picks the device to connect to: the first of the given name, or the
/// first device where no name is given.
pub fn pick(name: Option<&str>, devices: &Vec<Device>) -> (at: Option<usize>)
    ensures
        at matches Some(i) ==> target(name.deep_view(), devices.deep_view()) == Some(i as nat),
        at is None ==> target(name.deep_view(), devices.deep_view()) is None,
{
    match name {
        Some(name) => find_by_name(devices, name),
        None => if devices.len() > 0 {
            Some(0)
        } else {
            None
        },
    }
}

fn connect_to(name: Option<&str>, devices: &Vec<Device>, replies: &Vec<Response>) -> (step: Step)
    ensures
        step@ == after_devices(name.deep_view(), devices.deep_view(), replies.deep_view()),
{
    let at = match pick(name, devices) {
        Some(at) => at,
        None => {
            return Step::Fail(CommandError::not_found("device"));
        },
    };
    proof {
        match name {
            Some(name) => position_is_first(devices.deep_view(), name@, 0),
            None => {},
        }
    }
    let device = &devices[at];
    match &device.id {
        None => Step::Fail(CommandError::not_found("device id")),
        Some(id) => if replies.len() <= 1 {
            Step::Call(Request::TransferPlayback { device_id: id.clone(), play: None })
        } else {
            let mut message = String::from_str("Playback transfered to ");
            message.append(device.name.as_str());
            acknowledge(&replies[1], message.as_str())
        },
    }
}

/// The handler of `connect`. It reads the name, asks for the devices, picks
/// the one to connect to and transfers playback to it. A name that is no
/// string is an `InvalidArgument`, and no call is made for it.
pub fn run(options: &DecodedOptions, replies: &Vec<Response>) -> (step: Step)
    ensures
        step@ == next_step(options.deep_view(), replies.deep_view()),
{
    let name = match optional_str_from_value(options, 0) {
        Ok(name) => name,
        Err(e) => {
            return Step::Fail(e);
        },
    };
    if replies.len() == 0 {
        return Step::Call(Request::Devices);
    }
    match &replies[0] {
        Response::Devices(devices) => connect_to(name, devices, replies),
        other => Step::Fail(setback_of(other)),
    }
}

/// The options of `connect`: the name of the device, which may be left out.
pub open spec fn declared_options() -> Seq<OptionSchemaView> {
    seq![
        OptionSchemaView {
            name: "name"@,
            description: "Name of device to connect to"@,
            kind: OptionType::String,
            required: false,
            default: None,
            allowed_values: None,
            allowed_range: None,
        },
    ]
}

/// What `connect` is declared as.
pub open spec fn declared() -> CommandSchemaView {
    CommandSchemaView {
        name: "connect"@,
        description: "Connect to speaker"@,
        options: declared_options(),
        subcommands: Seq::empty(),
    }
}

/// The schema of `connect`.
pub fn register() -> (schema: CommandSchema)
    ensures
        schema@ == declared(),
{
    let schema = CommandSchema::new("connect", "Connect to speaker").option(
        OptionSchema::new("name", "Name of device to connect to", OptionType::String),
    );
    assert(schema@.options =~= declared_options());
    schema
}

} // verus!
