//! `devices`: lists the devices that can play.

use crate::commands::info::shown_id;
use crate::error::{CommandError, ErrorView};
use crate::listing::{joined, listing, one_more_line, Line};
use crate::options::DecodedOptions;
use crate::schema::{CommandSchema, CommandSchemaView};
use crate::service::{
    setback, setback_of, Device, DeviceView, Request, RequestView, Response, ResponseView, Step,
    StepView,
};
use vstd::prelude::*;

verus! {

/// The two lines of a device: its kind and name, then its identifier.
pub open spec fn device_lines(device: DeviceView) -> Seq<char> {
    "> "@ + device.kind + " "@ + device.name + "\n> Id: "@ + shown_id(device, "NA"@) + "\n"@
}

/// The lines of the devices, in order.
pub open spec fn all_lines(devices: Seq<DeviceView>) -> Seq<Line> {
    Seq::new(devices.len(), |i: int| Ok(device_lines(devices[i])))
}

/// What follows the list of devices: the lines of each, or `NotFound` where
/// the list is empty.
pub open spec fn listed(devices: Seq<DeviceView>) -> StepView {
    if devices.len() == 0 {
        StepView::Fail(ErrorView::NotFound("device"@))
    } else {
        match listing(all_lines(devices)) {
            Ok(text) => StepView::Reply(text),
            Err(e) => StepView::Fail(e),
        }
    }
}

/// The next step of `devices` after the answers in `replies`.
pub open spec fn next_step(replies: Seq<ResponseView>) -> StepView {
    if replies.len() == 0 {
        StepView::Call(RequestView::Devices)
    } else {
        match replies[0] {
            ResponseView::Devices(devices) => listed(devices),
            _ => StepView::Fail(setback(replies[0])),
        }
    }
}

/// The text for the devices is the lines of each of them, none left out:
/// the listing of a list of devices never fails.
pub proof fn every_device_is_listed(devices: Seq<DeviceView>, n: nat)
    requires
        n <= devices.len(),
    ensures
        joined(all_lines(devices), n) is Ok,
    decreases n,
{
    if n > 0 {
        every_device_is_listed(devices, (n - 1) as nat);
    }
}

fn push_device_lines(out: &mut String, device: &Device)
    ensures
        final(out)@ == old(out)@ + device_lines(device@),
{
    out.append("> ");
    out.append(device.kind.as_str());
    out.append(" ");
    out.append(device.name.as_str());
    out.append("\n> Id: ");
    match &device.id {
        Some(id) => out.append(id.as_str()),
        None => out.append("NA"),
    }
    out.append("\n");
}

/// Writes the list of `devices`.
pub fn list_devices(devices: &Vec<Device>) -> (step: Step)
    ensures
        step@ == listed(devices.deep_view()),
{
    if devices.len() == 0 {
        return Step::Fail(CommandError::not_found("device"));
    }
    let ghost lines = all_lines(devices.deep_view());
    let mut out = String::new();
    let mut i: usize = 0;
    while i < devices.len()
        invariant
            i <= devices.len(),
            lines == all_lines(devices.deep_view()),
            joined(lines, i as nat) is Ok,
            out@ == joined(lines, i as nat)->Ok_0,
        decreases devices.len() - i,
    {
        proof {
            one_more_line(lines, i as nat);
        }
        push_device_lines(&mut out, &devices[i]);
        i += 1;
    }
    Step::Reply(out)
}

/// The handler of `devices`. It asks for the devices and replies with their
/// list.
pub fn run(_options: &DecodedOptions, replies: &Vec<Response>) -> (step: Step)
    ensures
        step@ == next_step(replies.deep_view()),
{
    if replies.len() == 0 {
        return Step::Call(Request::Devices);
    }
    match &replies[0] {
        Response::Devices(devices) => list_devices(devices),
        other => Step::Fail(setback_of(other)),
    }
}

/// What `devices` is declared as.
pub open spec fn declared() -> CommandSchemaView {
    CommandSchemaView {
        name: "devices"@,
        description: "List devices"@,
        options: Seq::empty(),
        subcommands: Seq::empty(),
    }
}

/// The schema of `devices`: it takes no option.
pub fn register() -> (schema: CommandSchema)
    ensures
        schema@ == declared(),
{
    CommandSchema::new("devices", "List devices")
}

} // verus!
