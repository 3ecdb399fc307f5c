//! `pause`: halts playback.

use crate::options::DecodedOptions;
use crate::schema::{CommandSchema, CommandSchemaView};
use crate::service::{
    call_once, one_call, Request, RequestView, Response, ResponseView, Step, StepView,
};
use vstd::prelude::*;

verus! {

/// The next step of `pause` after the answers in `replies`: the one call
/// where it has not been made yet, then what follows its answer.
pub open spec fn next_step(replies: Seq<ResponseView>) -> StepView {
    one_call(RequestView::Pause, replies, "Playback paused"@)
}

/// The handler of `pause`: one call that halts playback, then the reply.
pub fn run(_options: &DecodedOptions, replies: &Vec<Response>) -> (step: Step)
    ensures
        step@ == next_step(replies.deep_view()),
{
    call_once(Request::Pause, replies, "Playback paused")
}

/// What `pause` is declared as.
pub open spec fn declared() -> CommandSchemaView {
    CommandSchemaView {
        name: "pause"@,
        description: "Pause playback"@,
        options: Seq::empty(),
        subcommands: Seq::empty(),
    }
}

/// The schema of `pause`: it takes no option.
pub fn register() -> (schema: CommandSchema)
    ensures
        schema@ == declared(),
{
    CommandSchema::new("pause", "Pause playback")
}

} // verus!
