//! `resume`: takes playback up again.

use crate::options::DecodedOptions;
use crate::schema::{CommandSchema, CommandSchemaView};
use crate::service::{
    call_once, one_call, Request, RequestView, Response, ResponseView, Step, StepView,
};
use vstd::prelude::*;

verus! {

/// The next step of `resume` after the answers in `replies`: the one call
/// where it has not been made yet, then what follows its answer.
pub open spec fn next_step(replies: Seq<ResponseView>) -> StepView {
    one_call(RequestView::Resume, replies, "Playback resumed"@)
}

/// The handler of `resume`: one call that takes playback up again, then the
/// reply.
pub fn run(_options: &DecodedOptions, replies: &Vec<Response>) -> (step: Step)
    ensures
        step@ == next_step(replies.deep_view()),
{
    call_once(Request::Resume, replies, "Playback resumed")
}

/// What `resume` is declared as.
pub open spec fn declared() -> CommandSchemaView {
    CommandSchemaView {
        name: "resume"@,
        description: "Resume playback"@,
        options: Seq::empty(),
        subcommands: Seq::empty(),
    }
}

/// The schema of `resume`: it takes no option.
pub fn register() -> (schema: CommandSchema)
    ensures
        schema@ == declared(),
{
    CommandSchema::new("resume", "Resume playback")
}

} // verus!
