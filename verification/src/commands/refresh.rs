//! `reconnect`: hands playback back to the speaker, without starting it.

use crate::options::DecodedOptions;
use crate::schema::{CommandSchema, CommandSchemaView};
use crate::service::{
    call_once, one_call, Request, RequestView, Response, ResponseView, Step, StepView,
};
use vstd::prelude::*;

verus! {

/// The identifier of the speaker.
pub open spec fn speaker() -> Seq<char> {
    "01d8e617c3382c198f44d9418eb65fdef0cc368a"@
}

/// The next step of `reconnect` after the answers in `replies`: the one call
/// where it has not been made yet, then what follows its answer.
pub open spec fn next_step(replies: Seq<ResponseView>) -> StepView {
    one_call(
        RequestView::TransferPlayback { device_id: speaker(), play: Some(false) },
        replies,
        "Playback transfered to speaker"@,
    )
}

/// The handler of `reconnect`: one call that transfers playback to the
/// speaker and leaves it halted or running as it was, then the reply.
pub fn run(_options: &DecodedOptions, replies: &Vec<Response>) -> (step: Step)
    ensures
        step@ == next_step(replies.deep_view()),
{
    call_once(
        Request::TransferPlayback {
            device_id: String::from_str("01d8e617c3382c198f44d9418eb65fdef0cc368a"),
            play: Some(false),
        },
        replies,
        "Playback transfered to speaker",
    )
}

/// What `reconnect` is declared as.
pub open spec fn declared() -> CommandSchemaView {
    CommandSchemaView {
        name: "reconnect"@,
        description: "Reconnect to speaker"@,
        options: Seq::empty(),
        subcommands: Seq::empty(),
    }
}

/// The schema of `reconnect`: it takes no option.
pub fn register() -> (schema: CommandSchema)
    ensures
        schema@ == declared(),
{
    CommandSchema::new("reconnect", "Reconnect to speaker")
}

} // verus!
