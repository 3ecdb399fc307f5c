//! `skip`: goes on to the next track, once or several times.

use crate::options::{int_at, int_from_value, DecodedOptions};
use crate::schema::{
    CommandSchema, CommandSchemaView, OptionSchema, OptionSchemaView, OptionType, ValueView,
};
use crate::service::{
    setback, setback_of, Request, RequestView, Response, ResponseView, Step, StepView,
};
use vstd::prelude::*;

verus! {

/// Skips `count` tracks, one call for each, from the `k`-th call on. The
/// answer to the `k`-th call stands at position `k` of `replies`. An answer
/// that is no success ends the invocation with its error; the reply follows
/// the last call.
pub open spec fn skip_from(count: int, replies: Seq<ResponseView>, k: nat) -> StepView
    decreases count - k,
{
    if k >= count {
        StepView::Reply("Skipped tracks"@)
    } else if replies.len() <= k {
        StepView::Call(RequestView::NextTrack)
    } else {
        match replies[k as int] {
            ResponseView::Done => skip_from(count, replies, k + 1),
            _ => StepView::Fail(setback(replies[k as int])),
        }
    }
}

/// The next step of `skip` for the decoded `options` after the answers in
/// `replies`. Where no count is given, one track is skipped.
pub open spec fn next_step(options: Seq<Option<ValueView>>, replies: Seq<ResponseView>)
    -> StepView {
    match int_at(options, 0, Some(1)) {
        Err(e) => StepView::Fail(e),
        Ok(count) => skip_from(count, replies, 0),
    }
}

/// Skipping ends at the latest once there is an answer for each of the
/// `count` calls.
pub proof fn skip_ends(count: int, replies: Seq<ResponseView>, k: nat)
    requires
        replies.len() >= count,
    ensures
        !(skip_from(count, replies, k) is Call),
    decreases count - k,
{
    if k < count {
        skip_ends(count, replies, k + 1);
    }
}

/// Once skipping has ended, with the reply or with an error, answers that
/// are handed in afterwards change nothing.
pub proof fn ended_skip_stays(
    count: int,
    replies: Seq<ResponseView>,
    more: Seq<ResponseView>,
    k: nat,
)
    requires
        !(skip_from(count, replies, k) is Call),
    ensures
        skip_from(count, replies + more, k) == skip_from(count, replies, k),
    decreases count - k,
{
    if k < count && replies.len() > k {
        assert((replies + more)[k as int] == replies[k as int]);
        if replies[k as int] is Done {
            ended_skip_stays(count, replies, more, k + 1);
        }
    }
}

/// Once `skip` has ended the invocation, with the reply or with an error,
/// answers that are handed in afterwards change nothing.
pub proof fn ended_stays(
    options: Seq<Option<ValueView>>,
    replies: Seq<ResponseView>,
    more: Seq<ResponseView>,
)
    requires
        !(next_step(options, replies) is Call),
    ensures
        next_step(options, replies + more) == next_step(options, replies),
{
    match int_at(options, 0, Some(1)) {
        Ok(count) => ended_skip_stays(count, replies, more, 0),
        Err(_) => {},
    }
}

/// Whether `k` calls are fewer than `count`.
fn fewer(k: usize, count: i64) -> (r: bool)
    ensures
        r == (k < count),
{
    count > 0 && (k as u64) < (count as u64)
}

/// Finds how far skipping `count` tracks has come, given the answers in
/// `replies`, and says what is next.
pub fn skip_tracks(count: i64, replies: &Vec<Response>) -> (step: Step)
    ensures
        step@ == skip_from(count as int, replies.deep_view(), 0),
{
    let mut k: usize = 0;
    while k < replies.len() && fewer(k, count)
        invariant
            k <= replies.len(),
            skip_from(count as int, replies.deep_view(), 0) == skip_from(
                count as int,
                replies.deep_view(),
                k as nat,
            ),
        decreases replies.len() - k,
    {
        match &replies[k] {
            Response::Done => {},
            other => {
                return Step::Fail(setback_of(other));
            },
        }
        k += 1;
    }
    if fewer(k, count) {
        Step::Call(Request::NextTrack)
    } else {
        Step::Reply(String::from_str("Skipped tracks"))
    }
}

/// The handler of `skip`. It asks for the next track as many times as the
/// count says.
pub fn run(options: &DecodedOptions, replies: &Vec<Response>) -> (step: Step)
    ensures
        step@ == next_step(options.deep_view(), replies.deep_view()),
{
    match int_from_value(options, 0, Some(1)) {
        Ok(count) => skip_tracks(count, replies),
        Err(e) => Step::Fail(e),
    }
}

/// The options of `skip`: how many tracks to skip, from 1 to 10.
pub open spec fn declared_options() -> Seq<OptionSchemaView> {
    seq![
        OptionSchemaView {
            name: "count"@,
            description: "Number of songs to skip"@,
            kind: OptionType::Integer,
            required: false,
            default: None,
            allowed_values: None,
            allowed_range: Some((1, 10)),
        },
    ]
}

/// What `skip` is declared as.
pub open spec fn declared() -> CommandSchemaView {
    CommandSchemaView {
        name: "skip"@,
        description: "Skip to next song"@,
        options: declared_options(),
        subcommands: Seq::empty(),
    }
}

/// The schema of `skip`.
pub fn register() -> (schema: CommandSchema)
    ensures
        schema@ == declared(),
{
    let schema = CommandSchema::new("skip", "Skip to next song").option(
        OptionSchema::new("count", "Number of songs to skip", OptionType::Integer).with_range(
            1,
            10,
        ),
    );
    assert(schema@.options =~= declared_options());
    schema
}

} // verus!
