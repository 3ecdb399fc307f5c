//! Reading the identifier out of a link to something on the music service.
//!
//! A link such as `https://open.spotify.com/track/4y4VO05kYgUTo2bzbox1an?si=1`
//! names its object in its last path segment: what stands in front of the
//! first `?`, if there is one, is the path, and the text behind the last `/`
//! of the path is the segment.

use crate::error::{outcome, CommandError, ErrorView};
use vstd::prelude::*;

verus! {

/// The position just behind the last `/` among the first `n` characters of
/// `s`, or 0 where there is none.
pub open spec fn segment_start(s: Seq<char>, n: nat) -> nat
    decreases n,
{
    if n == 0 {
        0
    } else if s[n - 1] == '/' {
        n
    } else {
        segment_start(s, (n - 1) as nat)
    }
}

/// The first position at or behind `from` at which `s` holds a `?`, or the
/// length of `s` where there is none.
pub open spec fn segment_end(s: Seq<char>, from: nat) -> nat
    decreases s.len() - from,
{
    if from >= s.len() {
        s.len()
    } else if s[from as int] == '?' {
        from
    } else {
        segment_end(s, from + 1)
    }
}

/// The last path segment of `url`: the path ends in front of the first `?`,
/// and its last segment starts behind its last `/`.
pub open spec fn last_segment(url: Seq<char>) -> Seq<char> {
    let end = segment_end(url, 0);
    url.subrange(segment_start(url, end) as int, end as int)
}

/// The error for a link whose last path segment is empty.
pub open spec fn empty_link_error() -> ErrorView {
    ErrorView::InvalidArgument("link holds no identifier"@)
}

/// The identifier that `url` names, or the error where it names none.
pub open spec fn link_id(url: Seq<char>) -> Result<Seq<char>, ErrorView> {
    if last_segment(url).len() == 0 {
        Err(empty_link_error())
    } else {
        Ok(last_segment(url))
    }
}

/// The identifier in a link: the last segment of its path, which ends in
/// front of the first `?`. A link whose last segment is empty is an
/// `InvalidArgument`.
pub fn id_from_url(url: &str) -> (r: Result<&str, CommandError>)
    ensures
        outcome(r) == link_id(url@),
{
    let n = url.unicode_len();
    let mut end: usize = 0;
    while end < n && url.get_char(end) != '?'
        invariant
            end <= n,
            n == url@.len(),
            segment_end(url@, 0) == segment_end(url@, end as nat),
        decreases n - end,
    {
        end += 1;
    }
    let mut start: usize = end;
    while start > 0 && url.get_char(start - 1) != '/'
        invariant
            start <= end <= n,
            n == url@.len(),
            segment_start(url@, end as nat) == segment_start(url@, start as nat),
        decreases start,
    {
        start -= 1;
    }
    if start == end {
        Err(CommandError::invalid("link holds no identifier"))
    } else {
        Ok(url.substring_char(start, end))
    }
}

} // verus!
