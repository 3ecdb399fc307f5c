//! Texts made of one line for each item of a list, where a line may fail to
//! be written: the text is the lines in order, or the error of the first
//! line that fails.

use crate::error::ErrorView;
use vstd::prelude::*;

verus! {

/// One line, or why it cannot be written.
pub type Line = Result<Seq<char>, ErrorView>;

/// The first `n` lines one behind the other, or the error of the first of
/// them that fails.
pub open spec fn joined(lines: Seq<Line>, n: nat) -> Line
    decreases n,
{
    if n == 0 {
        Ok(Seq::empty())
    } else {
        match joined(lines, (n - 1) as nat) {
            Err(e) => Err(e),
            Ok(text) => match lines[n - 1] {
                Err(e) => Err(e),
                Ok(line) => Ok(text + line),
            },
        }
    }
}

/// All the lines one behind the other, or the error of the first that fails.
pub open spec fn listing(lines: Seq<Line>) -> Line {
    joined(lines, lines.len())
}

/// Once the first lines fail, any more of them fail with the same error.
pub proof fn failure_stays(lines: Seq<Line>, n: nat, m: nat)
    requires
        n <= m,
        joined(lines, n) is Err,
    ensures
        joined(lines, m) == joined(lines, n),
    decreases m,
{
    if n < m {
        failure_stays(lines, n, (m - 1) as nat);
    }
}

/// The text grows line by line: with one more line that can be written, the
/// text is the text so far and that line behind it.
pub proof fn one_more_line(lines: Seq<Line>, n: nat)
    requires
        n < lines.len(),
        joined(lines, n) is Ok,
    ensures
        lines[n as int] is Ok ==> joined(lines, n + 1) is Ok,
        lines[n as int] is Ok ==> joined(lines, n + 1)->Ok_0 == joined(lines, n)->Ok_0
            + lines[n as int]->Ok_0,
        lines[n as int] is Err ==> listing(lines) == lines[n as int],
{
    if lines[n as int] is Err {
        assert(joined(lines, n + 1) == lines[n as int]);
        failure_stays(lines, n + 1, lines.len());
    }
}

} // verus!
