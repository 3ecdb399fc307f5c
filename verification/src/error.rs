//! The closed set of failures a command can end in, and the one text each of
//! them is shown as.

use crate::text::{decimal, push_decimal};
use vstd::prelude::*;

verus! {

/// Why a command could not be carried out.
#[derive(Debug, PartialEq, Eq)]
pub enum CommandError {
    /// An argument was supplied but cannot be used; the payload says why.
    InvalidArgument(String),
    /// The required argument at this position was not supplied.
    MissingArgument(usize),
    /// The remote service refused or failed; the payload is its own message.
    RemoteFailure(String),
    /// The named thing does not exist.
    NotFound(String),
    /// No command of this name is known.
    Unsupported(String),
}

/// The mathematical content of a [`CommandError`].
pub enum ErrorView {
    InvalidArgument(Seq<char>),
    MissingArgument(nat),
    RemoteFailure(Seq<char>),
    NotFound(Seq<char>),
    Unsupported(Seq<char>),
}

impl View for CommandError {
    type V = ErrorView;

    open spec fn view(&self) -> ErrorView {
        match *self {
            CommandError::InvalidArgument(reason) => ErrorView::InvalidArgument(reason@),
            CommandError::MissingArgument(index) => ErrorView::MissingArgument(index as nat),
            CommandError::RemoteFailure(message) => ErrorView::RemoteFailure(message@),
            CommandError::NotFound(what) => ErrorView::NotFound(what@),
            CommandError::Unsupported(name) => ErrorView::Unsupported(name@),
        }
    }
}

impl DeepView for CommandError {
    type V = ErrorView;

    open spec fn deep_view(&self) -> ErrorView {
        self@
    }
}

/// The text shown to the user for an error.
pub open spec fn rendered(e: ErrorView) -> Seq<char> {
    match e {
        ErrorView::InvalidArgument(reason) => "Error: invalid argument \u{2014} "@ + reason,
        ErrorView::MissingArgument(index) => "Error: missing required argument "@ + decimal(
            index,
        ),
        ErrorView::RemoteFailure(message) => "Error: "@ + message,
        ErrorView::NotFound(what) => "Error: "@ + what + " not found"@,
        ErrorView::Unsupported(name) => "Error: command '"@ + name + "' is not implemented"@,
    }
}

/// Whether `r` is the failure `e`.
pub open spec fn fails_with<T>(r: Result<T, ErrorView>, e: ErrorView) -> bool {
    r is Err && r->Err_0 == e
}

/// Whether `r` is the success `v`.
pub open spec fn yields<T>(r: Result<T, ErrorView>, v: T) -> bool {
    r is Ok && r->Ok_0 == v
}

/// The content of a result that is a value or a [`CommandError`].
pub open spec fn outcome<T: DeepView>(r: Result<T, CommandError>) -> Result<T::V, ErrorView> {
    match r {
        Ok(value) => Ok(value.deep_view()),
        Err(error) => Err(error@),
    }
}

impl CommandError {
    /// An `InvalidArgument` whose reason is `reason`.
    pub fn invalid(reason: &str) -> (e: CommandError)
        ensures
            e@ == ErrorView::InvalidArgument(reason@),
    {
        CommandError::InvalidArgument(String::from_str(reason))
    }

    /// A `NotFound` for the thing called `what`.
    pub fn not_found(what: &str) -> (e: CommandError)
        ensures
            e@ == ErrorView::NotFound(what@),
    {
        CommandError::NotFound(String::from_str(what))
    }

    /// A `RemoteFailure` carrying the remote client's message unchanged.
    pub fn remote(message: &str) -> (e: CommandError)
        ensures
            e@ == ErrorView::RemoteFailure(message@),
    {
        CommandError::RemoteFailure(String::from_str(message))
    }

    /// An `Unsupported` for the command called `name`.
    pub fn unsupported(name: &str) -> (e: CommandError)
        ensures
            e@ == ErrorView::Unsupported(name@),
    {
        CommandError::Unsupported(String::from_str(name))
    }

    /// A copy with the same content.
    pub fn duplicate(&self) -> (e: CommandError)
        ensures
            e@ == self@,
    {
        match self {
            CommandError::InvalidArgument(reason) => CommandError::InvalidArgument(reason.clone()),
            CommandError::MissingArgument(index) => CommandError::MissingArgument(*index),
            CommandError::RemoteFailure(message) => CommandError::RemoteFailure(message.clone()),
            CommandError::NotFound(what) => CommandError::NotFound(what.clone()),
            CommandError::Unsupported(name) => CommandError::Unsupported(name.clone()),
        }
    }

    /// The user-facing text of this error. Every variant has one, and it is
    /// made of the variant's fixed wording and its payload alone.
    pub fn render(&self) -> (s: String)
        ensures
            s@ == rendered(self@),
    {
        match self {
            CommandError::InvalidArgument(reason) => {
                let mut s = String::from_str("Error: invalid argument \u{2014} ");
                s.append(reason.as_str());
                s
            },
            CommandError::MissingArgument(index) => {
                let mut s = String::from_str("Error: missing required argument ");
                push_decimal(&mut s, *index as u64);
                s
            },
            CommandError::RemoteFailure(message) => {
                let mut s = String::from_str("Error: ");
                s.append(message.as_str());
                s
            },
            CommandError::NotFound(what) => {
                let mut s = String::from_str("Error: ");
                s.append(what.as_str());
                s.append(" not found");
                s
            },
            CommandError::Unsupported(name) => {
                let mut s = String::from_str("Error: command '");
                s.append(name.as_str());
                s.append("' is not implemented");
                s
            },
        }
    }
}

/// Rendering never yields the empty text: every rendering starts with the
/// word `Error`.
pub proof fn rendering_is_never_empty(e: ErrorView)
    ensures
        rendered(e).len() >= 7,
        rendered(e).subrange(0, 5) == "Error"@,
{
    reveal_strlit("Error");
    reveal_strlit("Error: ");
    reveal_strlit("Error: invalid argument \u{2014} ");
    reveal_strlit("Error: missing required argument ");
    reveal_strlit("Error: command '");
    assert(rendered(e).subrange(0, 5) =~= "Error"@);
}

/// The rendering of a remote failure is the remote message behind the fixed
/// prefix, with nothing of the message changed or left out.
pub proof fn remote_message_passes_through(message: Seq<char>)
    ensures
        rendered(ErrorView::RemoteFailure(message)).len() == 7 + message.len(),
        rendered(ErrorView::RemoteFailure(message)).subrange(7, 7 + message.len() as int)
            == message,
{
    reveal_strlit("Error: ");
    assert(rendered(ErrorView::RemoteFailure(message)).subrange(7, 7 + message.len() as int)
        =~= message);
}

impl From<CommandError> for String {
    /// The conversion into text is the rendering.
    fn from(e: CommandError) -> (s: String)
        ensures
            s@ == rendered(e@),
    {
        e.render()
    }
}

impl vstd::std_specs::convert::FromSpecImpl<CommandError> for String {
    /// A string is known by its characters only, so the conversion is stated
    /// by the `ensures` of `from` and not as a function into `String`.
    open spec fn obeys_from_spec() -> bool {
        false
    }

    open spec fn from_spec(e: CommandError) -> String {
        arbitrary()
    }
}

} // verus!
