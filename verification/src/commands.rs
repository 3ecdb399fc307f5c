//! One handler for each command. A handler never talks to the remote service
//! itself: given the decoded options and the answers to the calls it has
//! asked for so far, it names the next call, or ends the invocation with a
//! reply or an error. Beside its handler each command declares its schema.

pub mod connect;
pub mod devices;
pub mod info;
pub mod list;
pub mod pause;
pub mod play;
pub mod queue;
pub mod refresh;
pub mod resume;
pub mod search;
pub mod set;
pub mod skip;
pub mod status;
