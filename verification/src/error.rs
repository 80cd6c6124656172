//! The error that a handler returns to its caller, and the exit codes it can
//! carry.

use vstd::prelude::*;
use crate::encoding::{IpldBlock, IpldBlockView, option_block_view};

verus! {

/// Exit code: the caller may not perform the operation.
pub const USR_FORBIDDEN: u32 = 18;

/// Exit code: the actor's own state is not valid.
pub const USR_ILLEGAL_STATE: u32 = 20;

/// Exit code: data could not be encoded or decoded.
pub const USR_SERIALIZATION: u32 = 21;

/// Exit code: a condition that the operation depends on does not hold.
pub const USR_ASSERTION_FAILED: u32 = 24;

/// Why a handler failed: the exit code for the caller, a message, and the data
/// that a failed callee returned, if any.
#[derive(Clone, Debug, PartialEq, Eq)]
pub struct ActorError {
    pub exit_code: u32,
    pub msg: String,
    pub data: Option<IpldBlock>,
}

/// What an [`ActorError`] holds.
pub struct ActorErrorView {
    pub exit_code: u32,
    pub msg: Seq<char>,
    pub data: Option<IpldBlockView>,
}

impl ActorErrorView {
    /// An error with the given code and message and no data.
    pub open spec fn plain(exit_code: u32, msg: Seq<char>) -> ActorErrorView {
        ActorErrorView { exit_code, msg, data: None }
    }

    /// The same error, its message prefixed with `context` and `": "`.
    pub open spec fn with_context(self, context: Seq<char>) -> ActorErrorView {
        ActorErrorView { exit_code: self.exit_code, msg: context + ": "@ + self.msg, data: self.data }
    }
}

impl View for ActorError {
    type V = ActorErrorView;

    open spec fn view(&self) -> ActorErrorView {
        ActorErrorView {
            exit_code: self.exit_code,
            msg: self.msg@,
            data: option_block_view(self.data),
        }
    }
}

impl ActorError {
    /// An error with the given exit code and message, without data.
    pub fn unchecked(exit_code: u32, msg: String) -> (e: ActorError)
        ensures
            e@ == ActorErrorView::plain(exit_code, msg@),
    {
        ActorError { exit_code, msg, data: None }
    }

    /// Says which step failed: the message becomes `context`, `": "` and the
    /// old message. Exit code and data stay.
    pub fn context(self, context: &str) -> (e: ActorError)
        ensures
            e@ == self@.with_context(context@),
    {
        let msg = String::from_str(context).concat(": ").concat(self.msg.as_str());
        ActorError { exit_code: self.exit_code, msg, data: self.data }
    }
}

} // verus!
