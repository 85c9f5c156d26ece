//! The failure of a read or a write on the channel, as a value.

use vstd::prelude::*;

verus! {

/// A read or a write on the channel that failed, with the reason in words.
#[derive(Debug, Clone)]
pub struct IoError {
    /// The reason, as the layer below gave it, wrapped by each layer that
    /// passed it on.
    pub message: String,
}

/// `context`, then the reason in round brackets.
pub open spec fn wrapped_message(context: Seq<char>, cause: Seq<char>) -> Seq<char> {
    context + " ("@ + cause + ")"@
}

impl IoError {
    /// A failure with `message` as its reason.
    pub fn new(message: String) -> (e: IoError)
        ensures
            e.message@ == message@,
    {
        IoError { message }
    }

    /// A failure that says `context` and keeps `cause` in round brackets
    /// behind it.
    pub fn wrap(context: &str, cause: &str) -> (e: IoError)
        ensures
            e.message@ == wrapped_message(context@, cause@),
    {
        let mut message = context.to_owned();
        message.append(" (");
        message.append(cause);
        message.append(")");
        IoError { message }
    }

    /// The reason in words.
    pub fn to_string(&self) -> (s: String)
        ensures
            s@ == self.message@,
    {
        self.message.clone()
    }
}

} // verus!
