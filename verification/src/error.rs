use vstd::prelude::*;

verus! {

/// Errors the library's validation can produce before any upstream call is
/// attempted.  Transport failures (an SSE handshake that cannot be opened)
/// belong to the unverified adapter and are not represented here.
#[derive(Clone, Copy, Debug, PartialEq, Eq, Structural)]
pub enum ChatError {
    /// A public model name that is not one of the supported models.
    InvalidModel,
    /// A conversation with no messages: rendering it is undefined, so the
    /// request is rejected instead of sending an empty prompt upstream.
    EmptyMessages,
}

impl ChatError {
    /// A short human-readable reason, for the adapter's error responses.
    pub fn message(&self) -> (r: String)
        ensures
            *self == ChatError::InvalidModel ==> r@ == "invalid model"@,
            *self == ChatError::EmptyMessages ==> r@ == "empty messages"@,
    {
        match self {
            ChatError::InvalidModel => "invalid model".to_owned(),
            ChatError::EmptyMessages => "empty messages".to_owned(),
        }
    }
}

} // verus!
