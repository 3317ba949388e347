use vstd::prelude::*;

verus! {

/// What went wrong while asking the online map service for a location: the
/// collaborator that performs the request reduces its transport, decoding
/// and parsing failures to this one message-carrying error.
pub struct OnlineMapError {
    message: String,
}

impl OnlineMapError {
    /// The message carried.
    pub closed spec fn spec_message(&self) -> Seq<char> {
        self.message.view()
    }

    pub fn new(message: String) -> (r: Self)
        ensures
            r.spec_message() == message.view(),
    {
        OnlineMapError { message }
    }

    pub fn message(&self) -> (r: &String)
        ensures
            r.view() == self.spec_message(),
    {
        &self.message
    }
}

} // verus!
