use vstd::prelude::*;

verus! {

/// Why an operation of a client did not produce its result.
#[derive(Debug, Clone, Copy, PartialEq, Eq, Structural)]
pub enum Error {
    /// A typed request needs a credential and none was resolved.
    MissingCredential,
    /// The parameters could not be rendered to a query string.
    SerializationError,
    /// The request failed in flight: no reply, or one with a non-success status.
    TransportError,
    /// The body of the reply is not a document of the expected shape.
    DecodeError,
}

impl Error {
    /// The text of the message that describes an error kind.
    pub open spec fn message_text(self) -> Seq<char> {
        match self {
            Error::MissingCredential => "no API key found in the environment"@,
            Error::SerializationError => "the parameters could not be serialized"@,
            Error::TransportError => "the request failed in flight"@,
            Error::DecodeError => "the response could not be decoded"@,
        }
    }

    /// A message for the user, one per kind.
    pub fn message(&self) -> (r: String)
        ensures
            r@ == self.message_text(),
    {
        match self {
            Error::MissingCredential => "no API key found in the environment".to_owned(),
            Error::SerializationError => "the parameters could not be serialized".to_owned(),
            Error::TransportError => "the request failed in flight".to_owned(),
            Error::DecodeError => "the response could not be decoded".to_owned(),
        }
    }
}

} // verus!
