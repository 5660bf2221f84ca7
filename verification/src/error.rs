//! The failure taxonomy of a fetch.

use vstd::prelude::*;

verus! {

/// A failure that ends one fetch. An absent facet is never one of these: it
/// is an ordinary empty page.
#[derive(Clone, Debug, PartialEq, Eq)]
pub enum Error {
    /// The network or HTTP exchange itself failed.
    Transport { message: String },
    /// A response or a wire string did not have the expected shape.
    Decode { message: String },
}

impl Error {
    /// The text carried by the error, whichever kind it is.
    pub open spec fn spec_message(self) -> Seq<char> {
        match self {
            Error::Transport { message } => message@,
            Error::Decode { message } => message@,
        }
    }

    /// `self` is a transport failure with exactly this text.
    pub open spec fn is_transport_of(self, text: Seq<char>) -> bool {
        self is Transport && self.spec_message() == text
    }

    /// `self` is a decode failure with exactly this text.
    pub open spec fn is_decode_of(self, text: Seq<char>) -> bool {
        self is Decode && self.spec_message() == text
    }

    pub fn transport(text: &str) -> (e: Error)
        ensures
            e.is_transport_of(text@),
    {
        Error::Transport { message: text.to_owned() }
    }

    pub fn decode(text: &str) -> (e: Error)
        ensures
            e.is_decode_of(text@),
    {
        Error::Decode { message: text.to_owned() }
    }

    pub fn is_transport(&self) -> (b: bool)
        ensures
            b == (*self is Transport),
    {
        match self {
            Error::Transport { .. } => true,
            Error::Decode { .. } => false,
        }
    }

    pub fn is_decode(&self) -> (b: bool)
        ensures
            b == (*self is Decode),
    {
        match self {
            Error::Transport { .. } => false,
            Error::Decode { .. } => true,
        }
    }

    pub fn message(&self) -> (text: String)
        ensures
            text@ == self.spec_message(),
    {
        match self {
            Error::Transport { message } => message.clone(),
            Error::Decode { message } => message.clone(),
        }
    }
}

} // verus!
