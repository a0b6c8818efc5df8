//! The error type used throughout the crate.

use vstd::prelude::*;

verus! {

/// What can go wrong between a caller and a compositor instance. Each variant
/// carries a message for the user.
#[derive(Debug, PartialEq, Eq)]
pub enum HyprError {
    /// The runtime directory could not be read.
    Discovery(String),
    /// The environment of the process names no running instance.
    NoDefaultInstance(String),
    /// The command socket is missing or refused the connection.
    Connectivity(String),
    /// Writing the command or reading the response failed.
    Transport(String),
    /// A response arrived but could not be decoded.
    Decode(String),
    /// The compositor answered that the command failed.
    Internal(String),
}

/// The mathematical value of a [`HyprError`].
pub enum HyprErrorView {
    Discovery(Seq<char>),
    NoDefaultInstance(Seq<char>),
    Connectivity(Seq<char>),
    Transport(Seq<char>),
    Decode(Seq<char>),
    Internal(Seq<char>),
}

impl View for HyprError {
    type V = HyprErrorView;

    open spec fn view(&self) -> HyprErrorView {
        match self {
            HyprError::Discovery(m) => HyprErrorView::Discovery(m@),
            HyprError::NoDefaultInstance(m) => HyprErrorView::NoDefaultInstance(m@),
            HyprError::Connectivity(m) => HyprErrorView::Connectivity(m@),
            HyprError::Transport(m) => HyprErrorView::Transport(m@),
            HyprError::Decode(m) => HyprErrorView::Decode(m@),
            HyprError::Internal(m) => HyprErrorView::Internal(m@),
        }
    }
}

impl Clone for HyprError {
    fn clone(&self) -> (r: Self)
        ensures
            r@ == self@,
    {
        match self {
            HyprError::Discovery(m) => HyprError::Discovery(m.clone()),
            HyprError::NoDefaultInstance(m) => HyprError::NoDefaultInstance(m.clone()),
            HyprError::Connectivity(m) => HyprError::Connectivity(m.clone()),
            HyprError::Transport(m) => HyprError::Transport(m.clone()),
            HyprError::Decode(m) => HyprError::Decode(m.clone()),
            HyprError::Internal(m) => HyprError::Internal(m.clone()),
        }
    }
}

impl HyprError {
    /// The message that the error carries.
    pub fn message(&self) -> (r: &String)
        ensures
            r@ == self.spec_message(),
    {
        match self {
            HyprError::Discovery(m) => m,
            HyprError::NoDefaultInstance(m) => m,
            HyprError::Connectivity(m) => m,
            HyprError::Transport(m) => m,
            HyprError::Decode(m) => m,
            HyprError::Internal(m) => m,
        }
    }

    /// The message that the error carries.
    pub open spec fn spec_message(&self) -> Seq<char> {
        match self {
            HyprError::Discovery(m) => m@,
            HyprError::NoDefaultInstance(m) => m@,
            HyprError::Connectivity(m) => m@,
            HyprError::Transport(m) => m@,
            HyprError::Decode(m) => m@,
            HyprError::Internal(m) => m@,
        }
    }
}

} // verus!
