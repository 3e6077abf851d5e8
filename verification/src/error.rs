//! The one error type of the crate.

use vstd::prelude::*;

verus! {

/// The outside step during which a failure was reported.
#[derive(Clone, Copy, Debug, PartialEq, Eq, Structural)]
pub enum Step {
    /// Building the network client.
    CreateClient,
    /// A read-only run of a method on the local copy of the account.
    RunLocal,
    /// Reading a key pair from a key file.
    ReadKeys,
    /// Deriving a key pair from a mnemonic phrase.
    DeriveKeys,
    /// Encoding and signing the inbound message.
    CreateMessage,
    /// Decoding the call held in a message body.
    DecodeBody,
    /// Sending a message and waiting for the transaction.
    ProcessMessage,
    /// Creating the file that takes a generated message.
    CreateFile,
    /// Writing a generated message to its file.
    WriteFile,
}

/// What went wrong, by origin.
#[derive(Clone, Copy, Debug, PartialEq, Eq, Structural)]
pub enum ErrorKind {
    /// An argument given by the user is malformed.
    Input,
    /// A stored message is not a JSON document.
    Parse,
    /// A stored message lacks a field, or holds one of the wrong type.
    Schema,
    /// Hexadecimal or base64 text does not decode, or decodes to the wrong
    /// number of bytes.
    Decode,
    /// A collaborator failed during the given step.
    Collaborator(Step),
}

/// A failure: its kind and the text shown to the user.
#[derive(Clone, Debug, PartialEq, Eq)]
pub struct CallError {
    pub kind: ErrorKind,
    pub message: String,
}

/// The mathematical value of a [`CallError`].
pub struct CallErrorView {
    pub kind: ErrorKind,
    pub message: Seq<char>,
}

impl View for CallError {
    type V = CallErrorView;

    open spec fn view(&self) -> CallErrorView {
        CallErrorView { kind: self.kind, message: self.message@ }
    }
}

impl CallError {
    /// An error of the given kind with the given text.
    pub fn new(kind: ErrorKind, message: String) -> (e: CallError)
        ensures
            e@ == (CallErrorView { kind, message: message@ }),
    {
        CallError { kind, message }
    }

    /// The text shown to the user.
    pub fn to_text(&self) -> (s: String)
        ensures
            s@ == self@.message,
    {
        self.message.clone()
    }
}

} // verus!
