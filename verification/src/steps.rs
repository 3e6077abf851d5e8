//! What passes between an operation and the driver that runs it.
//!
//! A [`Turn`] is what the driver is handed: lines to print and a
//! [`Request`] to carry out. A [`Reply`] is what it hands back.

use vstd::prelude::*;
use vstd::string::*;
use serde_json::Value;
use crate::envelope::{EncodedMessage, EncodedMessageView};
use crate::error::{CallError, CallErrorView};
use crate::json::{
    json_null,
    json_set_member,
    json_text,
    json_to_string,
    json_tree,
    json_unsigned,
    JsonNumber,
    JsonTree,
};
use crate::keys::KeyPair;
use crate::text::{optional_text, text_views};

verus! {

/// How the network client is set up. Times are in milliseconds.
#[derive(Clone, Debug, PartialEq, Eq)]
pub struct ClientSettings {
    /// The address of the node.
    pub base_url: String,
    /// How often a message is sent again.
    pub message_retries_count: u8,
    /// How long a message is valid where its header sets no time of expiry.
    pub message_expiration_timeout: u32,
    /// How long a transaction is waited for.
    pub message_processing_timeout: u32,
    /// By how much both times grow from one attempt to the next, in
    /// hundredths.
    pub timeout_grow_percent: u32,
}

/// What the driver is asked to do.
#[derive(Debug, PartialEq, Eq)]
pub enum Request {
    /// Build the network client with these settings.
    CreateClient { settings: ClientSettings },
    /// Resolve the address of the contract.
    ParseAddress { address: String },
    /// Run the method on the local copy of the account.
    RunLocal { abi: String, method: String, params: String },
    /// Read a key pair from the file `path`.
    ReadKeys { path: String },
    /// Derive a key pair from the phrase.
    DeriveKeys { phrase: String },
    /// Encode the call as a message, signed where there are keys.
    CreateMessage {
        abi: String,
        method: String,
        header: Option<String>,
        params: String,
        keys: Option<KeyPair>,
    },
    /// Decode the call that the body of a message holds.
    DecodeBody { abi: String, body: Vec<u8> },
    /// Send the message and wait for the transaction.
    ProcessMessage { message: EncodedMessage, abi: String, method: String },
    /// Create the file `path`.
    CreateFile { path: String },
    /// Write `text` to the file that was created.
    WriteFile { text: String },
    /// End the operation with this outcome.
    Finish { outcome: Result<(), CallError> },
}

/// One turn of the driver: the lines to print, then the request to carry
/// out.
#[derive(Debug, PartialEq, Eq)]
pub struct Turn {
    pub lines: Vec<String>,
    pub request: Request,
}

/// What the driver reports of a request.
#[derive(Debug, PartialEq, Eq)]
pub enum Reply {
    /// The request was carried out and has nothing to hand back.
    Done,
    /// The request failed, with the collaborator's own message.
    Failed(String),
    /// The key pair that was read from the key file.
    Keys(KeyPair),
    /// The two halves of the derived key pair, in hexadecimal text.
    HexKeys { public: String, secret: String },
    /// The encoded message.
    Message(EncodedMessage),
    /// The result of a run or of a transaction.
    Output(Value),
    /// The call that a message body holds: the method and its parameters.
    Body { function: String, output: Value },
}

/// The mathematical value of a [`ClientSettings`].
pub struct ClientSettingsView {
    pub base_url: Seq<char>,
    pub message_retries_count: u8,
    pub message_expiration_timeout: u32,
    pub message_processing_timeout: u32,
    pub timeout_grow_percent: u32,
}

/// The mathematical value of a [`Request`].
pub enum RequestView {
    CreateClient { settings: ClientSettingsView },
    ParseAddress { address: Seq<char> },
    RunLocal { abi: Seq<char>, method: Seq<char>, params: Seq<char> },
    ReadKeys { path: Seq<char> },
    DeriveKeys { phrase: Seq<char> },
    CreateMessage {
        abi: Seq<char>,
        method: Seq<char>,
        header: Option<Seq<char>>,
        params: Seq<char>,
        keys: Option<Seq<u8>>,
    },
    DecodeBody { abi: Seq<char>, body: Seq<u8> },
    ProcessMessage { message: EncodedMessageView, abi: Seq<char>, method: Seq<char> },
    CreateFile { path: Seq<char> },
    WriteFile { text: Seq<char> },
    Finish { outcome: Result<(), CallErrorView> },
}

/// The mathematical value of a [`Turn`].
pub struct TurnView {
    pub lines: Seq<Seq<char>>,
    pub request: RequestView,
}

/// The mathematical value of a [`Reply`].
pub enum ReplyView {
    Done,
    Failed(Seq<char>),
    Keys(Seq<u8>),
    HexKeys { public: Seq<char>, secret: Seq<char> },
    Message(EncodedMessageView),
    Output(JsonTree),
    Body { function: Seq<char>, output: JsonTree },
}

/// The view of a key pair that may be missing.
pub open spec fn maybe_keys(keys: Option<KeyPair>) -> Option<Seq<u8>> {
    match keys {
        Some(pair) => Some(pair@),
        None => None,
    }
}

/// The view of an outcome.
pub open spec fn outcome_view(outcome: Result<(), CallError>) -> Result<(), CallErrorView> {
    match outcome {
        Ok(_) => Ok(()),
        Err(e) => Err(e@),
    }
}

impl View for ClientSettings {
    type V = ClientSettingsView;

    open spec fn view(&self) -> ClientSettingsView {
        ClientSettingsView {
            base_url: self.base_url@,
            message_retries_count: self.message_retries_count,
            message_expiration_timeout: self.message_expiration_timeout,
            message_processing_timeout: self.message_processing_timeout,
            timeout_grow_percent: self.timeout_grow_percent,
        }
    }
}

impl View for Request {
    type V = RequestView;

    open spec fn view(&self) -> RequestView {
        match self {
            Request::CreateClient { settings } => RequestView::CreateClient {
                settings: settings@,
            },
            Request::ParseAddress { address } => RequestView::ParseAddress { address: address@ },
            Request::RunLocal { abi, method, params } => RequestView::RunLocal {
                abi: abi@,
                method: method@,
                params: params@,
            },
            Request::ReadKeys { path } => RequestView::ReadKeys { path: path@ },
            Request::DeriveKeys { phrase } => RequestView::DeriveKeys { phrase: phrase@ },
            Request::CreateMessage { abi, method, header, params, keys } => {
                RequestView::CreateMessage {
                    abi: abi@,
                    method: method@,
                    header: optional_text(*header),
                    params: params@,
                    keys: maybe_keys(*keys),
                }
            },
            Request::DecodeBody { abi, body } => RequestView::DecodeBody { abi: abi@, body: body@ },
            Request::ProcessMessage { message, abi, method } => RequestView::ProcessMessage {
                message: message@,
                abi: abi@,
                method: method@,
            },
            Request::CreateFile { path } => RequestView::CreateFile { path: path@ },
            Request::WriteFile { text } => RequestView::WriteFile { text: text@ },
            Request::Finish { outcome } => RequestView::Finish { outcome: outcome_view(*outcome) },
        }
    }
}

impl View for Turn {
    type V = TurnView;

    open spec fn view(&self) -> TurnView {
        TurnView { lines: text_views(self.lines@), request: self.request@ }
    }
}

impl View for Reply {
    type V = ReplyView;

    open spec fn view(&self) -> ReplyView {
        match self {
            Reply::Done => ReplyView::Done,
            Reply::Failed(detail) => ReplyView::Failed(detail@),
            Reply::Keys(pair) => ReplyView::Keys(pair@),
            Reply::HexKeys { public, secret } => ReplyView::HexKeys {
                public: public@,
                secret: secret@,
            },
            Reply::Message(message) => ReplyView::Message(message@),
            Reply::Output(output) => ReplyView::Output(json_tree(*output)),
            Reply::Body { function, output } => ReplyView::Body {
                function: function@,
                output: json_tree(*output),
            },
        }
    }
}

/// The settings of the client for the node at `url`: a message is sent
/// once and never again, it is valid for 20 seconds, its transaction is
/// waited for as long, and both times would grow by half from one attempt to
/// the next.
pub open spec fn client_settings(url: Seq<char>) -> ClientSettingsView {
    ClientSettingsView {
        base_url: url,
        message_retries_count: 0,
        message_expiration_timeout: 20000,
        message_processing_timeout: 20000,
        timeout_grow_percent: 150,
    }
}

/// The header that makes a message expire at `lifetime`.
pub open spec fn expire_header_tree(lifetime: u32) -> JsonTree {
    JsonTree::Object(
        Map::<Seq<char>, JsonTree>::empty().insert(
            "expire"@,
            JsonTree::Number(JsonNumber::Integer(lifetime as int)),
        ),
    )
}

/// A turn that prints nothing.
pub open spec fn quiet_turn(request: RequestView) -> TurnView {
    TurnView { lines: Seq::<Seq<char>>::empty(), request }
}

/// The header that makes a message expire at `lifetime`, as JSON text.
pub fn expire_header(lifetime: u32) -> (text: String)
    ensures
        text@ == json_text(expire_header_tree(lifetime)),
{
    let mut header = json_null();
    json_set_member(&mut header, "expire", json_unsigned(lifetime));
    json_to_string(&header)
}

/// The settings with which the client for the node at `url` is built.
pub fn create_client(url: String) -> (settings: ClientSettings)
    ensures
        settings@ == client_settings(url@),
{
    ClientSettings {
        base_url: url,
        message_retries_count: 0,
        message_expiration_timeout: 20000,
        message_processing_timeout: 20000,
        timeout_grow_percent: 150,
    }
}

} // verus!
