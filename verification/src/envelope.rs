//! The JSON document in which a prepared message is kept for later.
//!
//! The document has two members: `method`, the name of the contract method,
//! and `msg`, an object with the members `message_id` (a string),
//! `message_body` (the body as base64 text) and `expire` (a number, or null
//! where the message does not expire).

use vstd::prelude::*;
use vstd::string::*;
use base64::DecodeError;
use serde_json::Value;
use crate::b64::{
    base64_decoded,
    base64_error_text,
    base64_text,
    decode_base64,
    describe_base64_error,
    encode_base64,
};
use crate::error::{CallError, CallErrorView, ErrorKind};
use crate::json::{
    describe_json_error,
    json_as_str,
    json_as_u64,
    json_is_null,
    json_member,
    json_null,
    json_parsed,
    json_set_member,
    json_string,
    json_text,
    json_to_string,
    json_tree,
    json_unsigned,
    parse_json,
    tree_member,
    tree_text,
    tree_unsigned,
    JsonNumber,
    JsonTree,
};
use crate::text::{optional_text, prefixed};

verus! {

/// A message as the encoder hands it out: its identifier, its body and the
/// time after which it is no longer accepted.
#[derive(Clone, Debug, PartialEq, Eq)]
pub struct EncodedMessage {
    pub message_id: String,
    pub message_body: Vec<u8>,
    pub expire: Option<u32>,
}

/// The mathematical value of an [`EncodedMessage`].
pub struct EncodedMessageView {
    pub message_id: Seq<char>,
    pub message_body: Seq<u8>,
    pub expire: Option<u32>,
}

impl View for EncodedMessage {
    type V = EncodedMessageView;

    open spec fn view(&self) -> EncodedMessageView {
        EncodedMessageView {
            message_id: self.message_id@,
            message_body: self.message_body@,
            expire: self.expire,
        }
    }
}

/// Whether two vectors hold the same bytes.
fn same_bytes(a: &Vec<u8>, b: &Vec<u8>) -> (r: bool)
    ensures
        r == (a@ == b@),
{
    if a.len() != b.len() {
        return false;
    }
    let mut i: usize = 0;
    while i < a.len()
        invariant
            i <= a.len(),
            a.len() == b.len(),
            forall|j: int| 0 <= j < i ==> a@[j] == b@[j],
        decreases a.len() - i,
    {
        if a[i] != b[i] {
            return false;
        }
        i = i + 1;
    }
    assert(a@ =~= b@);
    true
}

impl EncodedMessage {
    /// Whether two messages have the same identifier, body and time of
    /// expiry.
    pub fn same_as(&self, other: &EncodedMessage) -> (r: bool)
        ensures
            r == (self@ == other@),
    {
        let same_expire = match (self.expire, other.expire) {
            (Some(a), Some(b)) => a == b,
            (None, None) => true,
            _ => false,
        };
        self.message_id == other.message_id && same_bytes(&self.message_body, &other.message_body)
            && same_expire
    }
}

/// What the `expire` member of a document holds.
#[derive(Clone, Copy, Debug, PartialEq, Eq, Structural)]
pub enum ExpireField {
    /// No such member, or null.
    Absent,
    /// An integer that is not negative and fits 64 bits.
    Unsigned(u64),
    /// Anything else.
    Other,
}

/// What a document holds in the places of the four members.
#[derive(Clone, Debug, PartialEq, Eq)]
pub struct EnvelopeFields {
    /// The member `method`, where it is a string.
    pub method: Option<String>,
    /// The member `message_id` of `msg`, where it is a string.
    pub message_id: Option<String>,
    /// The member `message_body` of `msg`, where it is a string.
    pub message_body: Option<String>,
    /// The member `expire` of `msg`.
    pub expire: ExpireField,
}

/// The mathematical value of [`EnvelopeFields`].
pub struct EnvelopeFieldsView {
    pub method: Option<Seq<char>>,
    pub message_id: Option<Seq<char>>,
    pub message_body: Option<Seq<char>>,
    pub expire: ExpireField,
}

impl View for EnvelopeFields {
    type V = EnvelopeFieldsView;

    open spec fn view(&self) -> EnvelopeFieldsView {
        EnvelopeFieldsView {
            method: optional_text(self.method),
            message_id: optional_text(self.message_id),
            message_body: optional_text(self.message_body),
            expire: self.expire,
        }
    }
}

/// The `expire` member of a message that expires at `expire`, or never.
pub open spec fn expire_tree(expire: Option<u32>) -> JsonTree {
    match expire {
        Some(at) => JsonTree::Number(JsonNumber::Integer(at as int)),
        None => JsonTree::Null,
    }
}

/// The document for a message whose body has the base64 text `body_text`.
pub open spec fn envelope_tree_of(
    message_id: Seq<char>,
    body_text: Seq<char>,
    expire: Option<u32>,
    method: Seq<char>,
) -> JsonTree {
    JsonTree::Object(
        Map::<Seq<char>, JsonTree>::empty().insert(
            "msg"@,
            JsonTree::Object(
                Map::<Seq<char>, JsonTree>::empty().insert(
                    "message_id"@,
                    JsonTree::Text(message_id),
                ).insert("message_body"@, JsonTree::Text(body_text)).insert(
                    "expire"@,
                    expire_tree(expire),
                ),
            ),
        ).insert("method"@, JsonTree::Text(method)),
    )
}

/// The document for a message and the method it calls.
pub open spec fn envelope_tree(msg: EncodedMessageView, method: Seq<char>) -> JsonTree {
    envelope_tree_of(msg.message_id, base64_text(msg.message_body), msg.expire, method)
}

/// Builds the document for a message whose body has already been written as
/// base64 text.
pub fn envelope_document(msg: &EncodedMessage, body_text: &str, method: &str) -> (doc: Value)
    ensures
        json_tree(doc) == envelope_tree_of(msg@.message_id, body_text@, msg@.expire, method@),
{
    let mut inner = json_null();
    json_set_member(&mut inner, "message_id", json_string(msg.message_id.as_str()));
    json_set_member(&mut inner, "message_body", json_string(body_text));
    let expire = match msg.expire {
        Some(at) => json_unsigned(at),
        None => json_null(),
    };
    json_set_member(&mut inner, "expire", expire);
    let mut doc = json_null();
    json_set_member(&mut doc, "msg", inner);
    json_set_member(&mut doc, "method", json_string(method));
    doc
}

/// Writes a message and the name of the method it calls as a JSON document.
pub fn msg_to_json(msg: &EncodedMessage, method: &str) -> (text: String)
    ensures
        text@ == json_text(envelope_tree(msg@, method@)),
{
    let body_text = encode_base64(&msg.message_body);
    let doc = envelope_document(msg, body_text.as_str(), method);
    json_to_string(&doc)
}

/// What the `expire` member holds in a document.
pub open spec fn expire_field_of(tree: JsonTree) -> ExpireField {
    if tree is Null {
        ExpireField::Absent
    } else {
        match tree_unsigned(tree) {
            Some(n) => ExpireField::Unsigned(n),
            None => ExpireField::Other,
        }
    }
}

/// What a document holds in the places of the four members.
pub open spec fn fields_of_tree(tree: JsonTree) -> EnvelopeFieldsView {
    let msg = tree_member(tree, "msg"@);
    EnvelopeFieldsView {
        method: tree_text(tree_member(tree, "method"@)),
        message_id: tree_text(tree_member(msg, "message_id"@)),
        message_body: tree_text(tree_member(msg, "message_body"@)),
        expire: expire_field_of(tree_member(msg, "expire"@)),
    }
}

/// An error for a document that does not have the shape of a stored
/// message.
pub open spec fn schema_error(message: Seq<char>) -> CallErrorView {
    CallErrorView { kind: ErrorKind::Schema, message }
}

/// The three texts that a stored message must hold, in the order method,
/// identifier, body; or the error for the first of them that is missing.
pub open spec fn required_fields(fields: EnvelopeFieldsView) -> Result<
    (Seq<char>, Seq<char>, Seq<char>),
    CallErrorView,
> {
    match fields.method {
        None => Err(schema_error("couldn't find \"method\" key in message"@)),
        Some(method) => match fields.message_id {
            None => Err(schema_error("couldn't find \"message_id\" key in message"@)),
            Some(message_id) => match fields.message_body {
                None => Err(schema_error("couldn't find \"message_body\" key in message"@)),
                Some(body_text) => Ok((method, message_id, body_text)),
            },
        },
    }
}

/// The time of expiry that an `expire` member stands for: none where the
/// member is absent, its value where that fits 32 bits, and an error
/// otherwise.
pub open spec fn expire_of_field(field: ExpireField) -> Result<Option<u32>, CallErrorView> {
    match field {
        ExpireField::Absent => Ok(None),
        ExpireField::Unsigned(n) => if n <= u32::MAX {
            Ok(Some(n as u32))
        } else {
            Err(schema_error("couldn't read \"expire\" key in message"@))
        },
        ExpireField::Other => Err(schema_error("couldn't read \"expire\" key in message"@)),
    }
}

/// The message and method that the parts of a stored message make up, once
/// the body has been through the base64 decoder: a body that did not decode
/// is an error, then an `expire` member that is no 32-bit time.
pub open spec fn envelope_of_parts(
    method: Seq<char>,
    message_id: Seq<char>,
    body: Result<Seq<u8>, DecodeError>,
    expire: ExpireField,
) -> Result<(EncodedMessageView, Seq<char>), CallErrorView> {
    match body {
        Err(e) => Err(
            CallErrorView {
                kind: ErrorKind::Decode,
                message: "couldn't decode \"message_body\" key in message: "@ + base64_error_text(
                    e,
                ),
            },
        ),
        Ok(message_body) => match expire_of_field(expire) {
            Err(e) => Err(e),
            Ok(expire) => Ok((EncodedMessageView { message_id, message_body, expire }, method)),
        },
    }
}

/// The message and method that a document stands for.
pub open spec fn envelope_of_tree(tree: JsonTree) -> Result<
    (EncodedMessageView, Seq<char>),
    CallErrorView,
> {
    let fields = fields_of_tree(tree);
    match required_fields(fields) {
        Err(e) => Err(e),
        Ok((method, message_id, body_text)) => envelope_of_parts(
            method,
            message_id,
            base64_decoded(body_text),
            fields.expire,
        ),
    }
}

/// The message and method that a text stands for.
pub open spec fn envelope_of_text(text: Seq<char>) -> Result<
    (EncodedMessageView, Seq<char>),
    CallErrorView,
> {
    match json_parsed(text) {
        Err(reason) => Err(
            CallErrorView {
                kind: ErrorKind::Parse,
                message: "couldn't decode message: "@ + reason,
            },
        ),
        Ok(tree) => envelope_of_tree(tree),
    }
}

/// Whether a decoded message matches its mathematical value.
pub open spec fn envelope_result_is(
    r: Result<(EncodedMessage, String), CallError>,
    v: Result<(EncodedMessageView, Seq<char>), CallErrorView>,
) -> bool {
    match r {
        Ok((msg, method)) => v == Ok::<(EncodedMessageView, Seq<char>), CallErrorView>(
            (msg@, method@),
        ),
        Err(e) => v == Err::<(EncodedMessageView, Seq<char>), CallErrorView>(e@),
    }
}

/// A copy of the text of a member that is a string.
fn member_text(doc: &Value, key: &str) -> (r: Option<String>)
    ensures
        optional_text(r) == tree_text(tree_member(json_tree(*doc), key@)),
{
    match json_as_str(json_member(doc, key)) {
        Some(s) => Some(String::from_str(s)),
        None => None,
    }
}

/// Reads the four members of a stored message out of a document, each as
/// far as it is there and has the right type.
pub fn read_envelope_fields(doc: &Value) -> (fields: EnvelopeFields)
    ensures
        fields@ == fields_of_tree(json_tree(*doc)),
{
    let method = member_text(doc, "method");
    let msg = json_member(doc, "msg");
    let message_id = member_text(msg, "message_id");
    let message_body = member_text(msg, "message_body");
    let expire_member = json_member(msg, "expire");
    let expire = if json_is_null(expire_member) {
        ExpireField::Absent
    } else {
        match json_as_u64(expire_member) {
            Some(n) => ExpireField::Unsigned(n),
            None => ExpireField::Other,
        }
    };
    EnvelopeFields { method, message_id, message_body, expire }
}

/// Takes the method, the identifier and the body text out of the fields of a
/// document, and fails with a schema error that names the first of them
/// that is missing.
pub fn take_required_fields(fields: EnvelopeFields) -> (r: Result<
    (String, String, String),
    CallError,
>)
    ensures
        match r {
            Ok((method, message_id, body_text)) => required_fields(fields@) == Ok::<
                (Seq<char>, Seq<char>, Seq<char>),
                CallErrorView,
            >((method@, message_id@, body_text@)),
            Err(e) => required_fields(fields@) == Err::<
                (Seq<char>, Seq<char>, Seq<char>),
                CallErrorView,
            >(e@),
        },
{
    let method = match fields.method {
        Some(method) => method,
        None => {
            return Err(
                CallError::new(
                    ErrorKind::Schema,
                    String::from_str("couldn't find \"method\" key in message"),
                ),
            );
        },
    };
    let message_id = match fields.message_id {
        Some(message_id) => message_id,
        None => {
            return Err(
                CallError::new(
                    ErrorKind::Schema,
                    String::from_str("couldn't find \"message_id\" key in message"),
                ),
            );
        },
    };
    let body_text = match fields.message_body {
        Some(body_text) => body_text,
        None => {
            return Err(
                CallError::new(
                    ErrorKind::Schema,
                    String::from_str("couldn't find \"message_body\" key in message"),
                ),
            );
        },
    };
    Ok((method, message_id, body_text))
}

/// Puts a stored message together from its parts and from what the base64
/// decoder made of the body text.
pub fn assemble_envelope(
    method: String,
    message_id: String,
    body: Result<Vec<u8>, DecodeError>,
    expire: ExpireField,
) -> (r: Result<(EncodedMessage, String), CallError>)
    ensures
        envelope_result_is(
            r,
            envelope_of_parts(
                method@,
                message_id@,
                match body {
                    Ok(bytes) => Ok(bytes@),
                    Err(e) => Err(e),
                },
                expire,
            ),
        ),
{
    let message_body = match body {
        Ok(bytes) => bytes,
        Err(e) => {
            let reason = describe_base64_error(&e);
            return Err(
                CallError::new(
                    ErrorKind::Decode,
                    prefixed("couldn't decode \"message_body\" key in message: ", reason.as_str()),
                ),
            );
        },
    };
    let expire = match expire {
        ExpireField::Absent => None,
        ExpireField::Unsigned(n) => {
            if n <= 0xffff_ffff {
                Some(n as u32)
            } else {
                return Err(
                    CallError::new(
                        ErrorKind::Schema,
                        String::from_str("couldn't read \"expire\" key in message"),
                    ),
                );
            }
        },
        ExpireField::Other => {
            return Err(
                CallError::new(
                    ErrorKind::Schema,
                    String::from_str("couldn't read \"expire\" key in message"),
                ),
            );
        },
    };
    Ok((EncodedMessage { message_id, message_body, expire }, method))
}

/// Reads a stored message out of a parsed document.
pub fn envelope_from_document(doc: &Value) -> (r: Result<(EncodedMessage, String), CallError>)
    ensures
        envelope_result_is(r, envelope_of_tree(json_tree(*doc))),
{
    let fields = read_envelope_fields(doc);
    let expire = fields.expire;
    match take_required_fields(fields) {
        Err(e) => Err(e),
        Ok((method, message_id, body_text)) => {
            let body = decode_base64(body_text.as_str());
            assemble_envelope(method, message_id, body, expire)
        },
    }
}

/// Reads a stored message back from its text: the message and the name of
/// the method it calls.
pub fn msg_from_json(text: &str) -> (r: Result<(EncodedMessage, String), CallError>)
    ensures
        envelope_result_is(r, envelope_of_text(text@)),
{
    match parse_json(text) {
        Err(e) => {
            let reason = describe_json_error(&e);
            Err(
                CallError::new(
                    ErrorKind::Parse,
                    prefixed("couldn't decode message: ", reason.as_str()),
                ),
            )
        },
        Ok(doc) => envelope_from_document(&doc),
    }
}

/// Writes a message and its method as a JSON document, reads the text back,
/// and hands the text out only where it reads back as the same message and
/// method.
pub fn msg_to_json_checked(msg: &EncodedMessage, method: &str) -> (r: Option<String>)
    ensures
        match r {
            Some(text) => {
                &&& text@ == json_text(envelope_tree(msg@, method@))
                &&& envelope_of_text(text@) == Ok::<(EncodedMessageView, Seq<char>), CallErrorView>(
                    (msg@, method@),
                )
            },
            None => envelope_of_text(json_text(envelope_tree(msg@, method@))) != Ok::<
                (EncodedMessageView, Seq<char>),
                CallErrorView,
            >((msg@, method@)),
        },
{
    let text = msg_to_json(msg, method);
    match msg_from_json(text.as_str()) {
        Ok((back, back_method)) => {
            if back.same_as(msg) && back_method == String::from_str(method) {
                Some(text)
            } else {
                None
            }
        },
        Err(_) => None,
    }
}

/// The four member names are different texts.
proof fn lemma_member_names()
    ensures
        "msg"@ != "method"@,
        "message_id"@ != "message_body"@,
        "message_id"@ != "expire"@,
        "message_body"@ != "expire"@,
{
    reveal_strlit("msg");
    reveal_strlit("method");
    reveal_strlit("message_id");
    reveal_strlit("message_body");
    reveal_strlit("expire");
    assert("msg"@.len() != "method"@.len());
    assert("message_id"@.len() != "message_body"@.len());
    assert("message_id"@.len() != "expire"@.len());
    assert("message_body"@.len() != "expire"@.len());
}

/// The document built for a message holds, in the places of the four
/// members, the method, the identifier, the body text and the time of
/// expiry that it was built from.
pub proof fn lemma_fields_of_envelope(
    message_id: Seq<char>,
    body_text: Seq<char>,
    expire: Option<u32>,
    method: Seq<char>,
)
    ensures
        fields_of_tree(envelope_tree_of(message_id, body_text, expire, method)) == (
        EnvelopeFieldsView {
            method: Some(method),
            message_id: Some(message_id),
            message_body: Some(body_text),
            expire: match expire {
                Some(at) => ExpireField::Unsigned(at as u64),
                None => ExpireField::Absent,
            },
        }),
{
    lemma_member_names();
}

/// Reading back the document that was built for a message gives the method,
/// the identifier and the time of expiry again, and for the body what the
/// base64 decoder makes of the text that the encoder wrote.
pub proof fn lemma_envelope_round_trip(msg: EncodedMessageView, method: Seq<char>)
    ensures
        envelope_of_tree(envelope_tree(msg, method)) == match base64_decoded(
            base64_text(msg.message_body),
        ) {
            Ok(message_body) => Ok::<(EncodedMessageView, Seq<char>), CallErrorView>(
                (
                    EncodedMessageView {
                        message_id: msg.message_id,
                        message_body,
                        expire: msg.expire,
                    },
                    method,
                ),
            ),
            Err(e) => Err(
                CallErrorView {
                    kind: ErrorKind::Decode,
                    message: "couldn't decode \"message_body\" key in message: "@
                        + base64_error_text(e),
                },
            ),
        },
{
    lemma_fields_of_envelope(msg.message_id, base64_text(msg.message_body), msg.expire, method);
}

/// The document of a message that does not expire holds null in the place
/// of `expire`, and a document with null there is read as a message that
/// does not expire.
pub proof fn lemma_envelope_without_expiration(msg: EncodedMessageView, method: Seq<char>)
    requires
        msg.expire is None,
    ensures
        tree_member(tree_member(envelope_tree(msg, method), "msg"@), "expire"@) is Null,
        fields_of_tree(envelope_tree(msg, method)).expire == ExpireField::Absent,
        expire_of_field(ExpireField::Absent) == Ok::<Option<u32>, CallErrorView>(None),
{
    lemma_fields_of_envelope(msg.message_id, base64_text(msg.message_body), msg.expire, method);
}

/// A document that lacks the method, the identifier or the body is refused
/// with a schema error, whatever else it holds.
pub proof fn lemma_missing_field_is_schema_error(tree: JsonTree)
    requires
        fields_of_tree(tree).method is None || fields_of_tree(tree).message_id is None
            || fields_of_tree(tree).message_body is None,
    ensures
        envelope_of_tree(tree) is Err,
        envelope_of_tree(tree)->Err_0.kind == ErrorKind::Schema,
{
}

} // verus!
