//! The three operations of the client, each as a sequence of steps.
//!
//! An operation is run by a driver that owns the network client, the files
//! and the console. The functions here decide: a [`Session`] says what is
//! awaited, a [`Turn`] says what the driver prints and does next, and a
//! [`Reply`] is what the driver reports back. The driver calls
//! [`call_contract`], [`generate_message`] or [`call_contract_with_msg`] for
//! the first turn and [`Session::advance`] for each one after it, until a
//! turn asks it to finish.

use vstd::prelude::*;
use vstd::string::*;
use vstd::utf8::encode_utf8;
use serde_json::Value;
use crate::console::{
    add_line,
    message_lines,
    no_lines,
    print_encoded_message,
    print_result,
    success_lines,
};
use crate::envelope::{
    envelope_of_text,
    envelope_tree,
    msg_from_json,
    msg_to_json,
    EncodedMessage,
    EncodedMessageView,
};
use crate::error::{CallError, CallErrorView, ErrorKind, Step};
use crate::json::{json_text, json_to_string, json_tree, JsonTree};
use crate::keys::{
    key_material_of,
    keypair_from_hex,
    keypair_of_hex,
    lemma_single_word_is_file,
    load_keypair,
    KeyMaterialInput,
    KeyMaterialInputView,
    KeyPair,
};
use crate::steps::{
    client_settings,
    create_client,
    expire_header,
    expire_header_tree,
    maybe_keys,
    outcome_view,
    quiet_turn,
    Reply,
    ReplyView,
    Request,
    RequestView,
    Turn,
    TurnView,
};
use crate::text::{optional_text, prefixed, text_views};
use crate::words::{join_words, lemma_join_split, lemma_split_count};

verus! {

/// What a message is prepared for.
#[derive(Clone, Debug, PartialEq, Eq)]
pub enum Goal {
    /// It is sent at once.
    Submit,
    /// It is written to the file of this path.
    Store { path: String },
}

/// What is to happen at the address of a contract.
#[derive(Clone, Debug, PartialEq, Eq)]
pub enum Aim {
    /// The method is run on the local copy of the account, and nothing is
    /// sent.
    Local,
    /// A message is prepared and sent.
    Submit,
    /// A message that expires at `lifetime` is prepared and written to the
    /// file `path`.
    Store { path: String, lifetime: u32 },
}

/// A call of a method of a contract, as the user asked for it.
#[derive(Clone, Debug, PartialEq, Eq)]
pub struct Job {
    pub address: String,
    pub abi: String,
    pub method: String,
    pub params: String,
    pub keys: Option<String>,
    pub aim: Aim,
}

/// What follows once the network client is there.
#[derive(Clone, Debug, PartialEq, Eq)]
pub enum Plan {
    /// The address of the contract is resolved, then the job is done.
    Resolve { job: Job },
    /// A stored message is read from `text` and sent again.
    Replay { text: String, abi: String },
}

/// A message that waits for its keys.
#[derive(Clone, Debug, PartialEq, Eq)]
pub struct Draft {
    pub abi: String,
    pub method: String,
    pub params: String,
    pub header: Option<String>,
    pub goal: Goal,
}

/// The state of an operation: what the driver has been asked for last.
#[derive(Clone, Debug, PartialEq, Eq)]
pub enum Session {
    /// The network client is being built.
    Connecting { plan: Plan },
    /// The address is being resolved.
    Resolving { job: Job },
    /// The method is being run locally.
    RunningLocal,
    /// The key file is being read.
    ReadingKeys { draft: Draft },
    /// The key pair is being derived from the phrase.
    DerivingKeys { draft: Draft },
    /// The message is being encoded and signed.
    Encoding { abi: String, method: String, goal: Goal },
    /// The body of a stored message is being decoded.
    Decoding { message: EncodedMessage, abi: String, method: String },
    /// The message is being sent. Where `soft` holds, a failure is reported
    /// on the console and does not fail the operation.
    Submitting { soft: bool },
    /// The file for the message is being created.
    Creating { text: String },
    /// The message is being written to its file.
    Writing,
    /// The operation has ended.
    Closed,
}

/// The mathematical value of a [`Goal`].
pub enum GoalView {
    Submit,
    Store { path: Seq<char> },
}

/// The mathematical value of an [`Aim`].
pub enum AimView {
    Local,
    Submit,
    Store { path: Seq<char>, lifetime: u32 },
}

/// The mathematical value of a [`Job`].
pub struct JobView {
    pub address: Seq<char>,
    pub abi: Seq<char>,
    pub method: Seq<char>,
    pub params: Seq<char>,
    pub keys: Option<Seq<char>>,
    pub aim: AimView,
}

/// The mathematical value of a [`Plan`].
pub enum PlanView {
    Resolve { job: JobView },
    Replay { text: Seq<char>, abi: Seq<char> },
}

/// The mathematical value of a [`Draft`].
pub struct DraftView {
    pub abi: Seq<char>,
    pub method: Seq<char>,
    pub params: Seq<char>,
    pub header: Option<Seq<char>>,
    pub goal: GoalView,
}

/// The mathematical value of a [`Session`].
pub enum SessionView {
    Connecting { plan: PlanView },
    Resolving { job: JobView },
    RunningLocal,
    ReadingKeys { draft: DraftView },
    DerivingKeys { draft: DraftView },
    Encoding { abi: Seq<char>, method: Seq<char>, goal: GoalView },
    Decoding { message: EncodedMessageView, abi: Seq<char>, method: Seq<char> },
    Submitting { soft: bool },
    Creating { text: Seq<char> },
    Writing,
    Closed,
}

impl View for Goal {
    type V = GoalView;

    open spec fn view(&self) -> GoalView {
        match self {
            Goal::Submit => GoalView::Submit,
            Goal::Store { path } => GoalView::Store { path: path@ },
        }
    }
}

impl View for Aim {
    type V = AimView;

    open spec fn view(&self) -> AimView {
        match self {
            Aim::Local => AimView::Local,
            Aim::Submit => AimView::Submit,
            Aim::Store { path, lifetime } => AimView::Store { path: path@, lifetime: *lifetime },
        }
    }
}

impl View for Job {
    type V = JobView;

    open spec fn view(&self) -> JobView {
        JobView {
            address: self.address@,
            abi: self.abi@,
            method: self.method@,
            params: self.params@,
            keys: optional_text(self.keys),
            aim: self.aim@,
        }
    }
}

impl View for Plan {
    type V = PlanView;

    open spec fn view(&self) -> PlanView {
        match self {
            Plan::Resolve { job } => PlanView::Resolve { job: job@ },
            Plan::Replay { text, abi } => PlanView::Replay { text: text@, abi: abi@ },
        }
    }
}

impl View for Draft {
    type V = DraftView;

    open spec fn view(&self) -> DraftView {
        DraftView {
            abi: self.abi@,
            method: self.method@,
            params: self.params@,
            header: optional_text(self.header),
            goal: self.goal@,
        }
    }
}

impl View for Session {
    type V = SessionView;

    open spec fn view(&self) -> SessionView {
        match self {
            Session::Connecting { plan } => SessionView::Connecting { plan: plan@ },
            Session::Resolving { job } => SessionView::Resolving { job: job@ },
            Session::RunningLocal => SessionView::RunningLocal,
            Session::ReadingKeys { draft } => SessionView::ReadingKeys { draft: draft@ },
            Session::DerivingKeys { draft } => SessionView::DerivingKeys { draft: draft@ },
            Session::Encoding { abi, method, goal } => SessionView::Encoding {
                abi: abi@,
                method: method@,
                goal: goal@,
            },
            Session::Decoding { message, abi, method } => SessionView::Decoding {
                message: message@,
                abi: abi@,
                method: method@,
            },
            Session::Submitting { soft } => SessionView::Submitting { soft: *soft },
            Session::Creating { text } => SessionView::Creating { text: text@ },
            Session::Writing => SessionView::Writing,
            Session::Closed => SessionView::Closed,
        }
    }
}

/// The first turn of every operation: the client is built.
pub open spec fn connect_turn(url: Seq<char>) -> TurnView {
    quiet_turn(RequestView::CreateClient { settings: client_settings(url) })
}

/// The end of an operation, with nothing printed.
pub open spec fn ended(outcome: Result<(), CallErrorView>) -> (SessionView, TurnView) {
    (SessionView::Closed, quiet_turn(RequestView::Finish { outcome }))
}

/// The end of an operation with an error whose message is the prefix of the
/// failed step, then the detail.
pub open spec fn failed(kind: ErrorKind, prefix: Seq<char>, detail: Seq<char>) -> (
    SessionView,
    TurnView,
) {
    ended(Err(CallErrorView { kind, message: prefix + detail }))
}

/// The detail of a reply that is not the awaited one: the collaborator's own
/// message where it reports a failure.
pub open spec fn failure_detail(reply: ReplyView) -> Seq<char> {
    match reply {
        ReplyView::Failed(detail) => detail,
        _ => "unexpected reply"@,
    }
}

/// What follows where the awaited step has failed. Every failure ends the
/// operation with an error, but for one: where a stored message was sent
/// again, the failure is printed and the operation ends well.
pub open spec fn failure_turn(session: SessionView, detail: Seq<char>) -> (SessionView, TurnView) {
    match session {
        SessionView::Connecting { .. } => failed(
            ErrorKind::Collaborator(Step::CreateClient),
            "failed to create tonclient: "@,
            detail,
        ),
        SessionView::Resolving { .. } => failed(
            ErrorKind::Input,
            "failed to parse address: "@,
            detail,
        ),
        SessionView::RunningLocal => failed(
            ErrorKind::Collaborator(Step::RunLocal),
            "run failed: "@,
            detail,
        ),
        SessionView::ReadingKeys { .. } => failed(
            ErrorKind::Collaborator(Step::ReadKeys),
            ""@,
            detail,
        ),
        SessionView::DerivingKeys { .. } => failed(
            ErrorKind::Collaborator(Step::DeriveKeys),
            ""@,
            detail,
        ),
        SessionView::Encoding { .. } => failed(
            ErrorKind::Collaborator(Step::CreateMessage),
            "failed to create inbound message: "@,
            detail,
        ),
        SessionView::Decoding { .. } => failed(
            ErrorKind::Collaborator(Step::DecodeBody),
            "failed to decode message body: "@,
            detail,
        ),
        SessionView::Submitting { soft } => if soft {
            (
                SessionView::Closed,
                TurnView {
                    lines: seq!["Error: Failed: "@ + detail],
                    request: RequestView::Finish { outcome: Ok(()) },
                },
            )
        } else {
            failed(ErrorKind::Collaborator(Step::ProcessMessage), "transaction failed: "@, detail)
        },
        SessionView::Creating { .. } => failed(
            ErrorKind::Collaborator(Step::CreateFile),
            "failed to create file for msg: "@,
            detail,
        ),
        SessionView::Writing => failed(
            ErrorKind::Collaborator(Step::WriteFile),
            "failed to write message to file: "@,
            detail,
        ),
        SessionView::Closed => failed(ErrorKind::Input, "the operation has ended: "@, detail),
    }
}

/// The request to encode the message of a draft with the given keys.
pub open spec fn encode_turn(draft: DraftView, keys: Option<Seq<u8>>) -> (SessionView, TurnView) {
    (
        SessionView::Encoding { abi: draft.abi, method: draft.method, goal: draft.goal },
        quiet_turn(
            RequestView::CreateMessage {
                abi: draft.abi,
                method: draft.method,
                header: draft.header,
                params: draft.params,
                keys,
            },
        ),
    )
}

/// The first step of preparing a message: the message is encoded unsigned
/// where no key argument is given; else the key pair is asked for first, from
/// a key file or from a phrase, as the key argument reads.
pub open spec fn prepare_turn(draft: DraftView, keys: Option<Seq<char>>) -> (
    SessionView,
    TurnView,
) {
    match keys {
        None => encode_turn(draft, None),
        Some(input) => match key_material_of(input) {
            KeyMaterialInputView::KeyFileReference(path) => (
                SessionView::ReadingKeys { draft },
                quiet_turn(RequestView::ReadKeys { path }),
            ),
            KeyMaterialInputView::MnemonicPhrase(_) => (
                SessionView::DerivingKeys { draft },
                quiet_turn(RequestView::DeriveKeys { phrase: input }),
            ),
        },
    }
}

/// What is done at the address of the contract, once it is resolved.
pub open spec fn job_turn(job: JobView) -> (SessionView, TurnView) {
    match job.aim {
        AimView::Local => (
            SessionView::RunningLocal,
            TurnView {
                lines: seq!["Running get-method..."@],
                request: RequestView::RunLocal {
                    abi: job.abi,
                    method: job.method,
                    params: job.params,
                },
            },
        ),
        AimView::Submit => {
            let (session, turn) = prepare_turn(
                DraftView {
                    abi: job.abi,
                    method: job.method,
                    params: job.params,
                    header: None,
                    goal: GoalView::Submit,
                },
                job.keys,
            );
            (
                session,
                TurnView {
                    lines: seq!["Generating external inbound message..."@],
                    request: turn.request,
                },
            )
        },
        AimView::Store { path, lifetime } => prepare_turn(
            DraftView {
                abi: job.abi,
                method: job.method,
                params: job.params,
                header: Some(json_text(expire_header_tree(lifetime))),
                goal: GoalView::Store { path },
            },
            job.keys,
        ),
    }
}

/// The error for a stored message that names no method: such a message
/// cannot be sent again.
pub open spec fn empty_method_error() -> CallErrorView {
    CallErrorView { kind: ErrorKind::Schema, message: "\"method\" key in message is empty"@ }
}

/// The first step of sending a stored message again: the text is read, and
/// the message is shown and its body handed out for decoding. A text that
/// is no stored message ends the operation, and so does a stored message
/// whose method is the empty text; nothing is shown, decoded or sent then.
pub open spec fn replay_turn(text: Seq<char>, abi: Seq<char>) -> (SessionView, TurnView) {
    match envelope_of_text(text) {
        Err(e) => ended(Err(e)),
        Ok((message, method)) => if method.len() == 0 {
            ended(Err(empty_method_error()))
        } else {
            (
                SessionView::Decoding { message, abi, method },
                TurnView {
                    lines: message_lines(message),
                    request: RequestView::DecodeBody { abi, body: message.message_body },
                },
            )
        },
    }
}

/// What is done with a message that has been encoded: it is shown, then
/// sent or written to its file.
pub open spec fn message_turn(
    abi: Seq<char>,
    method: Seq<char>,
    goal: GoalView,
    message: EncodedMessageView,
) -> (SessionView, TurnView) {
    match goal {
        GoalView::Submit => (
            SessionView::Submitting { soft: false },
            TurnView {
                lines: message_lines(message).push("Processing message..."@),
                request: RequestView::ProcessMessage { message, abi, method },
            },
        ),
        GoalView::Store { path } => (
            SessionView::Creating { text: json_text(envelope_tree(message, method)) },
            TurnView { lines: message_lines(message), request: RequestView::CreateFile { path } },
        ),
    }
}

/// The end of an operation that has a result to show.
pub open spec fn success_turn(output: JsonTree) -> (SessionView, TurnView) {
    (
        SessionView::Closed,
        TurnView { lines: success_lines(output), request: RequestView::Finish { outcome: Ok(()) } },
    )
}

/// The next state and turn of an operation, from its state and the reply to
/// its last request.
pub open spec fn advance_of(session: SessionView, reply: ReplyView) -> (SessionView, TurnView) {
    match (session, reply) {
        (SessionView::Connecting { plan: PlanView::Resolve { job } }, ReplyView::Done) => (
            SessionView::Resolving { job },
            quiet_turn(RequestView::ParseAddress { address: job.address }),
        ),
        (SessionView::Connecting { plan: PlanView::Replay { text, abi } }, ReplyView::Done) => {
            replay_turn(text, abi)
        },
        (SessionView::Resolving { job }, ReplyView::Done) => job_turn(job),
        (SessionView::RunningLocal, ReplyView::Output(output)) => success_turn(output),
        (SessionView::ReadingKeys { draft }, ReplyView::Keys(pair)) => encode_turn(
            draft,
            Some(pair),
        ),
        (SessionView::DerivingKeys { draft }, ReplyView::HexKeys { public, secret }) => {
            match keypair_of_hex(encode_utf8(public), encode_utf8(secret)) {
                Err(e) => ended(Err(e)),
                Ok(pair) => encode_turn(draft, Some(pair)),
            }
        },
        (SessionView::Encoding { abi, method, goal }, ReplyView::Message(message)) => {
            message_turn(abi, method, goal, message)
        },
        (
            SessionView::Decoding { message, abi, method },
            ReplyView::Body { function, output },
        ) => (
            SessionView::Submitting { soft: true },
            TurnView {
                lines: seq![
                    "Calling method "@ + function + " with parameters:"@,
                    json_text(output),
                    "Processing message..."@,
                ],
                request: RequestView::ProcessMessage { message, abi, method },
            },
        ),
        (SessionView::Submitting { .. }, ReplyView::Output(output)) => success_turn(output),
        (SessionView::Creating { text }, ReplyView::Done) => (
            SessionView::Writing,
            quiet_turn(RequestView::WriteFile { text }),
        ),
        (SessionView::Writing, ReplyView::Done) => ended(Ok(())),
        _ => failure_turn(session, failure_detail(reply)),
    }
}

/// A turn that prints nothing.
fn quiet(request: Request) -> (turn: Turn)
    ensures
        turn@ == quiet_turn(request@),
{
    Turn { lines: no_lines(), request }
}

/// The first turn of every operation.
fn connect(url: String) -> (turn: Turn)
    ensures
        turn@ == connect_turn(url@),
{
    quiet(Request::CreateClient { settings: create_client(url) })
}

/// The end of an operation.
fn end(outcome: Result<(), CallError>) -> (r: (Session, Turn))
    ensures
        (r.0@, r.1@) == ended(outcome_view(outcome)),
{
    (Session::Closed, quiet(Request::Finish { outcome }))
}

/// The detail of a reply that is not the awaited one.
fn detail_of(reply: Reply) -> (detail: String)
    ensures
        detail@ == failure_detail(reply@),
{
    match reply {
        Reply::Failed(detail) => detail,
        _ => String::from_str("unexpected reply"),
    }
}

/// The end of an operation whose awaited step has failed.
fn fail(kind: ErrorKind, prefix: &str, reply: Reply) -> (r: (Session, Turn))
    ensures
        (r.0@, r.1@) == failed(kind, prefix@, failure_detail(reply@)),
{
    let detail = detail_of(reply);
    end(Err(CallError::new(kind, prefixed(prefix, detail.as_str()))))
}

/// The request to encode the message of a draft.
fn encode(draft: Draft, keys: Option<KeyPair>) -> (r: (Session, Turn))
    ensures
        (r.0@, r.1@) == encode_turn(draft@, maybe_keys(keys)),
{
    let Draft { abi, method, params, header, goal } = draft;
    let request = Request::CreateMessage {
        abi: abi.clone(),
        method: method.clone(),
        header,
        params,
        keys,
    };
    (Session::Encoding { abi, method, goal }, quiet(request))
}

/// Starts the preparation of a message: asks for the key pair that the key
/// argument names, or, without a key argument, for the unsigned message.
pub fn prepare_message(
    abi: String,
    method: String,
    params: String,
    header: Option<String>,
    keys: Option<String>,
    goal: Goal,
) -> (r: (Session, Turn))
    ensures
        (r.0@, r.1@) == prepare_turn(
            DraftView {
                abi: abi@,
                method: method@,
                params: params@,
                header: optional_text(header),
                goal: goal@,
            },
            optional_text(keys),
        ),
{
    let draft = Draft { abi, method, params, header, goal };
    let ghost input = optional_text(keys);
    match load_keypair(keys) {
        None => encode(draft, None),
        Some(KeyMaterialInput::KeyFileReference(path)) => (
            Session::ReadingKeys { draft },
            quiet(Request::ReadKeys { path }),
        ),
        Some(KeyMaterialInput::MnemonicPhrase(words)) => {
            let phrase = join_words(&words);
            proof {
                lemma_join_split(input->0);
            }
            (Session::DerivingKeys { draft }, quiet(Request::DeriveKeys { phrase }))
        },
    }
}

/// What is done at the address of the contract.
fn start_job(job: Job) -> (r: (Session, Turn))
    ensures
        (r.0@, r.1@) == job_turn(job@),
{
    let Job { address: _, abi, method, params, keys, aim } = job;
    match aim {
        Aim::Local => {
            let mut lines = no_lines();
            add_line(&mut lines, String::from_str("Running get-method..."));
            assert(text_views(lines@) =~= seq!["Running get-method..."@]);
            (
                Session::RunningLocal,
                Turn { lines, request: Request::RunLocal { abi, method, params } },
            )
        },
        Aim::Submit => {
            let (session, turn) = prepare_message(abi, method, params, None, keys, Goal::Submit);
            let mut lines = no_lines();
            add_line(&mut lines, String::from_str("Generating external inbound message..."));
            assert(text_views(lines@) =~= seq!["Generating external inbound message..."@]);
            (session, Turn { lines, request: turn.request })
        },
        Aim::Store { path, lifetime } => {
            let header = expire_header(lifetime);
            prepare_message(abi, method, params, Some(header), keys, Goal::Store { path })
        },
    }
}

/// The first step of sending a stored message again.
fn start_replay(text: String, abi: String) -> (r: (Session, Turn))
    ensures
        (r.0@, r.1@) == replay_turn(text@, abi@),
{
    match msg_from_json(text.as_str()) {
        Err(e) => end(Err(e)),
        Ok((message, method)) => {
            if method.as_str().is_empty() {
                let reason = String::from_str("\"method\" key in message is empty");
                return end(Err(CallError::new(ErrorKind::Schema, reason)));
            }
            let lines = print_encoded_message(&message);
            let body = message.message_body.clone();
            let request = Request::DecodeBody { abi: abi.clone(), body };
            (Session::Decoding { message, abi, method }, Turn { lines, request })
        },
    }
}

/// What is done with a message that has been encoded.
fn handle_message(abi: String, method: String, goal: Goal, message: EncodedMessage) -> (r: (
    Session,
    Turn,
))
    ensures
        (r.0@, r.1@) == message_turn(abi@, method@, goal@, message@),
{
    let mut lines = print_encoded_message(&message);
    match goal {
        Goal::Submit => {
            add_line(&mut lines, String::from_str("Processing message..."));
            (
                Session::Submitting { soft: false },
                Turn { lines, request: Request::ProcessMessage { message, abi, method } },
            )
        },
        Goal::Store { path } => {
            let text = msg_to_json(&message, method.as_str());
            (Session::Creating { text }, Turn { lines, request: Request::CreateFile { path } })
        },
    }
}

/// The end of an operation that has a result to show.
fn succeed(output: Value) -> (r: (Session, Turn))
    ensures
        (r.0@, r.1@) == success_turn(json_tree(output)),
{
    let lines = print_result(&output);
    (Session::Closed, Turn { lines, request: Request::Finish { outcome: Ok(()) } })
}

impl Session {
    /// Takes the reply to the last request and says what comes next.
    pub fn advance(self, reply: Reply) -> (r: (Session, Turn))
        ensures
            (r.0@, r.1@) == advance_of(self@, reply@),
    {
        match self {
            Session::Connecting { plan } => match reply {
                Reply::Done => match plan {
                    Plan::Resolve { job } => {
                        let address = job.address.clone();
                        (Session::Resolving { job }, quiet(Request::ParseAddress { address }))
                    },
                    Plan::Replay { text, abi } => start_replay(text, abi),
                },
                other => fail(
                    ErrorKind::Collaborator(Step::CreateClient),
                    "failed to create tonclient: ",
                    other,
                ),
            },
            Session::Resolving { job } => match reply {
                Reply::Done => start_job(job),
                other => fail(ErrorKind::Input, "failed to parse address: ", other),
            },
            Session::RunningLocal => match reply {
                Reply::Output(output) => succeed(output),
                other => fail(ErrorKind::Collaborator(Step::RunLocal), "run failed: ", other),
            },
            Session::ReadingKeys { draft } => match reply {
                Reply::Keys(pair) => encode(draft, Some(pair)),
                other => fail(ErrorKind::Collaborator(Step::ReadKeys), "", other),
            },
            Session::DerivingKeys { draft } => match reply {
                Reply::HexKeys { public, secret } => {
                    match keypair_from_hex(public.as_str(), secret.as_str()) {
                        Err(e) => end(Err(e)),
                        Ok(pair) => encode(draft, Some(pair)),
                    }
                },
                other => fail(ErrorKind::Collaborator(Step::DeriveKeys), "", other),
            },
            Session::Encoding { abi, method, goal } => match reply {
                Reply::Message(message) => handle_message(abi, method, goal, message),
                other => fail(
                    ErrorKind::Collaborator(Step::CreateMessage),
                    "failed to create inbound message: ",
                    other,
                ),
            },
            Session::Decoding { message, abi, method } => match reply {
                Reply::Body { function, output } => {
                    let mut lines = no_lines();
                    let mut first = prefixed("Calling method ", function.as_str());
                    first.append(" with parameters:");
                    add_line(&mut lines, first);
                    add_line(&mut lines, json_to_string(&output));
                    add_line(&mut lines, String::from_str("Processing message..."));
                    assert(text_views(lines@) =~= seq![
                        "Calling method "@ + function@ + " with parameters:"@,
                        json_text(json_tree(output)),
                        "Processing message..."@,
                    ]);
                    (
                        Session::Submitting { soft: true },
                        Turn { lines, request: Request::ProcessMessage { message, abi, method } },
                    )
                },
                other => fail(
                    ErrorKind::Collaborator(Step::DecodeBody),
                    "failed to decode message body: ",
                    other,
                ),
            },
            Session::Submitting { soft } => match reply {
                Reply::Output(output) => succeed(output),
                other => {
                    if soft {
                        let detail = detail_of(other);
                        let mut lines = no_lines();
                        add_line(&mut lines, prefixed("Error: Failed: ", detail.as_str()));
                        assert(text_views(lines@) =~= seq!["Error: Failed: "@ + detail@]);
                        (
                            Session::Closed,
                            Turn { lines, request: Request::Finish { outcome: Ok(()) } },
                        )
                    } else {
                        fail(
                            ErrorKind::Collaborator(Step::ProcessMessage),
                            "transaction failed: ",
                            other,
                        )
                    }
                },
            },
            Session::Creating { text } => match reply {
                Reply::Done => (Session::Writing, quiet(Request::WriteFile { text })),
                other => fail(
                    ErrorKind::Collaborator(Step::CreateFile),
                    "failed to create file for msg: ",
                    other,
                ),
            },
            Session::Writing => match reply {
                Reply::Done => end(Ok(())),
                other => fail(
                    ErrorKind::Collaborator(Step::WriteFile),
                    "failed to write message to file: ",
                    other,
                ),
            },
            Session::Closed => fail(ErrorKind::Input, "the operation has ended: ", reply),
        }
    }
}

/// Starts a call of a method of the contract at `address`: a run on the
/// local copy of the account where `local` holds, a message that is sent
/// otherwise.
pub fn call_contract(
    url: String,
    address: String,
    abi: String,
    method: String,
    params: String,
    keys: Option<String>,
    local: bool,
) -> (r: (Session, Turn))
    ensures
        r.0@ == (SessionView::Connecting {
            plan: PlanView::Resolve {
                job: JobView {
                    address: address@,
                    abi: abi@,
                    method: method@,
                    params: params@,
                    keys: optional_text(keys),
                    aim: if local {
                        AimView::Local
                    } else {
                        AimView::Submit
                    },
                },
            },
        }),
        r.1@ == connect_turn(url@),
{
    let aim = if local {
        Aim::Local
    } else {
        Aim::Submit
    };
    let job = Job { address, abi, method, params, keys, aim };
    (Session::Connecting { plan: Plan::Resolve { job } }, connect(url))
}

/// Starts the generation of a message that expires at `lifetime` and is
/// written to the file `msg_path`.
pub fn generate_message(
    url: String,
    address: String,
    abi: String,
    method: String,
    params: String,
    keys: Option<String>,
    msg_path: String,
    lifetime: u32,
) -> (r: (Session, Turn))
    ensures
        r.0@ == (SessionView::Connecting {
            plan: PlanView::Resolve {
                job: JobView {
                    address: address@,
                    abi: abi@,
                    method: method@,
                    params: params@,
                    keys: optional_text(keys),
                    aim: AimView::Store { path: msg_path@, lifetime },
                },
            },
        }),
        r.1@ == connect_turn(url@),
{
    let aim = Aim::Store { path: msg_path, lifetime };
    let job = Job { address, abi, method, params, keys, aim };
    (Session::Connecting { plan: Plan::Resolve { job } }, connect(url))
}

/// Starts the sending of the stored message `str_msg`.
pub fn call_contract_with_msg(url: String, str_msg: String, abi: String) -> (r: (Session, Turn))
    ensures
        r.0@ == (SessionView::Connecting { plan: PlanView::Replay { text: str_msg@, abi: abi@ } }),
        r.1@ == connect_turn(url@),
{
    (
        Session::Connecting { plan: Plan::Replay { text: str_msg, abi } },
        connect(url),
    )
}

/// An upper bound on the number of replies that a session still takes
/// before it has ended.
pub open spec fn steps_left(session: SessionView) -> nat {
    match session {
        SessionView::Connecting { .. } => 6,
        SessionView::Resolving { .. } => 5,
        SessionView::ReadingKeys { .. } => 4,
        SessionView::DerivingKeys { .. } => 4,
        SessionView::Encoding { .. } => 3,
        SessionView::Decoding { .. } => 2,
        SessionView::Creating { .. } => 2,
        SessionView::RunningLocal => 1,
        SessionView::Submitting { .. } => 1,
        SessionView::Writing => 1,
        SessionView::Closed => 0,
    }
}

/// Whether `request` is the one whose reply `session` awaits.
pub open spec fn awaits(session: SessionView, request: RequestView) -> bool {
    match session {
        SessionView::Connecting { .. } => request is CreateClient,
        SessionView::Resolving { .. } => request is ParseAddress,
        SessionView::RunningLocal => request is RunLocal,
        SessionView::ReadingKeys { .. } => request is ReadKeys,
        SessionView::DerivingKeys { .. } => request is DeriveKeys,
        SessionView::Encoding { .. } => request is CreateMessage,
        SessionView::Decoding { .. } => request is DecodeBody,
        SessionView::Submitting { .. } => request is ProcessMessage,
        SessionView::Creating { .. } => request is CreateFile,
        SessionView::Writing => request is WriteFile,
        SessionView::Closed => request is Finish,
    }
}

/// Every reply brings an operation nearer to its end: no step is taken
/// twice, and an operation that starts with the client has ended after six
/// replies at most.
pub proof fn lemma_advance_makes_progress(session: SessionView, reply: ReplyView)
    requires
        session != SessionView::Closed,
    ensures
        steps_left(advance_of(session, reply).0) < steps_left(session),
{
}

/// The state that follows a reply awaits the very request that the turn
/// hands out; in particular the turn asks to finish exactly when the
/// operation has ended.
pub proof fn lemma_turn_matches_state(session: SessionView, reply: ReplyView)
    ensures
        awaits(advance_of(session, reply).0, advance_of(session, reply).1.request),
        advance_of(session, reply).0 == SessionView::Closed <==> advance_of(
            session,
            reply,
        ).1.request is Finish,
{
}

/// A message is sent only as the last step: once it has been handed out for
/// sending, whatever is reported back ends the operation.
pub proof fn lemma_sending_is_last(session: SessionView, reply: ReplyView, answer: ReplyView)
    requires
        advance_of(session, reply).1.request is ProcessMessage,
    ensures
        advance_of(advance_of(session, reply).0, answer).0 == SessionView::Closed,
{
    lemma_turn_matches_state(session, reply);
}

/// A step that fails ends the operation at once: the next turn asks to
/// finish and nothing is awaited after it. The outcome is an error whose
/// message ends with the collaborator's own message, except where a stored
/// message was sent again: there the failure is printed, and the outcome is
/// success.
pub proof fn lemma_failure_ends_operation(session: SessionView, detail: Seq<char>)
    ensures
        advance_of(session, ReplyView::Failed(detail)).0 == SessionView::Closed,
        advance_of(session, ReplyView::Failed(detail)).1.request is Finish,
        session == (SessionView::Submitting { soft: true }) ==> advance_of(
            session,
            ReplyView::Failed(detail),
        ).1 == (TurnView {
            lines: seq!["Error: Failed: "@ + detail],
            request: RequestView::Finish { outcome: Ok(()) },
        }),
        session != (SessionView::Submitting { soft: true }) ==> {
            let turn = advance_of(session, ReplyView::Failed(detail)).1;
            &&& turn.lines.len() == 0
            &&& turn.request->outcome is Err
            &&& exists|prefix: Seq<char>| turn.request->outcome->Err_0.message == prefix + detail
        },
{
    let turn = advance_of(session, ReplyView::Failed(detail)).1;
    if session != (SessionView::Submitting { soft: true }) {
        let message = turn.request->outcome->Err_0.message;
        let prefix = message.subrange(0, message.len() - detail.len());
        assert(message =~= prefix + detail);
    }
}

/// Once an operation has ended, every further reply is answered with the
/// request to finish.
pub proof fn lemma_closed_stays_closed(reply: ReplyView)
    ensures
        advance_of(SessionView::Closed, reply).0 == SessionView::Closed,
        advance_of(SessionView::Closed, reply).1.request is Finish,
{
}

/// A key argument of a single word is taken for the path of a key file:
/// the key pair is then asked from that file and never derived.
pub proof fn lemma_single_word_reads_key_file(draft: DraftView, input: Seq<char>)
    requires
        !input.contains(' '),
    ensures
        prepare_turn(draft, Some(input)) == (
            SessionView::ReadingKeys { draft },
            quiet_turn(RequestView::ReadKeys { path: input }),
        ),
{
    lemma_single_word_is_file(input);
}

/// A key argument with a space in it is taken for a phrase, which is handed
/// out for derivation as it was given.
pub proof fn lemma_phrase_derives_keys(draft: DraftView, input: Seq<char>)
    requires
        input.contains(' '),
    ensures
        prepare_turn(draft, Some(input)) == (
            SessionView::DerivingKeys { draft },
            quiet_turn(RequestView::DeriveKeys { phrase: input }),
        ),
{
    lemma_single_word_is_file(input);
    lemma_split_count(input);
}

/// Without a key argument no key pair is asked for: the message is encoded
/// unsigned.
pub proof fn lemma_no_keys_no_loading(draft: DraftView)
    ensures
        prepare_turn(draft, None) == encode_turn(draft, None),
        prepare_turn(draft, None).1.request->CreateMessage_keys is None,
{
}

/// Generation shows the message that was encoded, asks for its file, and
/// then hands out for writing the document of that message and of the
/// method that was called; once that is written the operation ends well.
pub proof fn lemma_generation_writes_envelope(
    abi: Seq<char>,
    method: Seq<char>,
    path: Seq<char>,
    message: EncodedMessageView,
)
    ensures
        ({
            let generating = SessionView::Encoding {
                abi,
                method,
                goal: GoalView::Store { path },
            };
            let (creating, create) = advance_of(generating, ReplyView::Message(message));
            let (writing, write) = advance_of(creating, ReplyView::Done);
            &&& create == TurnView {
                lines: message_lines(message),
                request: RequestView::CreateFile { path },
            }
            &&& write == quiet_turn(
                RequestView::WriteFile { text: json_text(envelope_tree(message, method)) },
            )
            &&& advance_of(writing, ReplyView::Done) == ended(Ok(()))
        }),
{
}

/// A text that reads as a stored message with a method is sent again as it
/// was stored: the message is shown and its body handed out for decoding,
/// and then that very message is handed out for sending, under the method
/// that was stored with it. Nothing is sent before that.
pub proof fn lemma_replay_sends_stored_message(
    text: Seq<char>,
    message: EncodedMessageView,
    method: Seq<char>,
    abi: Seq<char>,
    function: Seq<char>,
    output: JsonTree,
)
    requires
        envelope_of_text(text) == Ok::<(EncodedMessageView, Seq<char>), CallErrorView>(
            (message, method),
        ),
        method.len() > 0,
    ensures
        ({
            let replaying = SessionView::Connecting { plan: PlanView::Replay { text, abi } };
            let (decoding, decode) = advance_of(replaying, ReplyView::Done);
            let (submitting, submit) = advance_of(decoding, ReplyView::Body { function, output });
            &&& decoding == SessionView::Decoding { message, abi, method }
            &&& decode.lines == message_lines(message)
            &&& decode.request == RequestView::DecodeBody { abi, body: message.message_body }
            &&& submitting == SessionView::Submitting { soft: true }
            &&& submit.request == RequestView::ProcessMessage { message, abi, method }
        }),
{
}

/// A stored message whose method is the empty text is not sent again: the
/// operation ends with an error as soon as the text has been read, before
/// anything is decoded or sent.
pub proof fn lemma_replay_refuses_empty_method(text: Seq<char>, abi: Seq<char>)
    requires
        envelope_of_text(text) is Ok,
        envelope_of_text(text)->Ok_0.1.len() == 0,
    ensures
        advance_of(
            SessionView::Connecting { plan: PlanView::Replay { text, abi } },
            ReplyView::Done,
        ) == ended(Err(empty_method_error())),
{
}

/// Whatever a replay hands out for decoding or sending carries a method
/// that is not empty.
pub proof fn lemma_replay_never_sends_without_method(text: Seq<char>, abi: Seq<char>)
    ensures
        ({
            let (next, turn) = advance_of(
                SessionView::Connecting { plan: PlanView::Replay { text, abi } },
                ReplyView::Done,
            );
            &&& turn.request is Finish || turn.request is DecodeBody
            &&& turn.request is DecodeBody ==> next is Decoding && next->Decoding_method.len() > 0
        }),
{
}

} // verus!
