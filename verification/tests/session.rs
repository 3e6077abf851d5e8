use serde_json::Value;
use tonlabs_cli::envelope::{msg_to_json, EncodedMessage};
use tonlabs_cli::error::{CallError, ErrorKind, Step};
use tonlabs_cli::keys::KeyPair;
use tonlabs_cli::console::{print_encoded_message, print_result};
use tonlabs_cli::session::{
    call_contract, call_contract_with_msg, generate_message, prepare_message, Aim, Draft, Goal,
    Job, Plan, Session,
};
use tonlabs_cli::steps::{create_client, expire_header, ClientSettings, Reply, Request, Turn};

const PUBLIC_HEX: &str = "000102030405060708090a0b0c0d0e0f101112131415161718191a1b1c1d1e1f";
const SECRET_HEX: &str = "202122232425262728292a2b2c2d2e2f303132333435363738393a3b3c3d3e3f";

fn s(text: &str) -> String {
    text.to_string()
}

fn lines(texts: &[&str]) -> Vec<String> {
    texts.iter().map(|t| t.to_string()).collect()
}

fn message() -> EncodedMessage {
    EncodedMessage { message_id: s("abc123"), message_body: vec![1, 2, 3], expire: Some(9999) }
}

fn settings(url: &str) -> ClientSettings {
    ClientSettings {
        base_url: s(url),
        message_retries_count: 0,
        message_expiration_timeout: 20000,
        message_processing_timeout: 20000,
        timeout_grow_percent: 150,
    }
}

fn finished(turn: &Turn) -> Option<Result<(), CallError>> {
    match &turn.request {
        Request::Finish { outcome } => Some(outcome.clone()),
        _ => None,
    }
}

fn failure(kind: ErrorKind, message: &str) -> Turn {
    Turn { lines: vec![], request: Request::Finish { outcome: Err(CallError { kind, message: s(message) }) } }
}

fn start_call(keys: Option<&str>, local: bool) -> (Session, Turn) {
    call_contract(s("https://net.ton.dev"), s("0:1234"), s("{abi}"), s("transfer"), s("{\"a\":1}"), keys.map(s), local)
}

fn sequential_pair() -> KeyPair {
    let mut bytes = [0u8; 64];
    for (i, b) in bytes.iter_mut().enumerate() {
        *b = ((i + 32) % 64) as u8;
    }
    KeyPair::from_bytes(bytes)
}

#[test]
fn client_settings_are_fixed() {
    assert_eq!(create_client(s("https://net.ton.dev")), settings("https://net.ton.dev"));
}

#[test]
fn call_starts_with_the_client() {
    let (session, turn) = start_call(None, true);
    assert_eq!(turn, Turn { lines: vec![], request: Request::CreateClient { settings: settings("https://net.ton.dev") } });
    assert_eq!(
        session,
        Session::Connecting {
            plan: Plan::Resolve {
                job: Job {
                    address: s("0:1234"),
                    abi: s("{abi}"),
                    method: s("transfer"),
                    params: s("{\"a\":1}"),
                    keys: None,
                    aim: Aim::Local,
                }
            }
        }
    );
}

#[test]
fn local_call_runs_and_prints_result() {
    let (session, _) = start_call(Some("ignored words here"), true);
    let (session, turn) = session.advance(Reply::Done);
    assert_eq!(turn, Turn { lines: vec![], request: Request::ParseAddress { address: s("0:1234") } });
    let (session, turn) = session.advance(Reply::Done);
    assert_eq!(session, Session::RunningLocal);
    assert_eq!(
        turn,
        Turn {
            lines: lines(&["Running get-method..."]),
            request: Request::RunLocal { abi: s("{abi}"), method: s("transfer"), params: s("{\"a\":1}") },
        }
    );
    let output: Value = serde_json::from_str("{\"value0\":\"0x10\"}").unwrap();
    let (session, turn) = session.advance(Reply::Output(output));
    assert_eq!(session, Session::Closed);
    assert_eq!(
        turn,
        Turn {
            lines: lines(&["Succeded.", "Result: {\n  \"value0\": \"0x10\"\n}"]),
            request: Request::Finish { outcome: Ok(()) },
        }
    );
}

#[test]
fn null_result_is_not_printed() {
    let (session, turn) = Session::RunningLocal.advance(Reply::Output(Value::Null));
    assert_eq!(session, Session::Closed);
    assert_eq!(turn, Turn { lines: lines(&["Succeded."]), request: Request::Finish { outcome: Ok(()) } });
    assert_eq!(print_result(&Value::Null), lines(&["Succeded."]));
    assert_eq!(print_result(&Value::Bool(false)), lines(&["Succeded.", "Result: false"]));
}

#[test]
fn unsigned_call_is_encoded_without_keys() {
    let (session, _) = start_call(None, false);
    let (session, _) = session.advance(Reply::Done);
    let (session, turn) = session.advance(Reply::Done);
    assert_eq!(
        turn,
        Turn {
            lines: lines(&["Generating external inbound message..."]),
            request: Request::CreateMessage {
                abi: s("{abi}"),
                method: s("transfer"),
                header: None,
                params: s("{\"a\":1}"),
                keys: None,
            },
        }
    );
    assert_eq!(session, Session::Encoding { abi: s("{abi}"), method: s("transfer"), goal: Goal::Submit });
    let (session, turn) = session.advance(Reply::Message(message()));
    assert_eq!(session, Session::Submitting { soft: false });
    assert_eq!(
        turn,
        Turn {
            lines: lines(&["MessageId: abc123", "Will expire at: 9999", "Processing message..."]),
            request: Request::ProcessMessage { message: message(), abi: s("{abi}"), method: s("transfer") },
        }
    );
    let (session, turn) = session.advance(Reply::Output(Value::Null));
    assert_eq!(session, Session::Closed);
    assert_eq!(finished(&turn), Some(Ok(())));
}

#[test]
fn single_word_key_argument_reads_key_file() {
    let (session, _) = start_call(Some("onlyoneword"), false);
    let (session, _) = session.advance(Reply::Done);
    let (session, turn) = session.advance(Reply::Done);
    assert_eq!(turn.request, Request::ReadKeys { path: s("onlyoneword") });
    assert_eq!(turn.lines, lines(&["Generating external inbound message..."]));
    let (session, turn) = session.advance(Reply::Keys(sequential_pair()));
    assert_eq!(
        turn,
        Turn {
            lines: vec![],
            request: Request::CreateMessage {
                abi: s("{abi}"),
                method: s("transfer"),
                header: None,
                params: s("{\"a\":1}"),
                keys: Some(sequential_pair()),
            },
        }
    );
    assert_eq!(session, Session::Encoding { abi: s("{abi}"), method: s("transfer"), goal: Goal::Submit });
}

#[test]
fn phrase_key_argument_derives_keys() {
    let phrase = "abandon ability able about above absent";
    let (session, _) = start_call(Some(phrase), false);
    let (session, _) = session.advance(Reply::Done);
    let (session, turn) = session.advance(Reply::Done);
    assert_eq!(turn.request, Request::DeriveKeys { phrase: s(phrase) });
    let (_, turn) = session.advance(Reply::HexKeys { public: s(PUBLIC_HEX), secret: s(SECRET_HEX) });
    assert_eq!(
        turn.request,
        Request::CreateMessage {
            abi: s("{abi}"),
            method: s("transfer"),
            header: None,
            params: s("{\"a\":1}"),
            keys: Some(sequential_pair()),
        }
    );
}

#[test]
fn phrase_with_double_space_is_handed_out_unchanged() {
    let (_, turn) = prepare_message(s("a"), s("m"), s("p"), None, Some(s(" two  words ")), Goal::Submit);
    assert_eq!(turn.request, Request::DeriveKeys { phrase: s(" two  words ") });
}

#[test]
fn derived_keys_that_do_not_decode_end_the_call() {
    let draft = Draft { abi: s("a"), method: s("m"), params: s("p"), header: None, goal: Goal::Submit };
    let (session, turn) = Session::DerivingKeys { draft }
        .advance(Reply::HexKeys { public: s("nothex"), secret: s(SECRET_HEX) });
    assert_eq!(session, Session::Closed);
    assert_eq!(turn, failure(ErrorKind::Decode, "failed to decode public key: Invalid character 'n' at position 0"));
}

#[test]
fn prepare_message_without_keys_asks_for_the_message() {
    let (session, turn) =
        prepare_message(s("a"), s("m"), s("p"), Some(s("{\"expire\":1}")), None, Goal::Store { path: s("out.json") });
    assert_eq!(
        turn,
        Turn {
            lines: vec![],
            request: Request::CreateMessage {
                abi: s("a"),
                method: s("m"),
                header: Some(s("{\"expire\":1}")),
                params: s("p"),
                keys: None,
            },
        }
    );
    assert_eq!(session, Session::Encoding { abi: s("a"), method: s("m"), goal: Goal::Store { path: s("out.json") } });
}

#[test]
fn every_step_fails_with_its_own_prefix() {
    let draft = || Draft { abi: s("a"), method: s("m"), params: s("p"), header: None, goal: Goal::Submit };
    let job = || Job { address: s("x"), abi: s("a"), method: s("m"), params: s("p"), keys: None, aim: Aim::Submit };
    let cases: Vec<(Session, ErrorKind, &str)> = vec![
        (
            Session::Connecting { plan: Plan::Resolve { job: job() } },
            ErrorKind::Collaborator(Step::CreateClient),
            "failed to create tonclient: boom",
        ),
        (
            Session::Connecting { plan: Plan::Replay { text: s("{}"), abi: s("a") } },
            ErrorKind::Collaborator(Step::CreateClient),
            "failed to create tonclient: boom",
        ),
        (Session::Resolving { job: job() }, ErrorKind::Input, "failed to parse address: boom"),
        (Session::RunningLocal, ErrorKind::Collaborator(Step::RunLocal), "run failed: boom"),
        (Session::ReadingKeys { draft: draft() }, ErrorKind::Collaborator(Step::ReadKeys), "boom"),
        (Session::DerivingKeys { draft: draft() }, ErrorKind::Collaborator(Step::DeriveKeys), "boom"),
        (
            Session::Encoding { abi: s("a"), method: s("m"), goal: Goal::Submit },
            ErrorKind::Collaborator(Step::CreateMessage),
            "failed to create inbound message: boom",
        ),
        (
            Session::Decoding { message: message(), abi: s("a"), method: s("m") },
            ErrorKind::Collaborator(Step::DecodeBody),
            "failed to decode message body: boom",
        ),
        (
            Session::Submitting { soft: false },
            ErrorKind::Collaborator(Step::ProcessMessage),
            "transaction failed: boom",
        ),
        (
            Session::Creating { text: s("t") },
            ErrorKind::Collaborator(Step::CreateFile),
            "failed to create file for msg: boom",
        ),
        (Session::Writing, ErrorKind::Collaborator(Step::WriteFile), "failed to write message to file: boom"),
        (Session::Closed, ErrorKind::Input, "the operation has ended: boom"),
    ];
    for (session, kind, text) in cases {
        let (next, turn) = session.advance(Reply::Failed(s("boom")));
        assert_eq!(next, Session::Closed);
        assert_eq!(turn, failure(kind, text));
    }
}

#[test]
fn unexpected_reply_fails_the_awaited_step() {
    let (next, turn) = Session::RunningLocal.advance(Reply::Done);
    assert_eq!(next, Session::Closed);
    assert_eq!(turn, failure(ErrorKind::Collaborator(Step::RunLocal), "run failed: unexpected reply"));
    let (next, turn) = Session::Writing.advance(Reply::Message(message()));
    assert_eq!(next, Session::Closed);
    assert_eq!(
        turn,
        failure(ErrorKind::Collaborator(Step::WriteFile), "failed to write message to file: unexpected reply")
    );
}

#[test]
fn closed_session_stays_closed() {
    let (next, turn) = Session::Closed.advance(Reply::Done);
    assert_eq!(next, Session::Closed);
    assert_eq!(turn, failure(ErrorKind::Input, "the operation has ended: unexpected reply"));
}

#[test]
fn message_lines_show_id_and_expiry() {
    assert_eq!(print_encoded_message(&message()), lines(&["MessageId: abc123", "Will expire at: 9999"]));
    let mut msg = message();
    msg.expire = None;
    assert_eq!(print_encoded_message(&msg), lines(&["MessageId: abc123"]));
    msg.expire = Some(0);
    assert_eq!(print_encoded_message(&msg), lines(&["MessageId: abc123", "Will expire at: 0"]));
    msg.expire = Some(u32::MAX);
    assert_eq!(print_encoded_message(&msg), lines(&["MessageId: abc123", "Will expire at: 4294967295"]));
}

#[test]
fn expire_header_is_a_json_object() {
    assert_eq!(expire_header(9999), "{\"expire\":9999}");
    assert_eq!(expire_header(0), "{\"expire\":0}");
    assert_eq!(expire_header(u32::MAX), "{\"expire\":4294967295}");
}

#[test]
fn generation_writes_the_envelope() {
    let (session, turn) = generate_message(
        s("https://net.ton.dev"),
        s("0:1234"),
        s("{abi}"),
        s("submit"),
        s("{}"),
        Some(s("keys.json")),
        s("message.json"),
        9999,
    );
    assert_eq!(turn.request, Request::CreateClient { settings: settings("https://net.ton.dev") });
    let (session, turn) = session.advance(Reply::Done);
    assert_eq!(turn.request, Request::ParseAddress { address: s("0:1234") });
    let (session, turn) = session.advance(Reply::Done);
    assert_eq!(turn, Turn { lines: vec![], request: Request::ReadKeys { path: s("keys.json") } });
    let (session, turn) = session.advance(Reply::Keys(sequential_pair()));
    assert_eq!(
        turn.request,
        Request::CreateMessage {
            abi: s("{abi}"),
            method: s("submit"),
            header: Some(s("{\"expire\":9999}")),
            params: s("{}"),
            keys: Some(sequential_pair()),
        }
    );
    let (session, turn) = session.advance(Reply::Message(message()));
    assert_eq!(
        turn,
        Turn {
            lines: lines(&["MessageId: abc123", "Will expire at: 9999"]),
            request: Request::CreateFile { path: s("message.json") },
        }
    );
    let (session, turn) = session.advance(Reply::Done);
    assert_eq!(session, Session::Writing);
    assert_eq!(turn, Turn { lines: vec![], request: Request::WriteFile { text: msg_to_json(&message(), "submit") } });
    let (session, turn) = session.advance(Reply::Done);
    assert_eq!(session, Session::Closed);
    assert_eq!(turn, Turn { lines: vec![], request: Request::Finish { outcome: Ok(()) } });
}

fn generated_text() -> String {
    let (session, _) = generate_message(s("u"), s("0:1"), s("{abi}"), s("submit"), s("{}"), None, s("m.json"), 9999);
    let (session, _) = session.advance(Reply::Done);
    let (session, _) = session.advance(Reply::Done);
    let (session, _) = session.advance(Reply::Message(message()));
    let (_, turn) = session.advance(Reply::Done);
    match turn.request {
        Request::WriteFile { text } => text,
        other => panic!("no text to write: {:?}", other),
    }
}

#[test]
fn end_to_end_generate_then_replay() {
    let text = generated_text();
    let (session, turn) = call_contract_with_msg(s("https://net.ton.dev"), text, s("{abi}"));
    assert_eq!(turn.request, Request::CreateClient { settings: settings("https://net.ton.dev") });
    let (session, turn) = session.advance(Reply::Done);
    assert_eq!(session, Session::Decoding { message: message(), abi: s("{abi}"), method: s("submit") });
    match &session {
        Session::Decoding { message, method, .. } => {
            assert_eq!(method, "submit");
            assert_eq!(message.expire, Some(9999));
        }
        other => panic!("not decoding: {:?}", other),
    }
    assert_eq!(
        turn,
        Turn {
            lines: lines(&["MessageId: abc123", "Will expire at: 9999"]),
            request: Request::DecodeBody { abi: s("{abi}"), body: vec![1, 2, 3] },
        }
    );
    let output: Value = serde_json::from_str("{\"dest\":\"0:5\"}").unwrap();
    let (session, turn) = session.advance(Reply::Body { function: s("submit"), output });
    assert_eq!(session, Session::Submitting { soft: true });
    assert_eq!(
        turn,
        Turn {
            lines: lines(&["Calling method submit with parameters:", "{\"dest\":\"0:5\"}", "Processing message..."]),
            request: Request::ProcessMessage { message: message(), abi: s("{abi}"), method: s("submit") },
        }
    );
    let (session, turn) = session.advance(Reply::Output(Value::String(s("done"))));
    assert_eq!(session, Session::Closed);
    assert_eq!(
        turn,
        Turn { lines: lines(&["Succeded.", "Result: \"done\""]), request: Request::Finish { outcome: Ok(()) } }
    );
}

#[test]
fn replay_failure_is_printed_and_not_returned() {
    let (session, turn) = Session::Submitting { soft: true }.advance(Reply::Failed(s("node is down")));
    assert_eq!(session, Session::Closed);
    assert_eq!(
        turn,
        Turn { lines: lines(&["Error: Failed: node is down"]), request: Request::Finish { outcome: Ok(()) } }
    );
}

#[test]
fn replay_of_bad_text_ends_before_anything_is_sent() {
    let (session, _) = call_contract_with_msg(s("u"), s("{\"msg\": {\"message_id\": \"x\"}}"), s("{abi}"));
    let (session, turn) = session.advance(Reply::Done);
    assert_eq!(session, Session::Closed);
    assert_eq!(turn, failure(ErrorKind::Schema, "couldn't find \"method\" key in message"));
    let (session, _) = call_contract_with_msg(s("u"), s("not json"), s("{abi}"));
    let (_, turn) = session.advance(Reply::Done);
    assert_eq!(finished(&turn).unwrap().unwrap_err().kind, ErrorKind::Parse);
}

#[test]
fn replay_checks_the_client_before_the_text() {
    let (session, _) = call_contract_with_msg(s("u"), s("not json"), s("{abi}"));
    let (_, turn) = session.advance(Reply::Failed(s("no network")));
    assert_eq!(turn, failure(ErrorKind::Collaborator(Step::CreateClient), "failed to create tonclient: no network"));
}

#[test]
fn replay_of_empty_method_ends_before_anything_is_sent() {
    let text = "{\"msg\":{\"message_id\":\"x\",\"message_body\":\"AQID\"},\"method\":\"\"}";
    let (session, turn) = call_contract_with_msg(s("u"), s(text), s("{abi}"));
    assert_eq!(turn.request, Request::CreateClient { settings: settings("u") });
    let (session, turn) = session.advance(Reply::Done);
    assert_eq!(session, Session::Closed);
    assert_eq!(turn, failure(ErrorKind::Schema, "\"method\" key in message is empty"));
    let (session, turn) = session.advance(Reply::Done);
    assert_eq!(session, Session::Closed);
    assert!(finished(&turn).unwrap().is_err());
}

#[test]
fn replay_of_generated_empty_method_is_refused() {
    let text = msg_to_json(&message(), "");
    let (session, _) = call_contract_with_msg(s("u"), text, s("{abi}"));
    let (session, turn) = session.advance(Reply::Done);
    assert_eq!(session, Session::Closed);
    assert_eq!(turn, failure(ErrorKind::Schema, "\"method\" key in message is empty"));
}

#[test]
fn replay_of_one_letter_method_goes_on() {
    let text = msg_to_json(&message(), "m");
    let (session, _) = call_contract_with_msg(s("u"), text, s("{abi}"));
    let (session, turn) = session.advance(Reply::Done);
    assert_eq!(session, Session::Decoding { message: message(), abi: s("{abi}"), method: s("m") });
    assert_eq!(turn.request, Request::DecodeBody { abi: s("{abi}"), body: vec![1, 2, 3] });
}
