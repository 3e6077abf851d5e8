//! The lines that an operation prints.

use vstd::prelude::*;
use vstd::string::*;
use serde_json::Value;
use crate::envelope::{EncodedMessage, EncodedMessageView};
use crate::json::{json_is_null, json_pretty_text, json_to_pretty_string, json_tree, JsonTree};
use crate::text::{decimal_string, decimal_text, prefixed, text_views};

verus! {

/// The lines that show a message: its identifier, and the time of expiry
/// where it has one.
pub open spec fn message_lines(message: EncodedMessageView) -> Seq<Seq<char>> {
    match message.expire {
        Some(at) => seq![
            "MessageId: "@ + message.message_id,
            "Will expire at: "@ + decimal_text(at as nat),
        ],
        None => seq!["MessageId: "@ + message.message_id],
    }
}

/// The lines that report success: the word itself, and the result where it
/// is not null.
pub open spec fn success_lines(output: JsonTree) -> Seq<Seq<char>> {
    if output is Null {
        seq!["Succeded."@]
    } else {
        seq!["Succeded."@, "Result: "@ + json_pretty_text(output)]
    }
}

/// No lines.
pub(crate) fn no_lines() -> (lines: Vec<String>)
    ensures
        text_views(lines@) == Seq::<Seq<char>>::empty(),
{
    let lines: Vec<String> = Vec::new();
    assert(text_views(lines@) =~= Seq::<Seq<char>>::empty());
    lines
}

/// Adds a line at the end.
pub(crate) fn add_line(lines: &mut Vec<String>, line: String)
    ensures
        text_views(final(lines)@) == text_views(old(lines)@).push(line@),
{
    lines.push(line);
    assert(text_views(lines@) =~= text_views(old(lines)@).push(line@));
}

/// The lines that show a message.
pub fn print_encoded_message(message: &EncodedMessage) -> (lines: Vec<String>)
    ensures
        text_views(lines@) == message_lines(message@),
{
    let mut lines = no_lines();
    add_line(&mut lines, prefixed("MessageId: ", message.message_id.as_str()));
    match message.expire {
        Some(at) => {
            let numeral = decimal_string(at as u64);
            add_line(&mut lines, prefixed("Will expire at: ", numeral.as_str()));
            assert(text_views(lines@) =~= message_lines(message@));
        },
        None => {
            assert(text_views(lines@) =~= message_lines(message@));
        },
    }
    lines
}

/// The lines that report the success of a run or of a transaction.
pub fn print_result(output: &Value) -> (lines: Vec<String>)
    ensures
        text_views(lines@) == success_lines(json_tree(*output)),
{
    let mut lines = no_lines();
    add_line(&mut lines, String::from_str("Succeded."));
    if !json_is_null(output) {
        let pretty = json_to_pretty_string(output);
        add_line(&mut lines, prefixed("Result: ", pretty.as_str()));
    }
    assert(text_views(lines@) =~= success_lines(json_tree(*output)));
    lines
}

} // verus!
