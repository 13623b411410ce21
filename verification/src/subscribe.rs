//! Subscription handling for the messaging tool: defaults of the subscribe
//! command, decoding of a received payload, and the decision to stop after a
//! message or to keep listening.

use vstd::prelude::*;
use vstd::utf8::{decode_utf8, valid_utf8};

verus! {

/// The resolved flags of a subscribe command: both default to false.
pub struct SubscribeConfig {
    pub watch: bool,
    pub verbose: bool,
}

/// Why handling a received message failed.
#[derive(Clone, Copy, PartialEq, Eq, Structural, Debug)]
pub enum SubscribeError {
    /// The payload is not valid UTF-8 text; nothing is printed for it.
    PayloadNotText,
}

/// What to do with one received message: print `text` (the decoded payload),
/// then stop listening exactly when `done` holds.
#[derive(Debug)]
pub struct MessageAction {
    pub text: String,
    pub done: bool,
}

impl SubscribeConfig {
    /// Resolves the optional flags of a subscribe command: watch and verbose
    /// both default to false.
    pub fn new(watch: Option<bool>, verbose: Option<bool>) -> (r: SubscribeConfig)
        ensures
            r.watch == (match watch {
                Some(w) => w,
                None => false,
            }),
            r.verbose == (match verbose {
                Some(v) => v,
                None => false,
            }),
    {
        let watch: bool = match watch {
            Some(w) => w,
            None => false,
        };
        let verbose: bool = match verbose {
            Some(v) => v,
            None => false,
        };
        SubscribeConfig { watch, verbose }
    }
}

impl SubscribeError {
    /// The descriptive message this failure is reported with.
    pub fn describe(&self) -> (r: String)
        ensures
            r@ == "Unable to parse message into utf-8. Please petition to authors to display raw bytes."@,
    {
        String::from_str(
            "Unable to parse message into utf-8. Please petition to authors to display raw bytes.",
        )
    }
}

/// Relies on String::from_utf8: it returns the decoded string exactly when
/// the bytes are valid UTF-8, and an error otherwise.
#[verifier::external_body]
fn bytes_to_text(bytes: Vec<u8>) -> (r: Option<String>)
    ensures
        r is Some <==> valid_utf8(bytes@),
        r is Some ==> r.unwrap()@ == decode_utf8(bytes@),
{
    String::from_utf8(bytes).ok()
}

/// Handles one received message: decodes the payload as text, which fails
/// exactly on payloads that are not valid UTF-8, and decides whether the
/// subscription is done, which it is exactly when `watch` is off.
pub fn handle_message(payload: Vec<u8>, watch: bool) -> (r: Result<MessageAction, SubscribeError>)
    ensures
        r is Ok <==> valid_utf8(payload@),
        r is Ok ==> r.unwrap().text@ == decode_utf8(payload@),
        r is Ok ==> r.unwrap().done == !watch,
        r is Err ==> r.unwrap_err() == SubscribeError::PayloadNotText,
{
    match bytes_to_text(payload) {
        Some(text) => Ok(MessageAction { text, done: !watch }),
        None => Err(SubscribeError::PayloadNotText),
    }
}

} // verus!
