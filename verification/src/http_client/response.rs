//! What a response means for the caller: a body to read, or a fault that the
//! daemon reported.

use crate::errors::Error;
use crate::stream::{joined, Collected, Materialize, Pulled};
use crate::text::opt_view;
use vstd::prelude::*;
use vstd::string::StringExecFns;

verus! {

/// The statuses on which the body belongs to the caller: OK, Created,
/// No Content and Switching Protocols.
pub open spec fn is_success(status: u16) -> bool {
    status == 200 || status == 201 || status == 204 || status == 101
}

/// The standard reason phrase of a status code, as `http::StatusCode` knows
/// it. Codes without one, and numbers that are no status code, have none.
pub uninterp spec fn canonical_reason_of(status: u16) -> Option<Seq<char>>;

/// `http::StatusCode::canonical_reason`, for the status with the given
/// number: its standard reason phrase, if it has one.
#[verifier::external_body]
pub(crate) fn canonical_reason(status: u16) -> (reason: Option<String>)
    ensures
        opt_view(reason) == canonical_reason_of(status),
{
    http::StatusCode::from_u16(status).ok()?.canonical_reason().map(|reason| reason.to_owned())
}

/// The text of a member of a JSON object: what `serde_json` finds under the
/// name `member` in the object that the bytes spell. There is none if the
/// bytes are not JSON, spell no object, or the object has no such member or
/// one that is no string.
pub uninterp spec fn json_string_member(body: Seq<u8>, member: Seq<char>) -> Option<Seq<char>>;

/// `serde_json::from_slice` into a `serde_json::Value`, read with
/// `Value::get` and `Value::as_str`: the text of the member `member`, if the
/// bytes are a JSON object that has it as a string.
#[verifier::external_body]
fn json_member_text(body: &[u8], member: &str) -> (text: Option<String>)
    ensures
        opt_view(text) == json_string_member(body@, member@),
{
    let value: serde_json::Value = serde_json::from_slice(body).ok()?;
    value.get(member)?.as_str().map(|text| text.to_owned())
}

/// The message that an error body carries: the text of its member
/// `message`.
pub fn get_error_message(body: &[u8]) -> (message: Option<String>)
    ensures
        opt_view(message) == json_string_member(body@, "message"@),
{
    json_member_text(body, "message")
}

/// The message of a fault: what the error body says, else the status's
/// standard reason phrase, else a fixed text.
pub open spec fn fault_message(parsed: Option<Seq<char>>, reason: Option<Seq<char>>) -> Seq<char> {
    match parsed {
        Some(message) => message,
        None => match reason {
            Some(reason) => reason,
            None => "unknown error code"@,
        },
    }
}

/// Picks the message of a fault from what the error body said and from the
/// status's reason phrase.
pub fn pick_fault_message(parsed: Option<String>, reason: Option<String>) -> (message: String)
    ensures
        message@ == fault_message(opt_view(parsed), opt_view(reason)),
{
    match parsed {
        Some(message) => message,
        None => match reason {
            Some(reason) => reason,
            None => String::from_str("unknown error code"),
        },
    }
}

/// The fault that a response of the given status and fully read body
/// reports. Its message is the text of the body's member `message`, else the
/// status's standard reason phrase, else a fixed text.
pub fn fault(status: u16, body: &[u8]) -> (e: Error)
    ensures
        e matches Error::Fault { code, message } && code == status && message@ == fault_message(
            json_string_member(body@, "message"@),
            canonical_reason_of(status),
        ),
{
    let message = pick_fault_message(get_error_message(body), canonical_reason(status));
    Error::Fault { code: status, message }
}

/// Decides whether a request for an upgrade was granted: only the status
/// 101 grants it, and anything else is `Error::ConnectionNotUpgraded`.
pub fn upgraded(status: u16) -> (r: Result<(), Error>)
    ensures
        status == 101 ==> r is Ok,
        status != 101 ==> r matches Err(Error::ConnectionNotUpgraded),
{
    if status == 101 {
        Ok(())
    } else {
        Err(Error::ConnectionNotUpgraded)
    }
}

/// Where the interpretation of one response stands.
pub enum InterpreterState {
    /// The status is known to be a fault, and the body is being read to the
    /// end.
    Draining { status: u16, collected: Seq<u8> },
    /// The one outcome of the response has been handed out.
    Settled,
}

impl InterpreterState {
    /// The state after one more group of bytes of the body arrived.
    pub open spec fn take(self, bytes: Seq<u8>) -> InterpreterState {
        match self {
            InterpreterState::Draining { status, collected } => InterpreterState::Draining {
                status,
                collected: collected + bytes,
            },
            InterpreterState::Settled => InterpreterState::Settled,
        }
    }

    /// The state after several groups of bytes arrived, one by one.
    pub open spec fn take_all(self, chunks: Seq<Seq<u8>>) -> InterpreterState
        decreases chunks.len(),
    {
        if chunks.len() == 0 {
            self
        } else {
            self.take(chunks[0]).take_all(chunks.skip(1))
        }
    }
}

/// A fault is made from the whole body.
///
/// On a status that is no success, however the body is cut into groups of
/// bytes, the interpreter is still draining after all of them and holds
/// every byte of the body in order. It is from this state that the end of
/// the body makes the fault.
pub proof fn fault_waits_for_whole_body(status: u16, chunks: Seq<Seq<u8>>)
    ensures
        (InterpreterState::Draining { status, collected: Seq::empty() }).take_all(chunks)
            == (InterpreterState::Draining { status, collected: joined(chunks) }),
{
    lemma_draining_joins(status, Seq::empty(), chunks);
    assert(Seq::<u8>::empty() + joined(chunks) =~= joined(chunks));
}

proof fn lemma_draining_joins(status: u16, collected: Seq<u8>, chunks: Seq<Seq<u8>>)
    ensures
        (InterpreterState::Draining { status, collected }).take_all(chunks)
            == (InterpreterState::Draining { status, collected: collected + joined(chunks) }),
    decreases chunks.len(),
{
    if chunks.len() == 0 {
        assert(collected + joined(chunks) =~= collected);
    } else {
        lemma_draining_joins(status, collected + chunks[0], chunks.skip(1));
        assert((collected + chunks[0]) + joined(chunks.skip(1)) =~= collected + joined(chunks));
    }
}

/// What the interpreter wants done next.
#[derive(Debug)]
pub enum Verdict {
    /// Hand the unread body to the caller.
    Deliver,
    /// Read the next group of bytes of the body and come back with it.
    Pull,
    /// Report this error to the caller. The body needs no further reading.
    Fail(Error),
    /// The response was settled before, and nothing is to be done.
    Nothing,
}

/// Interprets one response: on a success status the body goes to the caller
/// unread, and on any other the body is read to its end and turned into a
/// fault.
pub struct Interpreter {
    status: u16,
    body: Materialize,
}

impl View for Interpreter {
    type V = InterpreterState;

    closed spec fn view(&self) -> InterpreterState {
        if self.body@.finished {
            InterpreterState::Settled
        } else {
            InterpreterState::Draining { status: self.status, collected: self.body@.collected }
        }
    }
}

impl Interpreter {
    /// Looks at the status of a response that has just arrived.
    ///
    /// On a success status the verdict is to deliver the body, and the
    /// response is settled. On any other status the verdict is to pull, and
    /// the interpreter starts draining with nothing collected.
    pub fn start(status: u16) -> (r: (Interpreter, Verdict))
        ensures
            is_success(status) ==> r.0@ is Settled && r.1 is Deliver,
            !is_success(status) ==> r.0@ == (InterpreterState::Draining {
                status,
                collected: Seq::empty(),
            }) && r.1 is Pull,
    {
        let mut body = Materialize::new();
        if status == 200 || status == 201 || status == 204 || status == 101 {
            body.close();
            (Interpreter { status, body }, Verdict::Deliver)
        } else {
            (Interpreter { status, body }, Verdict::Pull)
        }
    }

    /// Takes what a pull on the body brought.
    ///
    /// While draining, more bytes are collected and another pull is asked
    /// for. The end of the body settles the response with the fault made
    /// from the status and all the bytes collected. A failed pull settles it
    /// with that failure, and what was collected is dropped. Once settled,
    /// nothing is done and no pull is asked for.
    pub fn step(&mut self, pulled: Pulled) -> (verdict: Verdict)
        ensures
            match old(self)@ {
                InterpreterState::Settled => final(self)@ is Settled && verdict is Nothing,
                InterpreterState::Draining { status, collected } => match pulled {
                    Pulled::Chunk(bytes) => final(self)@ == old(self)@.take(bytes@)
                        && verdict is Pull,
                    Pulled::Failed(e) => final(self)@ is Settled && verdict == Verdict::Fail(e),
                    Pulled::End => final(self)@ is Settled && (verdict matches Verdict::Fail(
                        Error::Fault { code, message },
                    ) && code == status && message@ == fault_message(
                        json_string_member(collected, "message"@),
                        canonical_reason_of(status),
                    )),
                },
            },
    {
        match self.body.feed(pulled) {
            Collected::More => Verdict::Pull,
            Collected::Complete(bytes) => Verdict::Fail(fault(self.status, bytes.as_slice())),
            Collected::Failed(e) => Verdict::Fail(e),
            Collected::Closed => Verdict::Nothing,
        }
    }
}

} // verus!
