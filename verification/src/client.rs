//! The client's side of an echo exchange: how many times it tries to
//! connect, how it gathers the reply until the server closes, and whether the
//! reply is the message it sent.
use vstd::prelude::*;
use crate::events::{ReadOutcome, concat_chunks, lemma_concat_chunks_push, append_prefix};
use crate::server::{ReplyPolicy, transcript, lemma_echo_transcript};

verus! {

/// What to do after a connection attempt failed.
#[derive(Clone, Copy, Debug, PartialEq, Eq, Structural)]
pub enum ConnectDecision {
    /// Pause, then make attempt number `next_attempt`.
    Retry { next_attempt: u32 },
    /// Every attempt failed: stop.
    GiveUp,
}

/// Number of the attempt that follows a failed attempt `attempt` out of
/// `limit`, if any.
pub open spec fn attempt_after(attempt: nat, limit: nat) -> Option<nat> {
    if attempt < limit {
        Some(attempt + 1)
    } else {
        None
    }
}

/// How many attempts a client makes, starting with attempt `attempt`, when
/// every one of them fails.
pub open spec fn attempts_if_all_fail(attempt: nat, limit: nat) -> nat
    decreases limit - attempt,
{
    match attempt_after(attempt, limit) {
        Some(next) => 1 + attempts_if_all_fail(next, limit),
        None => 1,
    }
}

/// The number of the first attempt, when at least one attempt is allowed.
pub fn first_attempt(limit: u32) -> (attempt: Option<u32>)
    ensures
        attempt == (if limit >= 1 { Some(1u32) } else { None::<u32> }),
{
    if limit >= 1 {
        Some(1)
    } else {
        None
    }
}

/// Decides what follows the failure of attempt `attempt` out of `limit`.
pub fn after_failed_attempt(attempt: u32, limit: u32) -> (d: ConnectDecision)
    requires
        1 <= attempt <= limit,
    ensures
        match attempt_after(attempt as nat, limit as nat) {
            Some(next) => d == ConnectDecision::Retry { next_attempt: next as u32 },
            None => d == ConnectDecision::GiveUp,
        },
{
    if attempt < limit {
        ConnectDecision::Retry { next_attempt: attempt + 1 }
    } else {
        ConnectDecision::GiveUp
    }
}

/// A client whose attempts all fail makes exactly `limit` attempts, counting
/// from the first, and then gives up.
pub proof fn lemma_attempts_bounded(attempt: nat, limit: nat)
    requires
        1 <= attempt <= limit,
    ensures
        attempts_if_all_fail(attempt, limit) == limit - attempt + 1,
    decreases limit - attempt,
{
    if attempt < limit {
        lemma_attempts_bounded(attempt + 1, limit);
    }
}

/// Where the gathering of a reply stands.
#[derive(Clone, Copy, Debug, PartialEq, Eq, Structural)]
pub enum ReceiveStatus {
    /// More of the reply may come.
    Receiving,
    /// The server closed its side: the reply is whole.
    Complete,
    /// A read failed.
    Failed,
}

/// What the client does after a read.
#[derive(Clone, Copy, Debug, PartialEq, Eq, Structural)]
pub enum ReceiveStep {
    /// Read again.
    ReadMore,
    /// The reply is whole.
    Done,
    /// A read failed: give up with an error.
    Abort,
}

/// The abstract state of a receiver: every chunk read so far, the bytes
/// gathered, and its status.
pub struct ReceiverView {
    pub chunks: Seq<Seq<u8>>,
    pub bytes: Seq<u8>,
    pub status: ReceiveStatus,
}

impl ReceiverView {
    /// The gathered bytes are the chunks, one after another.
    pub open spec fn wf(self) -> bool {
        self.bytes == concat_chunks(self.chunks)
    }
}

/// Gathers the server's reply, chunk by chunk, until the server closes.
pub struct Receiver {
    bytes: Vec<u8>,
    status: ReceiveStatus,
    chunks: Ghost<Seq<Seq<u8>>>,
}

impl View for Receiver {
    type V = ReceiverView;

    closed spec fn view(&self) -> ReceiverView {
        ReceiverView { chunks: self.chunks@, bytes: self.bytes@, status: self.status }
    }
}

impl Receiver {
    /// A receiver that has read nothing yet.
    pub fn new() -> (r: Receiver)
        ensures
            r@.wf(),
            r@.chunks == Seq::<Seq<u8>>::empty(),
            r@.bytes == Seq::<u8>::empty(),
            r@.status == ReceiveStatus::Receiving,
    {
        Receiver { bytes: Vec::new(), status: ReceiveStatus::Receiving, chunks: Ghost(Seq::empty()) }
    }

    /// Where the receiver stands.
    pub fn status(&self) -> (s: ReceiveStatus)
        ensures
            s == self@.status,
    {
        self.status
    }

    /// The bytes gathered so far.
    pub fn bytes(&self) -> (b: &[u8])
        ensures
            b@ == self@.bytes,
    {
        self.bytes.as_slice()
    }

    /// Takes the outcome of a read into `buffer`: zero bytes mean the reply
    /// is whole, a failure ends the exchange, and otherwise the first `n`
    /// bytes are added to the reply.
    pub fn on_read(&mut self, buffer: &[u8], outcome: ReadOutcome) -> (step: ReceiveStep)
        requires
            old(self)@.wf(),
            old(self)@.status == ReceiveStatus::Receiving,
            outcome matches ReadOutcome::Bytes(n) ==> n <= buffer@.len(),
        ensures
            final(self)@.wf(),
            match outcome {
                ReadOutcome::Bytes(n) => if n == 0 {
                    &&& final(self)@.chunks == old(self)@.chunks
                    &&& final(self)@.bytes == old(self)@.bytes
                    &&& final(self)@.status == ReceiveStatus::Complete
                    &&& step == ReceiveStep::Done
                } else {
                    &&& final(self)@.chunks == old(self)@.chunks.push(buffer@.subrange(0, n as int))
                    &&& final(self)@.bytes == old(self)@.bytes + buffer@.subrange(0, n as int)
                    &&& final(self)@.status == ReceiveStatus::Receiving
                    &&& step == ReceiveStep::ReadMore
                },
                ReadOutcome::Failed => {
                    &&& final(self)@.chunks == old(self)@.chunks
                    &&& final(self)@.bytes == old(self)@.bytes
                    &&& final(self)@.status == ReceiveStatus::Failed
                    &&& step == ReceiveStep::Abort
                },
            },
    {
        match outcome {
            ReadOutcome::Bytes(n) => {
                if n == 0 {
                    self.status = ReceiveStatus::Complete;
                    ReceiveStep::Done
                } else {
                    proof {
                        lemma_concat_chunks_push(self.chunks@, buffer@.subrange(0, n as int));
                    }
                    append_prefix(&mut self.bytes, buffer, n);
                    self.chunks = Ghost(self.chunks@.push(buffer@.subrange(0, n as int)));
                    ReceiveStep::ReadMore
                }
            },
            ReadOutcome::Failed => {
                self.status = ReceiveStatus::Failed;
                ReceiveStep::Abort
            },
        }
    }

    /// The whole reply.
    pub fn into_bytes(self) -> (b: Vec<u8>)
        ensures
            b@ == self@.bytes,
    {
        self.bytes
    }
}

/// Whether the reply is the message that was sent.
#[derive(Clone, Copy, Debug, PartialEq, Eq, Structural)]
pub enum EchoVerdict {
    Matches,
    Differs,
}

/// The text that a lossy UTF-8 decoding gives of `bytes`: invalid sequences
/// become replacement characters.
pub uninterp spec fn lossy_text(bytes: Seq<u8>) -> Seq<char>;

/// Calls `String::from_utf8_lossy`. Claimed: the result is the lossy decoding
/// of the bytes (a function of the bytes alone), and when the bytes are valid
/// UTF-8 it is exactly the text they encode, as the std documentation says of
/// valid input. What replaces invalid sequences is left unsaid.
#[verifier::external_body]
fn decode_lossy(bytes: &[u8]) -> (text: String)
    ensures
        text@ == lossy_text(bytes@),
        vstd::utf8::valid_utf8(bytes@) ==> text@ == vstd::utf8::decode_utf8(bytes@),
{
    String::from_utf8_lossy(bytes).into_owned()
}

/// Compares the decoded reply with the message.
pub fn check_echo(reply: &String, message: &String) -> (v: EchoVerdict)
    ensures
        (v == EchoVerdict::Matches) <==> (reply@ == message@),
{
    if reply.eq(message) {
        EchoVerdict::Matches
    } else {
        EchoVerdict::Differs
    }
}

/// Decodes the reply the client gathered, and says whether it is the message
/// it sent. A reply that carries exactly the message's bytes always matches.
pub fn judge_reply(reply: &[u8], message: &String) -> (r: (String, EchoVerdict))
    ensures
        r.0@ == lossy_text(reply@),
        (r.1 == EchoVerdict::Matches) <==> (r.0@ == message@),
        vstd::utf8::valid_utf8(reply@) ==> ((r.1 == EchoVerdict::Matches) <==> (
        vstd::utf8::decode_utf8(reply@) == message@)),
        reply@ == vstd::utf8::encode_utf8(message@) ==> r.1 == EchoVerdict::Matches,
{
    let text = decode_lossy(reply);
    proof {
        vstd::utf8::encode_utf8_valid_utf8(message@);
        vstd::utf8::encode_utf8_decode_utf8(message@);
    }
    let verdict = check_echo(&text, message);
    (text, verdict)
}

/// However the network splits the bytes, a client that sends a message to an
/// echo server and gathers its replies gets back exactly the message's bytes,
/// valid UTF-8 that decodes to the message.
pub proof fn lemma_echo_round_trip(
    message: Seq<char>,
    server_reads: Seq<Seq<u8>>,
    client_reads: Seq<Seq<u8>>,
)
    requires
        concat_chunks(server_reads) == vstd::utf8::encode_utf8(message),
        concat_chunks(client_reads) == transcript(ReplyPolicy::Echo, server_reads),
    ensures
        concat_chunks(client_reads) == vstd::utf8::encode_utf8(message),
        vstd::utf8::valid_utf8(concat_chunks(client_reads)),
        vstd::utf8::decode_utf8(concat_chunks(client_reads)) == message,
{
    lemma_echo_transcript(server_reads);
    vstd::utf8::encode_utf8_valid_utf8(message);
    vstd::utf8::encode_utf8_decode_utf8(message);
}

} // verus!
