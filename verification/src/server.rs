//! One client connection as the server sees it: every message read is
//! answered by one reply (the message itself, or a fixed text), until the peer
//! closes its side or the connection fails.
use vstd::prelude::*;
use crate::events::{ReadOutcome, WriteOutcome, concat_chunks, lemma_concat_chunks_push, copy_prefix};
use crate::settings::REPLY_DELAY_SECS;

verus! {

/// How the server answers a message.
#[derive(Clone, Copy, Debug, PartialEq, Eq, Structural)]
pub enum ReplyPolicy {
    /// Send the received bytes back unchanged.
    Echo,
    /// Wait a moment, then send the fixed reply text whatever was received.
    Fixed,
}

/// Why a session ended.
#[derive(Clone, Copy, Debug, PartialEq, Eq, Structural)]
pub enum CloseReason {
    /// The peer closed its side: a read gave zero bytes.
    PeerClosed,
    /// A read failed.
    ReadFailed,
    /// Sending a reply failed.
    WriteFailed,
}

/// Where a session stands.
#[derive(Clone, Copy, Debug, PartialEq, Eq, Structural)]
pub enum Phase {
    /// Waiting for the next read.
    Reading,
    /// A reply has been handed out and its write is pending.
    Replying,
    /// Nothing more happens on this connection.
    Closed(CloseReason),
}

/// What the transport has to do next.
#[derive(Debug)]
pub enum Action {
    /// Read again into the buffer.
    ReadMore,
    /// Wait `delay_secs` seconds, then write all of `bytes`.
    Reply { delay_secs: u64, bytes: Vec<u8> },
    /// Close the connection.
    Close(CloseReason),
}

/// The text of the fixed reply.
pub open spec fn fixed_reply_text() -> Seq<char> {
    "mensagem de resposta do servidor"@
}

/// The bytes of the fixed reply.
pub open spec fn fixed_reply_bytes() -> Seq<u8> {
    vstd::utf8::encode_utf8(fixed_reply_text())
}

/// The reply to one message.
pub open spec fn reply_to(policy: ReplyPolicy, message: Seq<u8>) -> Seq<u8> {
    match policy {
        ReplyPolicy::Echo => message,
        ReplyPolicy::Fixed => fixed_reply_bytes(),
    }
}

/// How long the server waits before it replies.
pub open spec fn reply_delay(policy: ReplyPolicy) -> u64 {
    match policy {
        ReplyPolicy::Echo => 0,
        ReplyPolicy::Fixed => REPLY_DELAY_SECS,
    }
}

/// The replies to `messages`, one after another.
pub open spec fn transcript(policy: ReplyPolicy, messages: Seq<Seq<u8>>) -> Seq<u8>
    decreases messages.len(),
{
    if messages.len() == 0 {
        Seq::empty()
    } else {
        transcript(policy, messages.drop_last()) + reply_to(policy, messages.last())
    }
}

/// `bytes` written `k` times in a row.
pub open spec fn repeat_bytes(bytes: Seq<u8>, k: nat) -> Seq<u8>
    decreases k,
{
    if k == 0 {
        Seq::empty()
    } else {
        repeat_bytes(bytes, (k - 1) as nat) + bytes
    }
}

/// The abstract state of a session: its policy, its phase, every message
/// read so far (each non-empty), and how many of them have been answered by a
/// completed write.
pub struct SessionView {
    pub policy: ReplyPolicy,
    pub phase: Phase,
    pub messages: Seq<Seq<u8>>,
    pub answered: nat,
}

impl SessionView {
    /// Every message is non-empty; while reading, all of them are answered;
    /// while replying, all but the last; a closed session may leave the last one
    /// unanswered.
    pub open spec fn wf(self) -> bool {
        &&& forall|i: int| 0 <= i < self.messages.len() ==> #[trigger] self.messages[i].len() > 0
        &&& self.answered <= self.messages.len()
        &&& match self.phase {
            Phase::Reading => self.answered == self.messages.len(),
            Phase::Replying => self.answered + 1 == self.messages.len(),
            Phase::Closed(_) => self.answered + 1 >= self.messages.len(),
        }
    }

    /// Every byte read on the connection, in order.
    pub open spec fn received(self) -> Seq<u8> {
        concat_chunks(self.messages)
    }

    /// Every byte of the replies whose write completed, in order.
    pub open spec fn sent(self) -> Seq<u8> {
        transcript(self.policy, self.messages.take(self.answered as int))
    }
}

/// A session on one accepted connection.
pub struct Session {
    policy: ReplyPolicy,
    phase: Phase,
    messages: Ghost<Seq<Seq<u8>>>,
    answered: Ghost<nat>,
}

impl View for Session {
    type V = SessionView;

    closed spec fn view(&self) -> SessionView {
        SessionView {
            policy: self.policy,
            phase: self.phase,
            messages: self.messages@,
            answered: self.answered@,
        }
    }
}

/// The fixed reply, as bytes.
pub fn fixed_reply() -> (bytes: Vec<u8>)
    ensures
        bytes@ == fixed_reply_bytes(),
{
    let text: &str = "mensagem de resposta do servidor";
    let raw = text.as_bytes();
    let bytes = copy_prefix(raw, raw.len());
    assert(bytes@ =~= raw@);
    bytes
}

impl Session {
    /// A fresh session, waiting for its first read.
    pub fn new(policy: ReplyPolicy) -> (s: Session)
        ensures
            s@.wf(),
            s@.policy == policy,
            s@.phase == Phase::Reading,
            s@.messages == Seq::<Seq<u8>>::empty(),
            s@.answered == 0,
    {
        Session { policy, phase: Phase::Reading, messages: Ghost(Seq::empty()), answered: Ghost(0) }
    }

    /// The policy of the session.
    pub fn policy(&self) -> (p: ReplyPolicy)
        ensures
            p == self@.policy,
    {
        self.policy
    }

    /// Where the session stands.
    pub fn phase(&self) -> (p: Phase)
        ensures
            p == self@.phase,
    {
        self.phase
    }

    /// Takes the outcome of a read into `buffer`. Zero bytes close the
    /// session (the peer is done), a failure closes it too; otherwise the first
    /// `n` bytes are a message, and the action is its reply.
    pub fn on_read(&mut self, buffer: &[u8], outcome: ReadOutcome) -> (action: Action)
        requires
            old(self)@.wf(),
            old(self)@.phase == Phase::Reading,
            outcome matches ReadOutcome::Bytes(n) ==> n <= buffer@.len(),
        ensures
            final(self)@.wf(),
            final(self)@.policy == old(self)@.policy,
            final(self)@.answered == old(self)@.answered,
            match outcome {
                ReadOutcome::Bytes(n) => if n == 0 {
                    &&& final(self)@.phase == Phase::Closed(CloseReason::PeerClosed)
                    &&& final(self)@.messages == old(self)@.messages
                    &&& action == Action::Close(CloseReason::PeerClosed)
                } else {
                    &&& final(self)@.phase == Phase::Replying
                    &&& final(self)@.messages == old(self)@.messages.push(buffer@.subrange(0, n as int))
                    &&& final(self)@.received() == old(self)@.received() + buffer@.subrange(0, n as int)
                    &&& action matches Action::Reply { delay_secs, bytes }
                    &&& delay_secs == reply_delay(old(self)@.policy)
                    &&& bytes@ == reply_to(old(self)@.policy, buffer@.subrange(0, n as int))
                },
                ReadOutcome::Failed => {
                    &&& final(self)@.phase == Phase::Closed(CloseReason::ReadFailed)
                    &&& final(self)@.messages == old(self)@.messages
                    &&& action == Action::Close(CloseReason::ReadFailed)
                },
            },
    {
        match outcome {
            ReadOutcome::Bytes(n) => {
                if n == 0 {
                    self.phase = Phase::Closed(CloseReason::PeerClosed);
                    Action::Close(CloseReason::PeerClosed)
                } else {
                    let message = copy_prefix(buffer, n);
                    let ghost old_messages = self.messages@;
                    self.messages = Ghost(self.messages@.push(message@));
                    self.phase = Phase::Replying;
                    proof {
                        lemma_concat_chunks_push(old_messages, message@);
                        assert forall|i: int| 0 <= i < self.messages@.len() implies
                            #[trigger] self.messages@[i].len() > 0 by {
                            if i < old_messages.len() {
                                assert(self.messages@[i] == old_messages[i]);
                            }
                        }
                    }
                    match self.policy {
                        ReplyPolicy::Echo => Action::Reply { delay_secs: 0, bytes: message },
                        ReplyPolicy::Fixed => Action::Reply {
                            delay_secs: REPLY_DELAY_SECS,
                            bytes: fixed_reply(),
                        },
                    }
                }
            },
            ReadOutcome::Failed => {
                self.phase = Phase::Closed(CloseReason::ReadFailed);
                Action::Close(CloseReason::ReadFailed)
            },
        }
    }

    /// Takes the outcome of writing the pending reply. A completed write
    /// answers the latest message and the session reads again; a failed one
    /// closes the session.
    pub fn on_write(&mut self, outcome: WriteOutcome) -> (action: Action)
        requires
            old(self)@.wf(),
            old(self)@.phase == Phase::Replying,
        ensures
            final(self)@.wf(),
            final(self)@.policy == old(self)@.policy,
            final(self)@.messages == old(self)@.messages,
            match outcome {
                WriteOutcome::Sent => {
                    &&& final(self)@.phase == Phase::Reading
                    &&& final(self)@.answered == old(self)@.answered + 1
                    &&& final(self)@.sent() == old(self)@.sent() + reply_to(
                        old(self)@.policy,
                        old(self)@.messages.last(),
                    )
                    &&& action == Action::ReadMore
                },
                WriteOutcome::Failed => {
                    &&& final(self)@.phase == Phase::Closed(CloseReason::WriteFailed)
                    &&& final(self)@.answered == old(self)@.answered
                    &&& action == Action::Close(CloseReason::WriteFailed)
                },
            },
    {
        match outcome {
            WriteOutcome::Sent => {
                let ghost old_view = self@;
                self.answered = Ghost(self.answered@ + 1);
                self.phase = Phase::Reading;
                proof {
                    let ms = old_view.messages;
                    assert(ms.take(ms.len() as int).drop_last() =~= ms.take(old_view.answered as int));
                    assert(ms.take(ms.len() as int).last() == ms.last());
                }
                Action::ReadMore
            },
            WriteOutcome::Failed => {
                self.phase = Phase::Closed(CloseReason::WriteFailed);
                Action::Close(CloseReason::WriteFailed)
            },
        }
    }
}

/// An echo server's replies, put together, are exactly the bytes it read.
pub proof fn lemma_echo_transcript(messages: Seq<Seq<u8>>)
    ensures
        transcript(ReplyPolicy::Echo, messages) == concat_chunks(messages),
    decreases messages.len(),
{
    if messages.len() > 0 {
        lemma_echo_transcript(messages.drop_last());
    }
}

/// A fixed-reply server sends the fixed reply once per message, whatever the
/// messages held.
pub proof fn lemma_fixed_transcript(messages: Seq<Seq<u8>>)
    ensures
        transcript(ReplyPolicy::Fixed, messages) == repeat_bytes(fixed_reply_bytes(), messages.len()),
    decreases messages.len(),
{
    if messages.len() > 0 {
        lemma_fixed_transcript(messages.drop_last());
    }
}

/// Whenever an echo session waits for a read, it has sent back every byte it
/// has read, in order.
pub proof fn lemma_echo_session_sent_everything(v: SessionView)
    requires
        v.wf(),
        v.policy == ReplyPolicy::Echo,
        v.phase == Phase::Reading,
    ensures
        v.sent() == v.received(),
{
    assert(v.messages.take(v.answered as int) =~= v.messages);
    lemma_echo_transcript(v.messages);
}

/// A fixed-reply session has sent the fixed reply once per completed write.
pub proof fn lemma_fixed_session_sent(v: SessionView)
    requires
        v.wf(),
        v.policy == ReplyPolicy::Fixed,
    ensures
        v.sent() == repeat_bytes(fixed_reply_bytes(), v.answered),
{
    lemma_fixed_transcript(v.messages.take(v.answered as int));
}

} // verus!
