//! The mailbox behind a session handle: an unbounded FIFO queue of
//! outbound operations. Handle operations enqueue and return at once;
//! the owning actor drains the queue and observes the operations in
//! exactly the order they were issued.

use vstd::prelude::*;

use crate::message::CloseFrame;

verus! {

/// An operation issued through a session handle, to be performed by the
/// owning session actor.
#[derive(Clone, Debug, PartialEq, Eq)]
pub enum HandleOp {
    /// Write a text message to the transport.
    SendText(String),
    /// Write a binary message to the transport.
    SendBinary(Vec<u8>),
    /// Initiate the close handshake with an optional close frame.
    SendClose(Option<CloseFrame>),
    /// An in-process call: deliver the request token to the actor's
    /// call callback, bypassing the wire.
    Call(u64),
}

/// The unbounded outbound queue shared between a session's handles and
/// its actor. Enqueuing never blocks and never fails, also after the
/// owning actor has terminated: operations queued then are simply never
/// drained.
pub struct Mailbox {
    ops: Vec<HandleOp>,
}

impl View for Mailbox {
    type V = Seq<HandleOp>;

    closed spec fn view(&self) -> Seq<HandleOp> {
        self.ops@
    }
}

impl Mailbox {
    /// A fresh, empty mailbox.
    pub fn new() -> (mailbox: Mailbox)
        ensures
            mailbox@ == Seq::<HandleOp>::empty(),
    {
        let mailbox = Mailbox { ops: Vec::new() };
        proof {
            assert(mailbox@ =~= Seq::<HandleOp>::empty());
        }
        mailbox
    }

    /// How many operations are queued and not yet drained.
    pub fn len(&self) -> (n: usize)
        ensures
            n == self@.len(),
    {
        self.ops.len()
    }

    /// Queue an operation. Appends behind everything already queued.
    pub fn enqueue(&mut self, op: HandleOp)
        ensures
            final(self)@ == old(self)@.push(op),
    {
        self.ops.push(op);
    }

    /// Queue a text send.
    pub fn send_text(&mut self, text: String)
        ensures
            final(self)@ == old(self)@.push(HandleOp::SendText(text)),
    {
        self.enqueue(HandleOp::SendText(text));
    }

    /// Queue a binary send.
    pub fn send_binary(&mut self, bytes: Vec<u8>)
        ensures
            final(self)@ == old(self)@.push(HandleOp::SendBinary(bytes)),
    {
        self.enqueue(HandleOp::SendBinary(bytes));
    }

    /// Queue a close request carrying an optional close frame.
    pub fn send_close(&mut self, frame: Option<CloseFrame>)
        ensures
            final(self)@ == old(self)@.push(HandleOp::SendClose(frame)),
    {
        self.enqueue(HandleOp::SendClose(frame));
    }

    /// Queue an in-process call.
    pub fn call(&mut self, request: u64)
        ensures
            final(self)@ == old(self)@.push(HandleOp::Call(request)),
    {
        self.enqueue(HandleOp::Call(request));
    }

    /// Dequeue the oldest operation, if any: the actor's read side.
    pub fn take_next(&mut self) -> (op: Option<HandleOp>)
        ensures
            old(self)@.len() == 0 ==> op is None && final(self)@ == old(self)@,
            old(self)@.len() > 0 ==> op == Some(old(self)@[0]) && final(self)@ == old(self)@.drop_first(),
    {
        if self.ops.len() == 0 {
            None
        } else {
            let first = self.ops.remove(0);
            proof {
                assert(self@ =~= old(self)@.drop_first());
            }
            Some(first)
        }
    }

    /// Drain the whole queue: the actor observes every queued operation,
    /// in exactly the order it was enqueued.
    pub fn drain(&mut self) -> (ops: Vec<HandleOp>)
        ensures
            ops@ == old(self)@,
            final(self)@ == Seq::<HandleOp>::empty(),
    {
        let mut out: Vec<HandleOp> = Vec::new();
        while self.ops.len() > 0
            invariant
                out@ + self.ops@ == old(self)@,
            decreases self.ops.len(),
        {
            let first = self.ops.remove(0);
            out.push(first);
            proof {
                assert(out@ + self.ops@ =~= old(self)@);
            }
        }
        proof {
            assert(out@ =~= old(self)@);
            assert(self@ =~= Seq::<HandleOp>::empty());
        }
        out
    }
}

/// The queue contents after enqueuing `ops` one at a time behind
/// `pending`.
pub open spec fn after_enqueues(pending: Seq<HandleOp>, ops: Seq<HandleOp>) -> Seq<HandleOp>
    decreases ops.len(),
{
    if ops.len() == 0 {
        pending
    } else {
        after_enqueues(pending.push(ops[0]), ops.drop_first())
    }
}

/// Law: enqueuing a batch of operations one at a time lands them behind
/// the pending ones in exactly submission order, so an actor that then
/// drains the mailbox observes all of them, in that order.
pub proof fn lemma_fifo_submission_order(pending: Seq<HandleOp>, ops: Seq<HandleOp>)
    ensures
        after_enqueues(pending, ops) == pending + ops,
    decreases ops.len(),
{
    if ops.len() == 0 {
        assert(after_enqueues(pending, ops) =~= pending + ops);
    } else {
        lemma_fifo_submission_order(pending.push(ops[0]), ops.drop_first());
        assert(pending.push(ops[0]) + ops.drop_first() =~= pending + ops);
    }
}

} // verus!
