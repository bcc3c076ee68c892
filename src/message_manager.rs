//! The message queue of the affine thread: closures posted from any context
//! wait here, in the order they came, until the dispatch loop hands them out.

use vstd::prelude::*;

verus! {

/// One entry of the queue: a posted item, or the request to stop the loop.
#[derive(Debug, PartialEq, Eq)]
pub enum Message<M> {
    Call(M),
    Quit,
}

/// The posted items that come before the first stop request, in order.
pub open spec fn calls_before_quit<M>(q: Seq<Message<M>>) -> Seq<M>
    decreases q.len(),
{
    if q.len() == 0 {
        Seq::empty()
    } else {
        match q[0] {
            Message::Call(m) => seq![m] + calls_before_quit(q.drop_first()),
            Message::Quit => Seq::empty(),
        }
    }
}

/// What stays queued once the loop has run: everything after the first stop
/// request, or nothing when no stop request is queued.
pub open spec fn after_quit<M>(q: Seq<Message<M>>) -> Seq<Message<M>>
    decreases q.len(),
{
    if q.len() == 0 {
        Seq::empty()
    } else {
        match q[0] {
            Message::Call(_) => after_quit(q.drop_first()),
            Message::Quit => q.drop_first(),
        }
    }
}

/// A first-in first-out queue of posted items with a stop request.
pub struct MessageManager<M> {
    queue: Vec<Message<M>>,
    stop_sent: bool,
}

impl<M> MessageManager<M> {
    /// The entries waiting to be dispatched, oldest first.
    pub closed spec fn pending(&self) -> Seq<Message<M>> {
        self.queue@
    }

    /// Whether a stop request has been posted.
    pub closed spec fn stop_requested(&self) -> bool {
        self.stop_sent
    }

    /// An empty queue with no stop request.
    pub fn new() -> (r: Self)
        ensures
            r.pending() == Seq::<Message<M>>::empty(),
            !r.stop_requested(),
    {
        MessageManager { queue: Vec::new(), stop_sent: false }
    }

    /// Posts an item for the affine thread and returns at once.
    pub fn call_async(&mut self, callback: M)
        ensures
            final(self).pending() == old(self).pending().push(Message::Call(callback)),
            final(self).stop_requested() == old(self).stop_requested(),
    {
        self.queue.push(Message::Call(callback));
    }

    /// Whether a stop request has been posted.
    pub fn has_stop_message_been_sent(&self) -> (r: bool)
        ensures
            r == self.stop_requested(),
    {
        self.stop_sent
    }

    /// Posts a request to stop the dispatch loop, behind the items already
    /// posted.
    pub fn stop_dispatch_loop(&mut self)
        ensures
            final(self).pending() == old(self).pending().push(Message::Quit),
            final(self).stop_requested(),
    {
        self.queue.push(Message::Quit);
        self.stop_sent = true;
    }

    /// The number of entries waiting.
    pub fn num_pending(&self) -> (r: usize)
        ensures
            r == self.pending().len(),
    {
        self.queue.len()
    }

    /// Takes the oldest entry. A stop request ends the loop: `None` is
    /// returned for it as for an empty queue.
    pub fn dispatch_next(&mut self) -> (r: Option<M>)
        ensures
            old(self).pending().len() == 0 ==> r is None && final(self).pending() == old(
                self,
            ).pending(),
            old(self).pending().len() > 0 ==> {
                &&& final(self).pending() == old(self).pending().drop_first()
                &&& r == match old(self).pending()[0] {
                    Message::Call(m) => Some(m),
                    Message::Quit => None::<M>,
                }
            },
            final(self).stop_requested() == old(self).stop_requested(),
    {
        if self.queue.len() == 0 {
            return None;
        }
        match self.queue.remove(0) {
            Message::Call(m) => Some(m),
            Message::Quit => None,
        }
    }

    /// Runs the dispatch loop: hands out, oldest first, every posted item up
    /// to the first stop request, and consumes that request. Items posted
    /// after it stay queued.
    pub fn run_dispatch_loop(&mut self) -> (r: Vec<M>)
        ensures
            r@ == calls_before_quit(old(self).pending()),
            final(self).pending() == after_quit(old(self).pending()),
            final(self).stop_requested() == old(self).stop_requested(),
    {
        let mut out: Vec<M> = Vec::new();
        loop
            invariant
                out@ + calls_before_quit(self.queue@) == calls_before_quit(old(self).pending()),
                after_quit(self.queue@) == after_quit(old(self).pending()),
                self.stop_sent == old(self).stop_requested(),
            decreases self.queue@.len(),
        {
            if self.queue.len() == 0 {
                return out;
            }
            let ghost q = self.queue@;
            match self.queue.remove(0) {
                Message::Call(m) => {
                    assert(q.drop_first() == self.queue@);
                    out.push(m);
                    assert(calls_before_quit(q) == seq![m] + calls_before_quit(self.queue@));
                    assert(out@ + calls_before_quit(self.queue@) =~= (out@.drop_last() + seq![m])
                        + calls_before_quit(self.queue@));
                },
                Message::Quit => {
                    assert(q.drop_first() == self.queue@);
                    assert(calls_before_quit(q) == Seq::<M>::empty());
                    assert(out@ =~= out@ + Seq::<M>::empty());
                    return out;
                },
            }
        }
    }
}

} // verus!
