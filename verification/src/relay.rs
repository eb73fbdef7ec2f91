//! A relay: the bounded, ordered, single-producer/single-consumer message
//! queue that carries commands to a session driver and events back from it.
//!
//! Producers never block: a send onto a full relay hands the message back
//! and leaves the relay unchanged, favouring liveness over completeness of
//! the delivered history.

use vstd::prelude::*;

verus! {

/// A bounded FIFO queue with non-blocking, drop-on-full sends.
pub struct Relay<T> {
    queue: Vec<T>,
    cap: usize,
}

impl<T> Relay<T> {
    /// The messages currently buffered, oldest first.
    pub closed spec fn contents(&self) -> Seq<T> {
        self.queue@
    }

    /// The bound the relay was created with.
    pub closed spec fn capacity(&self) -> int {
        self.cap as int
    }

    /// A relay never buffers more than its bound and has a positive bound.
    pub open spec fn wf(&self) -> bool {
        self.contents().len() <= self.capacity() && self.capacity() >= 1
    }

    /// A fresh, empty relay with the given bound.
    pub fn new(cap: usize) -> (r: Self)
        requires
            cap >= 1,
        ensures
            r.contents() == Seq::<T>::empty(),
            r.capacity() == cap,
            r.wf(),
    {
        Relay { queue: Vec::new(), cap }
    }

    pub fn len(&self) -> (n: usize)
        ensures
            n == self.contents().len(),
    {
        self.queue.len()
    }

    pub fn is_empty(&self) -> (b: bool)
        ensures
            b == (self.contents().len() == 0),
    {
        self.queue.len() == 0
    }

    pub fn is_full(&self) -> (b: bool)
        ensures
            b == (self.contents().len() >= self.capacity()),
    {
        self.queue.len() >= self.cap
    }

    /// Non-blocking send: appends when there is room, otherwise returns
    /// the message to the caller and changes nothing.
    pub fn try_send(&mut self, t: T) -> (r: Result<(), T>)
        requires
            old(self).wf(),
        ensures
            final(self).capacity() == old(self).capacity(),
            final(self).wf(),
            old(self).contents().len() < old(self).capacity() ==> {
                &&& r is Ok
                &&& final(self).contents() == old(self).contents().push(t)
            },
            old(self).contents().len() >= old(self).capacity() ==> {
                &&& r == Result::<(), T>::Err(t)
                &&& final(self).contents() == old(self).contents()
            },
    {
        if self.queue.len() < self.cap {
            self.queue.push(t);
            Ok(())
        } else {
            Err(t)
        }
    }

    /// Non-blocking receive: pops the oldest message, or returns `None`
    /// on an empty relay.
    pub fn try_recv(&mut self) -> (r: Option<T>)
        requires
            old(self).wf(),
        ensures
            final(self).capacity() == old(self).capacity(),
            final(self).wf(),
            old(self).contents().len() == 0 ==> {
                &&& r is None
                &&& final(self).contents() == old(self).contents()
            },
            old(self).contents().len() > 0 ==> {
                &&& r == Some(old(self).contents()[0])
                &&& final(self).contents() == old(self).contents().drop_first()
            },
    {
        if self.queue.len() == 0 {
            None
        } else {
            let t = self.queue.remove(0);
            proof {
                assert(self.queue@ =~= old(self).queue@.drop_first());
            }
            Some(t)
        }
    }
}

/// What one `try_send` does to the buffered messages: appends below the
/// bound, drops the message at the bound.
pub open spec fn send_effect<T>(contents: Seq<T>, cap: int, t: T) -> Seq<T> {
    if contents.len() < cap {
        contents.push(t)
    } else {
        contents
    }
}

/// A full relay drops, it does not grow and it does not block: sending
/// onto a relay at its bound leaves the buffered messages exactly as they
/// were. Together with `Relay::try_send` always returning, this is the
/// liveness-over-completeness policy under backpressure.
pub proof fn law_bounded_drop<T>(contents: Seq<T>, cap: int, t: T)
    requires
        contents.len() >= cap,
    ensures
        send_effect(contents, cap, t) == contents,
{
}

/// What a whole sequence of sends, one by one in order, does to the
/// buffered messages.
pub open spec fn send_all<T>(contents: Seq<T>, cap: int, msgs: Seq<T>) -> Seq<T>
    decreases msgs.len(),
{
    if msgs.len() == 0 {
        contents
    } else {
        send_all(send_effect(contents, cap, msgs[0]), cap, msgs.drop_first())
    }
}

/// Submission order is kept: submitting a sequence of messages to a relay
/// with room for all of them buffers exactly those messages, after the
/// ones already there, unreordered and undropped — and receives hand them
/// back oldest first.
pub proof fn law_submission_order<T>(contents: Seq<T>, cap: int, msgs: Seq<T>)
    requires
        contents.len() + msgs.len() <= cap,
    ensures
        send_all(contents, cap, msgs) == contents + msgs,
    decreases msgs.len(),
{
    if msgs.len() == 0 {
        assert(contents + msgs =~= contents);
    } else {
        law_submission_order(contents.push(msgs[0]), cap, msgs.drop_first());
        assert(contents.push(msgs[0]) + msgs.drop_first() =~= contents + msgs);
    }
}

} // verus!
