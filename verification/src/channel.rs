use vstd::prelude::*;

verus! {

use crate::executor::{Fatal, ReadyQueue, wake_task, READY_CAPACITY};
use crate::future::Poll;

// ---------------------------------------------------------------------------
// Event mailbox: a single-slot, overwrite-on-send, single-consumer channel.
//
// A send stores the item, replacing any unconsumed prior item (coalescing:
// only the most recent event matters to the consumer), and wakes the
// registered receiver if there is one. Receiving is a two-phase wait: the
// first poll registers the receiving task's identity and stays pending; a
// later poll takes the stored item if one is present.
// ---------------------------------------------------------------------------

/// The shared slot: at most one stored item and at most one registered
/// receiver identity.
pub struct Channel<T> {
    item: Option<T>,
    waker: Option<usize>,
}

impl<T> Channel<T> {
    /// The stored item, if any.
    pub closed spec fn stored(self) -> Option<T> {
        self.item
    }

    /// The registered receiver task identity, if any.
    pub closed spec fn registered(self) -> Option<usize> {
        self.waker
    }

    pub fn new() -> (c: Channel<T>)
        ensures
            c.stored() == Option::<T>::None,
            c.registered() == Option::<usize>::None,
    {
        Channel { item: None, waker: None }
    }

    pub fn get_sender(&self) -> (s: Sender) {
        Sender {  }
    }

    pub fn get_receiver(&self) -> (r: Receiver)
        ensures
            !r.waiting(),
    {
        Receiver { state: ReceiverState::Init }
    }

    /// Stores `item`, overwriting any unconsumed prior item, and wakes the
    /// registered receiver, if any. Storing itself cannot fail; the only
    /// failure is the fatal ready-queue overflow while waking.
    pub fn send(&mut self, ready: &mut ReadyQueue, item: T) -> (r: Result<(), Fatal>)
        ensures
            final(self).stored() == Some(item),
            final(self).registered() == old(self).registered(),
            match old(self).registered() {
                Some(id) => {
                    &&& old(ready).ids().len() < READY_CAPACITY
                        ==> r is Ok && final(ready).ids() == old(ready).ids().push(id)
                    &&& old(ready).ids().len() >= READY_CAPACITY
                        ==> r == Err::<(), Fatal>(Fatal::ReadyQueueFull(id))
                            && *final(ready) == *old(ready)
                },
                None => r is Ok && *final(ready) == *old(ready),
            },
    {
        self.item = Some(item);
        match self.waker {
            Some(id) => wake_task(ready, id),
            None => Ok(()),
        }
    }

    /// Takes the stored item, leaving the slot empty.
    pub fn receive(&mut self) -> (r: Option<T>)
        ensures
            r == old(self).stored(),
            final(self).stored() == Option::<T>::None,
            final(self).registered() == old(self).registered(),
    {
        self.item.take()
    }

    /// Registers `task_id` as the receiver to wake on the next send,
    /// replacing any previously registered receiver.
    pub fn register(&mut self, task_id: usize)
        ensures
            final(self).stored() == old(self).stored(),
            final(self).registered() == Some(task_id),
    {
        self.waker = Some(task_id);
    }
}

/// The producer handle of a mailbox.
pub struct Sender {}

impl Sender {
    /// Sends `item` through `channel`: stores it (overwriting) and wakes the
    /// registered receiver, if any.
    pub fn send<T>(&self, channel: &mut Channel<T>, ready: &mut ReadyQueue, item: T) -> (r: Result<
        (),
        Fatal,
    >)
        ensures
            final(channel).stored() == Some(item),
            final(channel).registered() == old(channel).registered(),
            match old(channel).registered() {
                Some(id) => {
                    &&& old(ready).ids().len() < READY_CAPACITY
                        ==> r is Ok && final(ready).ids() == old(ready).ids().push(id)
                    &&& old(ready).ids().len() >= READY_CAPACITY
                        ==> r == Err::<(), Fatal>(Fatal::ReadyQueueFull(id))
                            && *final(ready) == *old(ready)
                },
                None => r is Ok && *final(ready) == *old(ready),
            },
    {
        channel.send(ready, item)
    }
}

enum ReceiverState {
    Init,
    Wait,
}

/// The consumer handle of a mailbox. Only one outstanding receiver per
/// channel is supported.
pub struct Receiver {
    state: ReceiverState,
}

impl Receiver {
    /// Whether the first poll has already registered this receiver.
    pub closed spec fn waiting(self) -> bool {
        self.state is Wait
    }

    /// One poll of the two-phase receive. The first poll registers
    /// `task_id` with the channel and stays pending; every later poll takes
    /// the stored item if one is present and stays pending otherwise.
    pub fn receive<T>(&mut self, channel: &mut Channel<T>, task_id: usize) -> (p: Poll<T>)
        ensures
            final(self).waiting(),
            !old(self).waiting() ==> {
                &&& p == Poll::<T>::Pending
                &&& final(channel).stored() == old(channel).stored()
                &&& final(channel).registered() == Some(task_id)
            },
            old(self).waiting() ==> {
                &&& final(channel).registered() == old(channel).registered()
                &&& match old(channel).stored() {
                    Some(v) => p == Poll::Ready(v) && final(channel).stored() == Option::<T>::None,
                    None => p == Poll::<T>::Pending && final(channel).stored() == Option::<T>::None,
                }
            },
    {
        match self.state {
            ReceiverState::Init => {
                channel.register(task_id);
                self.state = ReceiverState::Wait;
                Poll::Pending
            },
            ReceiverState::Wait => {
                match channel.receive() {
                    Some(item) => Poll::Ready(item),
                    None => Poll::Pending,
                }
            },
        }
    }
}

// ---------------------------------------------------------------------------
// Laws of the mailbox.
// ---------------------------------------------------------------------------

/// Law: a send followed by a receive yields the sent value exactly once. The
/// hypotheses are the postconditions of `send` and of two waiting-phase
/// `receive` calls in sequence; the conclusion is that the first receive
/// yields exactly the sent value and the second yields nothing.
pub proof fn lemma_mailbox_exactly_once<T>(
    c1: Channel<T>,
    c2: Channel<T>,
    c3: Channel<T>,
    v: T,
    r1: Option<T>,
    r2: Option<T>,
)
    requires
        c1.stored() == Some(v),  // after send(v)
        r1 == c1.stored() && c2.stored() == Option::<T>::None,  // first take
        r2 == c2.stored() && c3.stored() == Option::<T>::None,  // second take
    ensures
        r1 == Some(v),
        r2 == Option::<T>::None,
{
}

/// Law: a second send before the item is consumed overwrites the first
/// (last-write-wins); the receive that follows yields only the later value.
pub proof fn lemma_mailbox_overwrites<T>(
    c1: Channel<T>,
    c2: Channel<T>,
    v1: T,
    v2: T,
    r: Option<T>,
)
    requires
        c1.stored() == Some(v1),  // after send(v1)
        c2.stored() == Some(v2),  // after send(v2)
        r == c2.stored(),  // the take that follows
    ensures
        r == Some(v2),
{
}

} // verus!
