use vstd::prelude::*;

verus! {

/// The reading end of a reactor's signal queue: the signals that were sent and not
/// yet taken, oldest first. Its view is that sequence.
pub struct Receiver<T> {
    pub queue: Vec<T>,
}

impl<T> View for Receiver<T> {
    type V = Seq<T>;

    open spec fn view(&self) -> Seq<T> {
        self.queue@
    }
}

impl<T> Receiver<T> {
    /// A receiver over the signals that `queue` already holds.
    pub fn new(queue: Vec<T>) -> (receiver: Receiver<T>)
        ensures
            receiver@ == queue@,
    {
        Receiver { queue }
    }

    /// Takes every waiting signal, oldest first, and leaves the queue empty.
    pub fn take_all(&mut self) -> (signals: Vec<T>)
        ensures
            signals@ == old(self)@,
            final(self)@ == Seq::<T>::empty(),
    {
        let mut taken: Vec<T> = Vec::new();
        std::mem::swap(&mut self.queue, &mut taken);
        taken
    }
}

/// The sending end of a reactor's signal queue, as seen from one thread: it knows
/// the identity of the thread on which the reactor runs.
#[derive(Clone, Copy, Debug)]
pub struct Sender {
    thread_id: u64,
}

impl Sender {
    /// Identity of the thread that reads the queue.
    pub closed spec fn reactor_thread(&self) -> u64 {
        self.thread_id
    }

    /// A sender towards the reactor that runs on thread `thread_id`.
    pub fn new(thread_id: u64) -> (sender: Sender)
        ensures
            sender.reactor_thread() == thread_id,
    {
        Sender { thread_id }
    }

    /// Puts `item` behind the signals that wait in `queue`. The result says whether
    /// the reactor has to be woken: it has, unless the calling thread,
    /// `current_thread`, is the reactor's own, which looks at the queue after its
    /// current dispatch pass anyway.
    pub fn send<T>(&self, queue: &mut Receiver<T>, item: T, current_thread: u64) -> (wake: bool)
        ensures
            final(queue)@ == old(queue)@.push(item),
            wake == (current_thread != self.reactor_thread()),
    {
        queue.queue.push(item);
        self.thread_id != current_thread
    }
}

/// The sequence that waits after the items of `items` were sent, one after the other,
/// to a queue that held `waiting`.
pub open spec fn sent_all<T>(waiting: Seq<T>, items: Seq<T>) -> Seq<T>
    decreases items.len(),
{
    if items.len() == 0 {
        waiting
    } else {
        sent_all(waiting, items.drop_last()).push(items.last())
    }
}

/// Signals sent one after the other wait in the order in which they were sent,
/// behind those that waited before: taking all of them gives that order.
pub proof fn lemma_sent_in_order<T>(waiting: Seq<T>, items: Seq<T>)
    ensures
        sent_all(waiting, items) == waiting + items,
    decreases items.len(),
{
    if items.len() == 0 {
        assert(waiting + items =~= waiting);
    } else {
        lemma_sent_in_order(waiting, items.drop_last());
        assert(waiting + items =~= (waiting + items.drop_last()).push(items.last()));
    }
}

} // verus!
