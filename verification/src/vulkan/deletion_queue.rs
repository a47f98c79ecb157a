use vstd::prelude::*;

verus! {

/// Deferred clean-up work, run in the order it was queued (a queue of
/// `Box<dyn FnMut()>` takes closures of any kind).
pub struct DeletionQueue<F: FnMut()> {
    deletors: Vec<F>,
    flushed: Ghost<Seq<F>>,
}

impl<F: FnMut()> DeletionQueue<F> {
    /// The queued work, oldest first.
    pub closed spec fn deletors(&self) -> Seq<F> {
        self.deletors@
    }

    /// The queue's own record of the work its flushes ran, in the order they
    /// ran it; the record is written by `flush` beside each call.
    pub closed spec fn flushed(&self) -> Seq<F> {
        self.flushed@
    }

    /// An empty queue that has run nothing.
    pub fn new() -> (q: Self)
        ensures
            q.deletors() == Seq::<F>::empty(),
            q.flushed() == Seq::<F>::empty(),
    {
        DeletionQueue { deletors: Vec::new(), flushed: Ghost(Seq::empty()) }
    }

    /// Queues `func` after the work already queued.
    pub fn push(&mut self, func: F)
        ensures
            final(self).deletors() == old(self).deletors().push(func),
            final(self).flushed() == old(self).flushed(),
    {
        self.deletors.push(func);
    }

    /// Runs every queued function once, oldest first, and empties the queue; the
    /// queued work is added, in that order, to what flushes have run.
    pub fn flush(&mut self)
        requires
            forall|i: int| 0 <= i < old(self).deletors().len() ==> call_requires(#[trigger] old(self).deletors()[i], ()),
        ensures
            final(self).deletors() == Seq::<F>::empty(),
            forall|i: int| 0 <= i < old(self).deletors().len() ==> call_ensures(#[trigger] old(self).deletors()[i], (), ()),
            final(self).flushed() == old(self).flushed() + old(self).deletors(),
    {
        let ghost ran_before = self.flushed@;
        let ghost queued = self.deletors@;
        let n = self.deletors.len();
        assert forall|k: int| 0 <= k < queued.len() implies call_requires(#[trigger] queued[k], ()) by {
            assert(queued[k] == old(self).deletors()[k]);
        }
        let mut i: usize = 0;
        while self.deletors.len() > 0
            invariant
                i <= queued.len(),
                n == queued.len(),
                self.deletors@ == queued.subrange(i as int, queued.len() as int),
                forall|k: int| 0 <= k < queued.len() ==> call_requires(#[trigger] queued[k], ()),
                forall|k: int| 0 <= k < i ==> call_ensures(#[trigger] queued[k], (), ()),
                self.flushed@ == ran_before + queued.take(i as int),
            decreases self.deletors@.len(),
        {
            let mut deleter = self.deletors.remove(0);
            assert(deleter == queued[i as int]);
            deleter();
            proof {
                self.flushed@ = self.flushed@.push(queued[i as int]);
                assert(queued.take(i + 1) =~= queued.take(i as int).push(queued[i as int]));
            }
            i = i + 1;
        }
    }
}

impl<F: FnMut()> Default for DeletionQueue<F> {
    fn default() -> (q: Self)
        ensures
            q.deletors() == Seq::<F>::empty(),
            q.flushed() == Seq::<F>::empty(),
    {
        Self::new()
    }
}

} // verus!
