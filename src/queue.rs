use vstd::prelude::*;

verus! {

/// What became of a frame offered to a [`FrameQueue`].
pub enum Admission<T> {
    /// The frame was appended behind the frames already waiting.
    Queued,
    /// The queue was full: the frame is handed back and nothing else changed.
    Dropped(T),
    /// The sending side was closed: the frame is handed back.
    Closed(T),
}

/// A fixed-capacity FIFO between one producer and one consumer: the
/// in-process model of the frame channel's policy, for single-threaded use
/// such as simulating a pipeline. The threaded pipeline uses the crossbeam
/// channel of [`crate::channel`], which follows the same policy when offered
/// frames with `try_send`.
///
/// A producer never waits on it: a frame offered while the queue is full is
/// dropped (the newest frame loses), so the producer's cost per frame does
/// not depend on the consumer. Once the sending side is closed, the consumer
/// still receives every frame that was waiting, then observes the end.
///
/// Besides the waiting frames the queue keeps, as ghost state, every frame
/// ever offered, the positions among them of the frames that were admitted,
/// and how many admitted frames were delivered; these pin down the order in
/// which frames come out.
pub struct FrameQueue<T> {
    items: Vec<T>,
    capacity: usize,
    closed: bool,
    offered: Ghost<Seq<T>>,
    admitted_at: Ghost<Seq<int>>,
    delivered: Ghost<Seq<T>>,
}

/// The frames among `offered` at the positions `at`, in that order.
pub open spec fn picked<T>(offered: Seq<T>, at: Seq<int>) -> Seq<T> {
    at.map_values(|i: int| offered[i])
}

/// `at` lists positions of `offered` in strictly increasing order.
pub open spec fn increasing_positions<T>(offered: Seq<T>, at: Seq<int>) -> bool {
    &&& forall|k: int| 0 <= k < at.len() ==> 0 <= #[trigger] at[k] < offered.len()
    &&& forall|j: int, k: int| 0 <= j < k < at.len() ==> at[j] < at[k]
}

/// `sub` is `full` with some of its elements left out, the rest in order.
pub open spec fn is_subsequence<T>(sub: Seq<T>, full: Seq<T>) -> bool {
    exists|at: Seq<int>| #[trigger] increasing_positions(full, at) && sub == picked(full, at)
}

impl<T> FrameQueue<T> {
    /// The frames waiting, oldest first.
    pub closed spec fn contents(&self) -> Seq<T> {
        self.items@
    }

    pub closed spec fn capacity_spec(&self) -> nat {
        self.capacity as nat
    }

    pub closed spec fn is_closed(&self) -> bool {
        self.closed
    }

    /// Every frame ever offered, admitted or not, in the order offered.
    pub closed spec fn offered(&self) -> Seq<T> {
        self.offered@
    }

    /// Every frame handed to the consumer so far, in the order handed out.
    pub closed spec fn delivered(&self) -> Seq<T> {
        self.delivered@
    }

    /// Every frame that was admitted, in the order admitted.
    pub closed spec fn admitted(&self) -> Seq<T> {
        picked(self.offered@, self.admitted_at@)
    }

    pub closed spec fn wf(&self) -> bool {
        &&& self.capacity >= 1
        &&& self.items@.len() <= self.capacity
        &&& increasing_positions(self.offered@, self.admitted_at@)
        &&& picked(self.offered@, self.admitted_at@) == self.delivered@ + self.items@
    }

    /// The facts that hold of every well-formed queue.
    pub proof fn lemma_wf(&self)
        requires
            self.wf(),
        ensures
            self.contents().len() <= self.capacity_spec(),
            self.capacity_spec() >= 1,
            self.admitted() == self.delivered() + self.contents(),
            is_subsequence(self.admitted(), self.offered()),
    {
        assert(increasing_positions(self.offered@, self.admitted_at@));
    }

    /// Frames leave in the order they were offered, whatever was dropped on
    /// the way: what the consumer received is the offered sequence with some
    /// frames left out, and what still waits follows it in admission order.
    pub proof fn lemma_fifo_order(&self)
        requires
            self.wf(),
        ensures
            is_subsequence(self.delivered(), self.offered()),
            is_subsequence(self.delivered() + self.contents(), self.offered()),
    {
        let at = self.admitted_at@;
        let d = self.delivered@.len() as int;
        let prefix = at.take(d);
        assert(picked(self.offered@, at).take(d) =~= self.delivered@);
        assert(picked(self.offered@, prefix) =~= picked(self.offered@, at).take(d));
        assert(increasing_positions(self.offered@, prefix));
        assert(increasing_positions(self.offered@, at));
    }

    /// An empty, open queue that holds at most `capacity` frames.
    pub fn new(capacity: usize) -> (q: Self)
        requires
            capacity >= 1,
        ensures
            q.wf(),
            q.contents() == Seq::<T>::empty(),
            q.capacity_spec() == capacity,
            !q.is_closed(),
            q.offered() == Seq::<T>::empty(),
            q.delivered() == Seq::<T>::empty(),
    {
        let q = FrameQueue {
            items: Vec::new(),
            capacity,
            closed: false,
            offered: Ghost(Seq::empty()),
            admitted_at: Ghost(Seq::empty()),
            delivered: Ghost(Seq::empty()),
        };
        proof {
            assert(picked(q.offered@, q.admitted_at@) =~= Seq::<T>::empty());
            assert(q.delivered@ + q.items@ =~= Seq::<T>::empty());
        }
        q
    }

    pub fn capacity(&self) -> (r: usize)
        ensures
            r == self.capacity_spec(),
    {
        self.capacity
    }

    pub fn len(&self) -> (r: usize)
        ensures
            r == self.contents().len(),
    {
        self.items.len()
    }

    pub fn closed(&self) -> (r: bool)
        ensures
            r == self.is_closed(),
    {
        self.closed
    }

    /// Offers a frame without waiting: it is queued when the queue is open and
    /// has room, and handed back otherwise.
    pub fn push(&mut self, frame: T) -> (r: Admission<T>)
        requires
            old(self).wf(),
        ensures
            final(self).wf(),
            final(self).capacity_spec() == old(self).capacity_spec(),
            final(self).is_closed() == old(self).is_closed(),
            final(self).delivered() == old(self).delivered(),
            final(self).offered() == old(self).offered().push(frame),
            old(self).is_closed() ==> r == Admission::Closed(frame) && final(self).contents()
                == old(self).contents() && final(self).admitted() == old(self).admitted(),
            !old(self).is_closed() && old(self).contents().len() == old(self).capacity_spec()
                ==> r == Admission::Dropped(frame) && final(self).contents()
                == old(self).contents() && final(self).admitted() == old(self).admitted(),
            !old(self).is_closed() && old(self).contents().len() < old(self).capacity_spec()
                ==> r == Admission::<T>::Queued && final(self).contents()
                == old(self).contents().push(frame) && final(self).admitted()
                == old(self).admitted().push(frame),
    {
        let ghost old_offered = self.offered@;
        let ghost old_at = self.admitted_at@;
        self.offered = Ghost(old_offered.push(frame));
        proof {
            assert(picked(self.offered@, old_at) =~= picked(old_offered, old_at));
        }
        if self.closed {
            Admission::Closed(frame)
        } else if self.items.len() >= self.capacity {
            Admission::Dropped(frame)
        } else {
            self.items.push(frame);
            self.admitted_at = Ghost(old_at.push(old_offered.len() as int));
            proof {
                let new_at = self.admitted_at@;
                assert(picked(self.offered@, new_at) =~= picked(old_offered, old_at).push(frame));
                assert(self.delivered@ + self.items@ =~= (self.delivered@ + old(self).items@).push(
                    frame,
                ));
            }
            Admission::Queued
        }
    }

    /// Takes the oldest waiting frame, if any. `None` on an empty queue; once
    /// the queue is closed as well, that means no frame will ever come again.
    pub fn pop(&mut self) -> (r: Option<T>)
        requires
            old(self).wf(),
        ensures
            final(self).wf(),
            final(self).capacity_spec() == old(self).capacity_spec(),
            final(self).is_closed() == old(self).is_closed(),
            final(self).offered() == old(self).offered(),
            final(self).admitted() == old(self).admitted(),
            old(self).contents().len() == 0 ==> r.is_none() && final(self).contents()
                == old(self).contents() && final(self).delivered() == old(self).delivered(),
            old(self).contents().len() > 0 ==> r == Some(old(self).contents()[0])
                && final(self).contents() == old(self).contents().drop_first()
                && final(self).delivered() == old(self).delivered().push(
                old(self).contents()[0],
            ),
    {
        if self.items.len() == 0 {
            None
        } else {
            let frame = self.items.remove(0);
            self.delivered = Ghost(self.delivered@.push(frame));
            proof {
                assert(self.delivered@ + self.items@ =~= old(self).delivered@ + old(self).items@);
            }
            Some(frame)
        }
    }

    /// Closes the sending side: no frame is admitted after this.
    pub fn close(&mut self)
        requires
            old(self).wf(),
        ensures
            final(self).wf(),
            final(self).is_closed(),
            final(self).capacity_spec() == old(self).capacity_spec(),
            final(self).contents() == old(self).contents(),
            final(self).offered() == old(self).offered(),
            final(self).admitted() == old(self).admitted(),
            final(self).delivered() == old(self).delivered(),
    {
        self.closed = true;
    }
}

} // verus!
