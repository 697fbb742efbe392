use vstd::prelude::*;
use crate::queue::FrameQueue;
use crate::channel::recv_frame;
use crossbeam_channel::Receiver;

verus! {

/// What the encoder sink does next.
pub enum SinkStep<T> {
    /// Write this frame's bytes to the encoder's input stream.
    Write(T),
    /// The write went through: receive the next frame.
    Receive,
    /// Close the encoder's input stream, which tells the encoder that the
    /// stream has ended.
    CloseInput,
    /// The input stream is already closed: nothing is left to do.
    Finished,
}

/// The consumer side of the pipeline. It forwards each frame it receives to
/// the encoder, and closes the encoder's input once, either when the channel
/// has ended (closed and drained) or when a write fails.
pub struct EncoderSink<T> {
    input_open: bool,
    forwarded: Ghost<Seq<T>>,
    closes: Ghost<nat>,
}

impl<T> EncoderSink<T> {
    pub closed spec fn is_open(&self) -> bool {
        self.input_open
    }

    /// The frames written to the encoder so far, in order.
    pub closed spec fn forwarded(&self) -> Seq<T> {
        self.forwarded@
    }

    /// How many times the input stream was closed.
    pub closed spec fn closes(&self) -> nat {
        self.closes@
    }

    pub closed spec fn wf(&self) -> bool {
        self.closes@ == if self.input_open { 0nat } else { 1nat }
    }

    /// A well-formed sink closed its input at most once.
    pub proof fn lemma_closes_at_most_once(&self)
        requires
            self.wf(),
        ensures
            self.closes() <= 1,
            self.closes() == 1 <==> !self.is_open(),
    {
    }

    /// A sink whose input stream is open and has carried nothing yet.
    pub fn new() -> (r: Self)
        ensures
            r.wf(),
            r.is_open(),
            r.forwarded() == Seq::<T>::empty(),
            r.closes() == 0,
    {
        EncoderSink { input_open: true, forwarded: Ghost(Seq::empty()), closes: Ghost(0) }
    }

    pub fn input_open(&self) -> (r: bool)
        ensures
            r == self.is_open(),
    {
        self.input_open
    }

    /// The decision after a receive: `Some(frame)` is to be written; `None`
    /// means the channel is closed and drained.
    pub fn on_receive(&mut self, received: Option<T>) -> (r: SinkStep<T>)
        requires
            old(self).wf(),
        ensures
            final(self).wf(),
            final(self).forwarded() == old(self).forwarded(),
            !old(self).is_open() ==> r == SinkStep::<T>::Finished && *final(self) == *old(self),
            old(self).is_open() && received.is_some() ==> r == SinkStep::Write(received.unwrap())
                && *final(self) == *old(self),
            old(self).is_open() && received.is_none() ==> r == SinkStep::<T>::CloseInput
                && !final(self).is_open() && final(self).closes() == old(self).closes() + 1,
    {
        if !self.input_open {
            return SinkStep::Finished;
        }
        match received {
            Some(frame) => SinkStep::Write(frame),
            None => {
                self.input_open = false;
                self.closes = Ghost(self.closes@ + 1);
                SinkStep::CloseInput
            },
        }
    }

    /// The decision after writing `frame`: a failed write ends the stream at
    /// once (the encoder cannot take more), a successful one goes on.
    pub fn on_written(&mut self, frame: &T, ok: bool) -> (r: SinkStep<T>)
        requires
            old(self).wf(),
        ensures
            final(self).wf(),
            !old(self).is_open() ==> r == SinkStep::<T>::Finished && *final(self) == *old(self),
            old(self).is_open() && ok ==> r == SinkStep::<T>::Receive && final(self).is_open()
                && final(self).forwarded() == old(self).forwarded().push(*frame)
                && final(self).closes() == old(self).closes(),
            old(self).is_open() && !ok ==> r == SinkStep::<T>::CloseInput && !final(self).is_open()
                && final(self).forwarded() == old(self).forwarded() && final(self).closes()
                == old(self).closes() + 1,
    {
        if !self.input_open {
            return SinkStep::Finished;
        }
        if ok {
            self.forwarded = Ghost(self.forwarded@.push(*frame));
            SinkStep::Receive
        } else {
            self.input_open = false;
            self.closes = Ghost(self.closes@ + 1);
            SinkStep::CloseInput
        }
    }
}

impl EncoderSink<Vec<u8>> {
    /// Waits on the channel for the next frame and decides: write it, or,
    /// once the channel is closed and drained, close the encoder's input.
    /// A sink whose input is already closed does not wait.
    pub fn receive(&mut self, rx: &Receiver<Vec<u8>>) -> (r: SinkStep<Vec<u8>>)
        requires
            old(self).wf(),
        ensures
            final(self).wf(),
            final(self).forwarded() == old(self).forwarded(),
            !old(self).is_open() ==> r == SinkStep::<Vec<u8>>::Finished && *final(self) == *old(self),
            old(self).is_open() ==> (r is Write && *final(self) == *old(self)) || (r is CloseInput
                && !final(self).is_open() && final(self).closes() == old(self).closes() + 1),
    {
        if !self.input_open {
            return SinkStep::Finished;
        }
        let received = recv_frame(rx);
        self.on_receive(received)
    }
}

/// Runs the consumer over a queue whose sending side is closed, with an
/// encoder that accepts every write: every waiting frame is forwarded, in
/// order, and then the input stream is closed exactly once. The frames
/// written are returned.
pub fn drain_closed<T>(queue: &mut FrameQueue<T>, sink: &mut EncoderSink<T>) -> (written: Vec<T>)
    requires
        old(queue).wf(),
        old(queue).is_closed(),
        old(sink).wf(),
        old(sink).is_open(),
    ensures
        final(queue).wf(),
        final(sink).wf(),
        written@ == old(queue).contents(),
        final(queue).contents() == Seq::<T>::empty(),
        final(queue).delivered() == old(queue).delivered() + old(queue).contents(),
        final(sink).forwarded() == old(sink).forwarded() + old(queue).contents(),
        !final(sink).is_open(),
        final(sink).closes() == old(sink).closes() + 1,
{
    let ghost initial = queue.contents();
    let ghost delivered0 = queue.delivered();
    let ghost forwarded0 = sink.forwarded();
    let mut written: Vec<T> = Vec::new();
    loop
        invariant_except_break
            sink.is_open(),
            sink.closes() == old(sink).closes(),
        invariant
            queue.wf(),
            queue.is_closed(),
            sink.wf(),
            initial == written@ + queue.contents(),
            queue.delivered() == delivered0 + written@,
            sink.forwarded() == forwarded0 + written@,
        ensures
            queue.wf(),
            sink.wf(),
            !sink.is_open(),
            sink.closes() == old(sink).closes() + 1,
            written@ == initial,
            queue.contents() == Seq::<T>::empty(),
            queue.delivered() == delivered0 + written@,
            sink.forwarded() == forwarded0 + written@,
        decreases queue.contents().len(),
    {
        let ghost before = queue.contents();
        let received = queue.pop();
        match sink.on_receive(received) {
            SinkStep::Write(frame) => {
                let ghost f = frame;
                let _ = sink.on_written(&frame, true);
                proof {
                    assert(written@.push(f) + queue.contents() =~= written@ + before);
                    assert(queue.delivered() =~= delivered0 + written@.push(f));
                    assert(sink.forwarded() =~= forwarded0 + written@.push(f));
                }
                written.push(frame);
            },
            _ => {
                proof {
                    assert(written@ + Seq::<T>::empty() =~= written@);
                }
                break ;
            },
        }
    }
    written
}

} // verus!
