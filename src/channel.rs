use vstd::prelude::*;
use crate::queue::{increasing_positions, is_subsequence, picked};
use crossbeam_channel::{Receiver, Sender, TrySendError};

verus! {

/// How many frames may wait between the capture loop and the encoder sink.
pub const CHANNEL_CAPACITY: usize = 4;

#[verifier::external_type_specification]
#[verifier::external_body]
#[verifier::reject_recursive_types(T)]
pub struct ExSender<T>(Sender<T>);

#[verifier::external_type_specification]
#[verifier::external_body]
#[verifier::reject_recursive_types(T)]
pub struct ExReceiver<T>(Receiver<T>);

/// What an attempt to put a frame into the channel came to.
pub enum SendAttempt {
    Sent,
    /// The channel was full; the frame comes back.
    Full(Vec<u8>),
    /// The receiving side is gone; the frame comes back.
    Disconnected(Vec<u8>),
}

/// The number of slots of the channel that `tx` sends into, fixed when the
/// channel was made.
pub uninterp spec fn channel_capacity(tx: Sender<Vec<u8>>) -> nat;

/// The sending side of the frame channel, together with every frame offered
/// to the channel through it and every frame that entered the channel, in
/// order. Dropping it closes the channel.
pub struct FrameSender {
    tx: Sender<Vec<u8>>,
    offered: Ghost<Seq<Vec<u8>>>,
    sent: Ghost<Seq<Vec<u8>>>,
}

impl FrameSender {
    /// The frames handed to the channel through this sender, whether they
    /// entered it or not, oldest first.
    pub closed spec fn offered(&self) -> Seq<Vec<u8>> {
        self.offered@
    }

    /// The frames that entered the channel through this sender, oldest first.
    pub closed spec fn sent(&self) -> Seq<Vec<u8>> {
        self.sent@
    }

    /// How many frames the channel holds at most.
    pub closed spec fn capacity(&self) -> nat {
        channel_capacity(self.tx)
    }
}

/// Relies on `crossbeam_channel::bounded`: a channel with `cap` slots. It
/// panics only when `cap` is zero or too large to lay out, which the bound
/// here rules out.
#[verifier::external_body]
fn bounded_channel(cap: usize) -> (r: (Sender<Vec<u8>>, Receiver<Vec<u8>>))
    requires
        1 <= cap <= 1024,
    ensures
        channel_capacity(r.0) == cap,
{
    crossbeam_channel::bounded(cap)
}

/// Relies on `crossbeam_channel::Sender::try_send`: it never blocks; `Ok`
/// means the message entered the channel, and when the channel is full or
/// disconnected the error holds the message that was passed in, and nothing
/// entered the channel.
#[verifier::external_body]
pub(crate) fn try_send_frame(tx: &mut FrameSender, frame: Vec<u8>) -> (r: SendAttempt)
    ensures
        final(tx).capacity() == old(tx).capacity(),
        final(tx).offered() == old(tx).offered().push(frame),
        r is Sent ==> final(tx).sent() == old(tx).sent().push(frame),
        !(r is Sent) ==> final(tx).sent() == old(tx).sent(),
        r matches SendAttempt::Full(f) ==> f == frame,
        r matches SendAttempt::Disconnected(f) ==> f == frame,
{
    match tx.tx.try_send(frame) {
        Ok(()) => SendAttempt::Sent,
        Err(TrySendError::Full(f)) => SendAttempt::Full(f),
        Err(TrySendError::Disconnected(f)) => SendAttempt::Disconnected(f),
    }
}

/// Relies on `crossbeam_channel::Receiver::recv`: it blocks until a message
/// arrives, and fails once the channel is empty and every sender is gone.
#[verifier::external_body]
pub(crate) fn recv_frame(rx: &Receiver<Vec<u8>>) -> (r: Option<Vec<u8>>) {
    rx.recv().ok()
}

/// The channel between the capture loop and the encoder sink, with room for
/// [`CHANNEL_CAPACITY`] frames; nothing has been sent into it yet.
pub fn frame_channel() -> (r: (FrameSender, Receiver<Vec<u8>>))
    ensures
        r.0.capacity() == CHANNEL_CAPACITY,
        r.0.sent() == Seq::<Vec<u8>>::empty(),
        r.0.offered() == Seq::<Vec<u8>>::empty(),
        is_subsequence(r.0.sent(), r.0.offered()),
{
    let (tx, rx) = bounded_channel(CHANNEL_CAPACITY);
    proof {
        let none = Seq::<int>::empty();
        assert(picked(Seq::<Vec<u8>>::empty(), none) =~= Seq::<Vec<u8>>::empty());
        assert(increasing_positions(Seq::<Vec<u8>>::empty(), none));
    }
    (FrameSender { tx, offered: Ghost(Seq::empty()), sent: Ghost(Seq::empty()) }, rx)
}

} // verus!
