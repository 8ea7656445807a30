//! The channel abstraction: one verified capability interface over the
//! interchangeable backends, each backend behind trusted wrappers whose
//! contracts state what the backend's own documentation and source show.

use vstd::prelude::*;

use crate::types::{ChannelKind, Msg, ReceiveError, SendError};

verus! {

/// A queued message as the contracts see it: timestamp, producer id, issue
/// index, payload bytes (`Msg::model`).
pub type QueuedMsg = (u128, u32, u32, Seq<u8>);

/// One `std::sync::mpsc` channel, both halves held together so that the
/// receiver stays alive for as long as the queue is used. The sender is
/// dropped by `std_close`, which is the sole termination signal.
#[verifier::external_body]
pub struct StdRaw {
    sender: Option<std::sync::mpsc::Sender<Msg>>,
    receiver: std::sync::mpsc::Receiver<Msg>,
}

/// The messages queued in a `StdRaw`, oldest first.
pub uninterp spec fn std_contents(c: StdRaw) -> Seq<QueuedMsg>;

/// Whether the sender half of a `StdRaw` is still alive.
pub uninterp spec fn std_live(c: StdRaw) -> bool;

/// Relies on `std::sync::mpsc::channel`: creates an asynchronous, unbounded
/// FIFO channel, initially empty, with a live sender.
#[verifier::external_body]
pub(crate) fn std_new() -> (c: StdRaw)
    ensures
        std_contents(c) == Seq::<QueuedMsg>::empty(),
        std_live(c),
{
    let (sender, receiver) = std::sync::mpsc::channel();
    StdRaw { sender: Some(sender), receiver }
}

/// Relies on `std::sync::mpsc::Sender::send`: the channel is unbounded,
/// messages sent on one sender arrive in the order they were sent (this
/// struct holds the only sender, so that order is the queue order), and a
/// send fails only when the receiver is gone — here the receiver lives in
/// the same struct, so the message is always appended.
#[verifier::external_body]
pub(crate) fn std_send(c: &mut StdRaw, m: Msg)
    requires
        std_live(*old(c)),
    ensures
        std_live(*final(c)),
        std_contents(*final(c)) == std_contents(*old(c)).push(m.model()),
{
    let _ = c.sender.as_ref().unwrap().send(m);
}

/// Relies on dropping `std::sync::mpsc::Sender`: once the only sender is
/// gone, a `recv` on the drained channel reports disconnection instead of
/// blocking. Queued messages stay queued.
#[verifier::external_body]
pub(crate) fn std_close(c: &mut StdRaw)
    ensures
        !std_live(*final(c)),
        std_contents(*final(c)) == std_contents(*old(c)),
{
    c.sender = None;
}

/// Relies on `std::sync::mpsc::Receiver::recv`: messages arrive in the order
/// they were sent, and with the sender gone a `recv` returns the oldest queued
/// message, or `Err(RecvError)` once the queue is empty. The sender must
/// already be closed, else an empty queue would block forever.
#[verifier::external_body]
pub(crate) fn std_recv(c: &mut StdRaw) -> (r: Option<Msg>)
    requires
        !std_live(*old(c)),
    ensures
        !std_live(*final(c)),
        match r {
            Some(m) => {
                &&& std_contents(*old(c)).len() > 0
                &&& m.model() == std_contents(*old(c))[0]
                &&& std_contents(*final(c)) == std_contents(*old(c)).subrange(
                    1,
                    std_contents(*old(c)).len() as int,
                )
            },
            None => {
                &&& std_contents(*old(c)).len() == 0
                &&& std_contents(*final(c)) == std_contents(*old(c))
            },
        },
{
    c.receiver.recv().ok()
}

/// One `crossbeam_channel` channel (unbounded or bounded), both halves held
/// together so that the receiver stays alive for as long as the queue is used.
/// Both flavors are FIFO queues: the unbounded one a linked-list queue, the
/// bounded one a bounded MPMC ring buffer.
#[verifier::external_body]
pub struct CbRaw {
    sender: Option<crossbeam_channel::Sender<Msg>>,
    receiver: crossbeam_channel::Receiver<Msg>,
}

/// The messages queued in a `CbRaw`, oldest first.
pub uninterp spec fn cb_contents(c: CbRaw) -> Seq<QueuedMsg>;

/// Whether the sender half of a `CbRaw` is still alive.
pub uninterp spec fn cb_live(c: CbRaw) -> bool;

/// The capacity the channel was created with: `None` for unbounded.
pub uninterp spec fn cb_cap(c: CbRaw) -> Option<usize>;

/// Relies on `crossbeam_channel::unbounded`: creates a FIFO channel of
/// unlimited capacity, initially empty, with a live sender.
#[verifier::external_body]
pub(crate) fn cb_unbounded() -> (c: CbRaw)
    ensures
        cb_contents(c) == Seq::<QueuedMsg>::empty(),
        cb_live(c),
        cb_cap(c) == Option::<usize>::None,
{
    let (sender, receiver) = crossbeam_channel::unbounded();
    CbRaw { sender: Some(sender), receiver }
}

/// Relies on `crossbeam_channel::bounded`: creates a FIFO channel holding at
/// most `cap` messages, initially empty, with a live sender. The constructor
/// panics only for capacities near `usize::MAX`, which the bound rules out.
#[verifier::external_body]
pub(crate) fn cb_bounded(cap: usize) -> (c: CbRaw)
    requires
        cap <= 0x3fff_ffff,
    ensures
        cb_contents(c) == Seq::<QueuedMsg>::empty(),
        cb_live(c),
        cb_cap(c) == Some(cap),
{
    let (sender, receiver) = crossbeam_channel::bounded(cap);
    CbRaw { sender: Some(sender), receiver }
}

/// Relies on `crossbeam_channel::Sender::try_send`: on an unbounded channel
/// with a live receiver it always appends; on a bounded channel it appends
/// exactly when the buffer holds fewer messages than the capacity, and
/// otherwise returns `TrySendError::Full` leaving the queue unchanged. (A
/// zero-capacity channel only hands a message to a receive operation already
/// in progress; both halves live here, so no such operation can be pending,
/// and every try_send on it is `Full`.)
#[verifier::external_body]
pub(crate) fn cb_try_send(c: &mut CbRaw, m: Msg) -> (accepted: bool)
    requires
        cb_live(*old(c)),
    ensures
        cb_live(*final(c)),
        cb_cap(*final(c)) == cb_cap(*old(c)),
        match cb_cap(*old(c)) {
            None => accepted && cb_contents(*final(c)) == cb_contents(*old(c)).push(m.model()),
            Some(cap) => {
                if cb_contents(*old(c)).len() < cap {
                    accepted && cb_contents(*final(c)) == cb_contents(*old(c)).push(m.model())
                } else {
                    !accepted && cb_contents(*final(c)) == cb_contents(*old(c))
                }
            },
        },
{
    c.sender.as_ref().unwrap().try_send(m).is_ok()
}

/// Relies on dropping `crossbeam_channel::Sender`: once the only sender is
/// gone, a `recv` on the drained channel reports disconnection instead of
/// blocking. Queued messages stay queued.
#[verifier::external_body]
pub(crate) fn cb_close(c: &mut CbRaw)
    ensures
        !cb_live(*final(c)),
        cb_contents(*final(c)) == cb_contents(*old(c)),
        cb_cap(*final(c)) == cb_cap(*old(c)),
{
    c.sender = None;
}

/// Relies on `crossbeam_channel::Receiver::recv`: the channel is FIFO, and
/// with the sender gone a `recv` returns the oldest queued message, or
/// `Err(RecvError)` once the queue is empty. The sender must already be
/// closed, else an empty queue would block forever.
#[verifier::external_body]
pub(crate) fn cb_recv(c: &mut CbRaw) -> (r: Option<Msg>)
    requires
        !cb_live(*old(c)),
    ensures
        !cb_live(*final(c)),
        cb_cap(*final(c)) == cb_cap(*old(c)),
        match r {
            Some(m) => {
                &&& cb_contents(*old(c)).len() > 0
                &&& m.model() == cb_contents(*old(c))[0]
                &&& cb_contents(*final(c)) == cb_contents(*old(c)).subrange(
                    1,
                    cb_contents(*old(c)).len() as int,
                )
            },
            None => {
                &&& cb_contents(*old(c)).len() == 0
                &&& cb_contents(*final(c)) == cb_contents(*old(c))
            },
        },
{
    c.receiver.recv().ok()
}

/// The capacity a backend kind is constructed with: `None` means unbounded.
pub open spec fn kind_cap(k: ChannelKind) -> Option<usize> {
    match k {
        ChannelKind::StdMpsc => None,
        ChannelKind::CrossbeamUnbounded => None,
        ChannelKind::CrossbeamBounded(cap) => Some(cap),
    }
}

enum ChannelInner {
    Std(StdRaw),
    Cb(CbRaw),
}

/// One channel instance behind the capability interface every backend must
/// satisfy: `enqueue`, `close`, and `dequeue` with defined error semantics.
/// The verified view of the instance is its queued contents (FIFO), whether
/// the producer side is still open, and its capacity.
pub struct Channel {
    inner: ChannelInner,
}

impl Channel {
    /// The queued messages, oldest first.
    pub closed spec fn contents(self) -> Seq<QueuedMsg> {
        match self.inner {
            ChannelInner::Std(c) => std_contents(c),
            ChannelInner::Cb(c) => cb_contents(c),
        }
    }

    /// Whether the producer side is still open.
    pub closed spec fn is_open(self) -> bool {
        match self.inner {
            ChannelInner::Std(c) => std_live(c),
            ChannelInner::Cb(c) => cb_live(c),
        }
    }

    /// The backend's capacity: `None` means unbounded.
    pub closed spec fn capacity(self) -> Option<usize> {
        match self.inner {
            ChannelInner::Std(_) => None,
            ChannelInner::Cb(c) => cb_cap(c),
        }
    }

    /// Constructs a fresh, empty, open channel of the requested kind.
    pub fn new(kind: &ChannelKind) -> (c: Channel)
        requires
            kind_cap(*kind) matches Some(cap) ==> cap <= 0x3fff_ffff,
        ensures
            c.contents() == Seq::<QueuedMsg>::empty(),
            c.is_open(),
            c.capacity() == kind_cap(*kind),
    {
        match kind {
            ChannelKind::StdMpsc => Channel { inner: ChannelInner::Std(std_new()) },
            ChannelKind::CrossbeamUnbounded => Channel { inner: ChannelInner::Cb(cb_unbounded()) },
            ChannelKind::CrossbeamBounded(cap) => Channel {
                inner: ChannelInner::Cb(cb_bounded(*cap)),
            },
        }
    }

    /// Appends a message, or reports `SendError::Full` when a bounded backend
    /// is saturated. On an unbounded backend an enqueue never fails.
    pub fn enqueue(&mut self, m: Msg) -> (r: Result<(), SendError>)
        requires
            old(self).is_open(),
        ensures
            final(self).is_open(),
            final(self).capacity() == old(self).capacity(),
            match old(self).capacity() {
                None => r is Ok && final(self).contents() == old(self).contents().push(m.model()),
                Some(cap) => {
                    if old(self).contents().len() < cap {
                        r is Ok && final(self).contents() == old(self).contents().push(m.model())
                    } else {
                        r == Err::<(), SendError>(SendError::Full) && final(self).contents() == old(
                            self,
                        ).contents()
                    }
                },
            },
    {
        match &mut self.inner {
            ChannelInner::Std(c) => {
                std_send(c, m);
                Ok(())
            },
            ChannelInner::Cb(c) => {
                if cb_try_send(c, m) {
                    Ok(())
                } else {
                    Err(SendError::Full)
                }
            },
        }
    }

    /// Releases the producer side. Queued messages stay queued; from now on a
    /// dequeue on the drained channel reports end-of-stream.
    pub fn close(&mut self)
        ensures
            !final(self).is_open(),
            final(self).contents() == old(self).contents(),
            final(self).capacity() == old(self).capacity(),
    {
        match &mut self.inner {
            ChannelInner::Std(c) => std_close(c),
            ChannelInner::Cb(c) => cb_close(c),
        }
    }

    /// Removes and returns the oldest queued message, or reports
    /// `ReceiveError::Closed` once the closed channel has drained. The
    /// producer side must be closed, so that the call can never block forever.
    pub fn dequeue(&mut self) -> (r: Result<Msg, ReceiveError>)
        requires
            !old(self).is_open(),
        ensures
            !final(self).is_open(),
            final(self).capacity() == old(self).capacity(),
            match r {
                Ok(m) => {
                    &&& old(self).contents().len() > 0
                    &&& m.model() == old(self).contents()[0]
                    &&& final(self).contents() == old(self).contents().subrange(
                        1,
                        old(self).contents().len() as int,
                    )
                },
                Err(e) => {
                    &&& e == ReceiveError::Closed
                    &&& old(self).contents().len() == 0
                    &&& final(self).contents() == old(self).contents()
                },
            },
    {
        let got = match &mut self.inner {
            ChannelInner::Std(c) => std_recv(c),
            ChannelInner::Cb(c) => cb_recv(c),
        };
        match got {
            Some(m) => Ok(m),
            None => Err(ReceiveError::Closed),
        }
    }
}

} // verus!
