//! Notice of a drop: a notifier hands out notices, and every notice fires
//! when the notifier is dropped.
//!
//! A notifier keeps the only sending end of a channel on which nothing is
//! ever sent; a notice is a receiving end of it. When the notifier goes, the
//! channel is disconnected, which every receiving end sees, and on which a
//! host can wait.

use vstd::prelude::*;

verus! {

/// Fires its notices when it is dropped.
pub(crate) struct DropNotifier {
    sender: flume::Sender<()>,
    receiver: flume::Receiver<()>,
}

/// Fires when the notifier that it comes from is dropped.
pub struct DropNotice {
    receiver: flume::Receiver<()>,
}

impl DropNotifier {
    /// The receiving end of the notifier's channel, which its notices hold.
    pub closed spec fn end(&self) -> flume::Receiver<()> {
        self.receiver
    }

    /// A new notifier.
    pub(crate) fn new() -> DropNotifier {
        let (sender, receiver) = flume::unbounded();
        DropNotifier { sender, receiver }
    }

    /// A notice that fires when this notifier is dropped: it holds the
    /// receiving end of the notifier's channel.
    pub(crate) fn subscribe(&self) -> (notice: DropNotice)
        ensures
            notice.end() == self.end(),
    {
        DropNotice { receiver: self.receiver.clone() }
    }
}

impl DropNotice {
    /// The receiving end that the notice holds.
    pub closed spec fn end(&self) -> flume::Receiver<()> {
        self.receiver
    }

    /// Whether the notifier was dropped.
    pub fn fired(&self) -> bool {
        self.receiver.is_disconnected()
    }

    /// The end of the channel on which a host waits for the notice: it
    /// receives nothing, and fails once the notifier was dropped.
    pub fn listener(&self) -> (listener: &flume::Receiver<()>)
        ensures
            *listener == self.end(),
    {
        &self.receiver
    }
}

impl Clone for DropNotice {
    /// One more notice of the same drop.
    fn clone(&self) -> (copy: DropNotice)
        ensures
            copy.end() == self.end(),
    {
        DropNotice { receiver: self.receiver.clone() }
    }
}

} // verus!
