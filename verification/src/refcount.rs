//! Counting the addresses of an actor.
//!
//! `RefCount` is the plain record that all addresses of one actor share: how
//! many strong and weak addresses exist, and whether the actor has been
//! disconnected for good. Every change to it is one of the transitions below.

use crate::sync::lock;
use crate::sync::locked;
use std::sync::Arc;
use std::sync::Mutex;
use vstd::prelude::*;

verus! {

/// The shared record behind the addresses of one actor.
#[derive(Clone, Copy, Debug)]
pub struct RefCount {
    strong: usize,
    weak: usize,
    disconnected: bool,
}

/// One change to a `RefCount`.
pub enum RefOp {
    AcquireStrong,
    ReleaseStrong,
    AcquireWeak,
    ReleaseWeak,
    Upgrade,
    MarkDisconnected,
}

/// One more, unless the count is already as large as it can get.
pub open spec fn bump(count: usize) -> usize {
    if count < usize::MAX {
        (count + 1) as usize
    } else {
        count
    }
}

/// One less, unless the count is already zero.
pub open spec fn drop_one(count: usize) -> usize {
    if count > 0 {
        (count - 1) as usize
    } else {
        count
    }
}

impl RefCount {
    /// The number of strong addresses.
    pub closed spec fn strong(self) -> usize {
        self.strong
    }

    /// The number of weak addresses.
    pub closed spec fn weak(self) -> usize {
        self.weak
    }

    /// Whether the actor was disconnected for good.
    pub closed spec fn disconnected(self) -> bool {
        self.disconnected
    }

    /// The record with the given contents.
    pub closed spec fn of(strong: usize, weak: usize, disconnected: bool) -> RefCount {
        RefCount { strong, weak, disconnected }
    }

    /// A strong address can be made from a weak one while a strong address
    /// exists and the actor was not disconnected.
    pub open spec fn upgradable(self) -> bool {
        self.strong() > 0 && !self.disconnected()
    }

    /// The record after one change.
    pub open spec fn apply(self, op: RefOp) -> RefCount {
        match op {
            RefOp::AcquireStrong => Self::of(bump(self.strong()), self.weak(), self.disconnected()),
            RefOp::ReleaseStrong => Self::of(
                drop_one(self.strong()),
                self.weak(),
                self.disconnected(),
            ),
            RefOp::AcquireWeak => Self::of(self.strong(), bump(self.weak()), self.disconnected()),
            RefOp::ReleaseWeak => Self::of(self.strong(), drop_one(self.weak()), self.disconnected()),
            RefOp::Upgrade => if self.upgradable() {
                Self::of(bump(self.strong()), self.weak(), self.disconnected())
            } else {
                self
            },
            RefOp::MarkDisconnected => Self::of(self.strong(), self.weak(), true),
        }
    }

    /// The record after a sequence of changes, first to last.
    pub open spec fn run(self, ops: Seq<RefOp>) -> RefCount
        decreases ops.len(),
    {
        if ops.len() == 0 {
            self
        } else {
            self.apply(ops[0]).run(ops.skip(1))
        }
    }

    /// `of` builds the record with exactly the given contents.
    pub broadcast proof fn lemma_contents_of(strong: usize, weak: usize, disconnected: bool)
        ensures
            (#[trigger] Self::of(strong, weak, disconnected)).strong() == strong,
            Self::of(strong, weak, disconnected).weak() == weak,
            Self::of(strong, weak, disconnected).disconnected() == disconnected,
    {
    }

    /// The record of a fresh actor: one strong address, no weak one.
    pub fn new() -> (count: RefCount)
        ensures
            count == Self::of(1, 0, false),
    {
        RefCount { strong: 1, weak: 0, disconnected: false }
    }

    /// Counts one more strong address.
    pub fn acquire_strong(&mut self)
        ensures
            *final(self) == old(self).apply(RefOp::AcquireStrong),
    {
        if self.strong < usize::MAX {
            self.strong = self.strong + 1;
        }
    }

    /// Counts one strong address less, and says whether it was the last one.
    pub fn release_strong(&mut self) -> (last: bool)
        ensures
            *final(self) == old(self).apply(RefOp::ReleaseStrong),
            last == (old(self).strong() == 1),
        opens_invariants none
        no_unwind
    {
        if self.strong > 0 {
            self.strong = self.strong - 1;
            self.strong == 0
        } else {
            false
        }
    }

    /// Counts one more weak address.
    pub fn acquire_weak(&mut self)
        ensures
            *final(self) == old(self).apply(RefOp::AcquireWeak),
    {
        if self.weak < usize::MAX {
            self.weak = self.weak + 1;
        }
    }

    /// Counts one weak address less.
    pub fn release_weak(&mut self)
        ensures
            *final(self) == old(self).apply(RefOp::ReleaseWeak),
        opens_invariants none
        no_unwind
    {
        if self.weak > 0 {
            self.weak = self.weak - 1;
        }
    }

    /// Tries to make a strong address from a weak one: counts it and answers
    /// `true` exactly when the record is upgradable.
    pub fn upgrade(&mut self) -> (upgraded: bool)
        ensures
            upgraded == old(self).upgradable(),
            *final(self) == old(self).apply(RefOp::Upgrade),
    {
        if self.strong > 0 && !self.disconnected {
            if self.strong < usize::MAX {
                self.strong = self.strong + 1;
            }
            true
        } else {
            false
        }
    }

    /// Disconnects the actor for good.
    pub fn mark_disconnected(&mut self)
        ensures
            *final(self) == old(self).apply(RefOp::MarkDisconnected),
    {
        self.disconnected = true;
    }

    /// Whether the actor has not been disconnected.
    pub fn is_connected(&self) -> (connected: bool)
        ensures
            connected == !self.disconnected(),
    {
        !self.disconnected
    }

    /// The number of strong addresses.
    pub fn strong_count(&self) -> (count: usize)
        ensures
            count == self.strong(),
    {
        self.strong
    }

    /// Whether a strong address can be made from a weak one.
    pub fn can_upgrade(&self) -> (upgradable: bool)
        ensures
            upgradable == self.upgradable(),
    {
        self.strong > 0 && !self.disconnected
    }

    /// The number of weak addresses.
    pub fn weak_count(&self) -> (count: usize)
        ensures
            count == self.weak(),
    {
        self.weak
    }
}

/// Once disconnected, always disconnected: no sequence of changes makes a
/// disconnected record upgradable again, whatever the counts are.
pub proof fn lemma_disconnect_is_final(count: RefCount, ops: Seq<RefOp>)
    requires
        count.disconnected(),
    ensures
        count.run(ops).disconnected(),
        !count.run(ops).upgradable(),
    decreases ops.len(),
{
    broadcast use RefCount::lemma_contents_of;

    if ops.len() > 0 {
        lemma_disconnect_is_final(count.apply(ops[0]), ops.skip(1));
    }
}

/// While no strong address exists none can be made: the strong count stays
/// zero under upgrades and releases, and every upgrade is refused.
pub proof fn lemma_no_upgrade_without_strong(count: RefCount, ops: Seq<RefOp>)
    requires
        count.strong() == 0,
        forall|i: int| 0 <= i < ops.len() ==> !(#[trigger] ops[i] is AcquireStrong),
    ensures
        count.run(ops).strong() == 0,
        !count.run(ops).upgradable(),
    decreases ops.len(),
{
    broadcast use RefCount::lemma_contents_of;

    if ops.len() > 0 {
        let rest = ops.skip(1);
        assert forall|i: int| 0 <= i < rest.len() implies !(#[trigger] rest[i] is AcquireStrong) by {
            assert(rest[i] == ops[i + 1]);
        }
        lemma_no_upgrade_without_strong(count.apply(ops[0]), rest);
    }
}

/// The release that reports "last" is the one that brings the strong count
/// to zero.
pub proof fn lemma_last_release_empties(count: RefCount)
    ensures
        count.strong() == 1 <==> (count.strong() > 0 && count.apply(
            RefOp::ReleaseStrong,
        ).strong() == 0),
{
    broadcast use RefCount::lemma_contents_of;

}

/// A strong handle on the shared record: it is counted as one strong
/// address from the moment it is made until it is released or dropped.
pub(crate) struct Strong {
    shared: Arc<Mutex<RefCount>>,
    /// Whether the handle is still counted.
    held: bool,
}

/// A weak handle on the shared record: it does not keep the actor alive.
pub(crate) struct Weak {
    shared: Arc<Mutex<RefCount>>,
}

impl Strong {
    /// Whether the handle is still counted as a strong address.
    pub closed spec fn counted(&self) -> bool {
        self.held
    }

    /// The lock of the shared record that the handle is on.
    pub closed spec fn record(&self) -> Mutex<RefCount> {
        *self.shared
    }

    /// A new record with this handle as its only strong address.
    pub(crate) fn new() -> (strong: Strong)
        ensures
            strong.counted(),
    {
        Strong { shared: Arc::new(Mutex::new(RefCount::new())), held: true }
    }

    /// A weak handle on the same record.
    pub(crate) fn downgrade(&self) -> (weak: Weak)
        ensures
            weak.record() == self.record(),
    {
        {
            let mut guard = lock(&self.shared);
            locked(&mut guard).acquire_weak();
        }
        Weak { shared: self.shared.clone() }
    }

    /// Gives the handle up, if that was not done before, and says whether it
    /// was the last strong one. A handle that was given up counts no more
    /// when it is dropped.
    pub(crate) fn release(&mut self) -> (last: bool)
        ensures
            !old(self).counted() ==> !last,
            !final(self).counted(),
            final(self).record() == old(self).record(),
        opens_invariants none
        no_unwind
    {
        if self.held {
            self.held = false;
            let mut guard = lock(&self.shared);
            locked(&mut guard).release_strong()
        } else {
            false
        }
    }

    /// Whether the actor has not been disconnected.
    pub(crate) fn is_connected(&self) -> bool {
        let mut guard = lock(&self.shared);
        locked(&mut guard).is_connected()
    }
}

impl Clone for Strong {
    /// One more strong handle on the same record.
    fn clone(&self) -> (copy: Strong)
        ensures
            copy.counted(),
            copy.record() == self.record(),
    {
        {
            let mut guard = lock(&self.shared);
            locked(&mut guard).acquire_strong();
        }
        Strong { shared: self.shared.clone(), held: true }
    }
}

impl Drop for Strong {
    /// A strong handle that is dropped is given up.
    fn drop(&mut self)
        opens_invariants none
        no_unwind
    {
        self.release();
    }
}

impl Weak {
    /// The lock of the shared record that the handle is on.
    pub closed spec fn record(&self) -> Mutex<RefCount> {
        *self.shared
    }

    /// A strong handle on the same record, if the record is upgradable at the
    /// moment of the call.
    pub(crate) fn upgrade(&self) -> (strong: Option<Strong>)
        ensures
            strong matches Some(made) ==> made.counted() && made.record() == self.record(),
    {
        let upgraded = {
            let mut guard = lock(&self.shared);
            locked(&mut guard).upgrade()
        };
        if upgraded {
            Some(Strong { shared: self.shared.clone(), held: true })
        } else {
            None
        }
    }

    /// Disconnects the actor for good: from now on no weak handle upgrades.
    pub(crate) fn mark_disconnected(&self) {
        let mut guard = lock(&self.shared);
        locked(&mut guard).mark_disconnected();
    }

    /// Whether a strong handle could be made at the moment of the call.
    pub(crate) fn is_connected(&self) -> bool {
        let mut guard = lock(&self.shared);
        locked(&mut guard).can_upgrade()
    }

    /// The number of strong handles at the moment of the call.
    pub(crate) fn strong_count(&self) -> usize {
        let mut guard = lock(&self.shared);
        locked(&mut guard).strong_count()
    }
}

impl Clone for Weak {
    /// One more weak handle on the same record.
    fn clone(&self) -> (copy: Weak)
        ensures
            copy.record() == self.record(),
    {
        {
            let mut guard = lock(&self.shared);
            locked(&mut guard).acquire_weak();
        }
        Weak { shared: self.shared.clone() }
    }
}

impl Drop for Weak {
    /// A weak handle that is dropped is counted no more.
    fn drop(&mut self)
        opens_invariants none
        no_unwind
    {
        let mut guard = lock(&self.shared);
        locked(&mut guard).release_weak();
    }
}

} // verus!
