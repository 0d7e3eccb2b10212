//! The time-ordered queue of metadata revisions.

use vstd::prelude::*;
use std::collections::VecDeque;
use std::ops::Deref;
use super::revision::Metadata;

verus! {

/// The revision that a queue holding `revisions` presents as current: the
/// oldest one, if there is any.
pub open spec fn current_of(revisions: Seq<Metadata>) -> Option<Metadata> {
    if revisions.len() > 0 {
        Some(revisions[0])
    } else {
        None
    }
}

/// Whether a queue holding `revisions` has no newer revision pending behind
/// the current one.
pub open spec fn latest(revisions: Seq<Metadata>) -> bool {
    revisions.len() < 2
}

/// The revision that a pop hands out of a queue holding `revisions`: the
/// oldest, but only while a newer one is behind it.
pub open spec fn popped(revisions: Seq<Metadata>) -> Option<Metadata> {
    if revisions.len() > 1 {
        Some(revisions[0])
    } else {
        None
    }
}

/// What a queue holding `revisions` holds after a pop.
pub open spec fn after_pop(revisions: Seq<Metadata>) -> Seq<Metadata> {
    if revisions.len() > 1 {
        revisions.drop_first()
    } else {
        revisions
    }
}

/// The revisions that draining a queue holding `revisions` discards: all
/// but the newest, oldest first.
pub open spec fn drained(revisions: Seq<Metadata>) -> Seq<Metadata> {
    if revisions.len() > 1 {
        revisions.drop_last()
    } else {
        Seq::empty()
    }
}

/// What a queue holding `revisions` holds once it is drained: the newest
/// revision alone, or nothing if there never was one.
pub open spec fn after_drain(revisions: Seq<Metadata>) -> Seq<Metadata> {
    if revisions.len() > 1 {
        seq![revisions.last()]
    } else {
        revisions
    }
}

/// An immutable reference to the current `Metadata` revision of a queue.
///
/// While the reference is alive the queue cannot be pushed to or popped
/// from, so what it shows does not change under the holder.
pub struct MetadataRef<'a> {
    guard: &'a VecDeque<Metadata>,
}

impl<'a> MetadataRef<'a> {
    /// A reference is only ever made for a queue that holds a revision.
    #[verifier::type_invariant]
    spec fn guards_a_revision(self) -> bool {
        self.guard@.len() > 0
    }

    /// The revision that the reference shows.
    pub closed spec fn revision(self) -> Metadata {
        self.guard@[0]
    }
}

impl<'a> Deref for MetadataRef<'a> {
    type Target = Metadata;

    fn deref(&self) -> (metadata: &Metadata)
        ensures
            *metadata == self.revision(),
    {
        proof {
            use_type_invariant(self);
        }
        &self.guard[0]
    }
}

/// `MetadataQueue` is a container for time-ordered `Metadata` revisions.
///
/// The queue is seen as the sequence of its revisions, oldest first. The
/// oldest is the current one.
pub struct MetadataQueue {
    queue: VecDeque<Metadata>,
}

impl View for MetadataQueue {
    type V = Seq<Metadata>;

    closed spec fn view(&self) -> Seq<Metadata> {
        self.queue@
    }
}

impl Default for MetadataQueue {
    fn default() -> (queue: Self)
        ensures
            queue@ == Seq::<Metadata>::empty(),
    {
        MetadataQueue { queue: VecDeque::new() }
    }
}

impl MetadataQueue {
    /// Returns `true` if the current metadata revision is the newest,
    /// `false` otherwise.
    pub fn is_latest(&self) -> (is_latest: bool)
        ensures
            is_latest == latest(self@),
            is_latest <==> self@.len() == 0 || self@.len() == 1,
    {
        self.queue.len() < 2
    }

    /// Gets an immutable reference to the current, and therefore oldest,
    /// revision of the metadata. There is none only if nothing was ever
    /// pushed.
    pub fn current(&self) -> (current: Option<MetadataRef<'_>>)
        ensures
            current.is_some() <==> self@.len() > 0,
            match current {
                Some(metadata) => current_of(self@) == Some(metadata.revision()),
                None => current_of(self@).is_none(),
            },
    {
        if self.queue.len() > 0 {
            Some(MetadataRef { guard: &self.queue })
        } else {
            None
        }
    }

    /// If there are newer `Metadata` revisions, advances the `MetadataQueue`
    /// by discarding the current revision and replacing it with the next
    /// revision, returning the discarded `Metadata`. When there are no newer
    /// revisions, `None` is returned and nothing changes. As such, `pop`
    /// will never completely empty the queue.
    pub fn pop(&mut self) -> (discarded: Option<Metadata>)
        ensures
            discarded == popped(old(self)@),
            final(self)@ == after_pop(old(self)@),
            old(self)@.len() >= 2 ==> final(self)@.len() == old(self)@.len() - 1,
            old(self)@.len() > 0 ==> final(self)@.len() > 0,
    {
        if self.queue.len() > 1 {
            self.queue.pop_front()
        } else {
            None
        }
    }

    /// Pushes a new `Metadata` revision onto the queue, behind all others.
    pub fn push(&mut self, rev: Metadata)
        ensures
            final(self)@ == old(self)@.push(rev),
    {
        self.queue.push_back(rev);
    }

    /// Advances the queue to its newest revision by popping until the
    /// current revision is the latest. The discarded revisions are returned,
    /// oldest first, for a consumer that wants to see each of them.
    pub fn drain(&mut self) -> (discarded: Vec<Metadata>)
        ensures
            discarded@ == drained(old(self)@),
            final(self)@ == after_drain(old(self)@),
            latest(final(self)@),
    {
        let mut discarded: Vec<Metadata> = Vec::new();
        while !self.is_latest()
            invariant
                discarded@.len() <= old(self)@.len(),
                old(self)@.len() > 0 ==> discarded@.len() < old(self)@.len(),
                discarded@ == old(self)@.subrange(0, discarded@.len() as int),
                self@ == old(self)@.subrange(discarded@.len() as int, old(self)@.len() as int),
            decreases self@.len(),
        {
            match self.pop() {
                Some(revision) => {
                    discarded.push(revision);
                },
                None => {},
            }
        }
        discarded
    }
}

/// A mutation of a queue: a push of a revision, or a pop.
pub enum QueueOp {
    Push(Metadata),
    Pop,
}

/// What a queue holding `revisions` holds after `op`.
pub open spec fn after_op(revisions: Seq<Metadata>, op: QueueOp) -> Seq<Metadata> {
    match op {
        QueueOp::Push(rev) => revisions.push(rev),
        QueueOp::Pop => after_pop(revisions),
    }
}

/// What a queue holding `revisions` holds after the mutations `ops`, done
/// in order.
pub open spec fn after_ops(revisions: Seq<Metadata>, ops: Seq<QueueOp>) -> Seq<Metadata>
    decreases ops.len(),
{
    if ops.len() == 0 {
        revisions
    } else {
        after_op(after_ops(revisions, ops.drop_last()), ops.last())
    }
}

/// Once a revision was pushed, the queue has a current revision, whatever
/// pushes and pops follow or lie between.
pub proof fn lemma_current_once_pushed(revisions: Seq<Metadata>, ops: Seq<QueueOp>)
    requires
        revisions.len() > 0 || exists|i: int| 0 <= i < ops.len() && ops[i] is Push,
    ensures
        current_of(after_ops(revisions, ops)).is_some(),
    decreases ops.len(),
{
    if ops.len() > 0 {
        match ops.last() {
            QueueOp::Push(_) => {},
            QueueOp::Pop => {
                if revisions.len() == 0 {
                    let i = choose|i: int| 0 <= i < ops.len() && ops[i] is Push;
                    assert(ops.drop_last()[i] is Push);
                }
                lemma_current_once_pushed(revisions, ops.drop_last());
            },
        }
    }
}

/// A pop of a queue with two or more revisions removes exactly the oldest
/// and leaves one revision fewer; a pop of a queue with one revision or
/// none returns nothing and changes nothing.
pub proof fn lemma_pop_removes_oldest(revisions: Seq<Metadata>)
    ensures
        revisions.len() >= 2 ==> popped(revisions) == Some(revisions[0]),
        revisions.len() >= 2 ==> after_pop(revisions) == revisions.subrange(
            1,
            revisions.len() as int,
        ),
        revisions.len() >= 2 ==> after_pop(revisions).len() == revisions.len() - 1,
        revisions.len() <= 1 ==> popped(revisions).is_none(),
        revisions.len() <= 1 ==> after_pop(revisions) == revisions,
{
}

/// The current revision is the latest exactly when the queue holds no
/// revision or one. This holds of every queue, so before any mutations and
/// after them.
pub proof fn lemma_latest_iff_at_most_one(revisions: Seq<Metadata>, ops: Seq<QueueOp>)
    ensures
        latest(revisions) <==> revisions.len() == 0 || revisions.len() == 1,
        latest(after_ops(revisions, ops)) <==> after_ops(revisions, ops).len() == 0 || after_ops(
            revisions,
            ops,
        ).len() == 1,
{
}

} // verus!
