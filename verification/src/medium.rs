use vstd::prelude::*;
use crate::msg::Message;

verus! {

/// One subscription: a cursor into the medium's message history, and
/// whether the subscription is still active.
#[derive(Clone, Copy)]
pub struct Sub {
    pub cursor: usize,
    pub active: bool,
}

/// What one attempt to take the next message from a subscription yielded.
pub enum RecvOutcome {
    /// No message is pending; the subscriber is fully caught up.
    Empty,
    /// The subscriber fell more than the medium's capacity behind.
    /// Policy (deliberate, documented): a lagging subscriber is treated as
    /// fatally behind and its connection is dropped, rather than silently
    /// skipped ahead.
    Lagged,
    /// The next pending message.
    Msg(Message),
}

/// The process-wide fan-out broadcast medium.
///
/// Every message ever published occupies one index of the (ghost)
/// `history`; only the most recent `capacity` of them are retained in
/// `log`. Each subscriber holds a cursor: the history index of the next
/// message it has yet to receive. A new subscriber's cursor starts at the
/// end of the history, so it never sees anything published earlier.
pub struct Medium {
    pub capacity: usize,
    pub total: usize,
    pub log: Vec<Message>,
    pub subs: Vec<Sub>,
    pub history: Ghost<Seq<(u32, Seq<u8>)>>,
}

impl Medium {
    /// The history index of the oldest retained message.
    pub open spec fn base(self) -> int {
        self.total - self.log@.len()
    }

    /// Well-formedness: the retained log is the suffix of the history of
    /// length at most `capacity`, and every cursor lies within the history.
    pub open spec fn wf(self) -> bool {
        &&& 1 <= self.capacity
        &&& self.history@.len() == self.total
        &&& self.log@.len() <= self.capacity
        &&& self.log@.len() <= self.total
        &&& forall|i: int|
            0 <= i < self.log@.len() ==> (#[trigger] self.log@[i])@ == self.history@[self.base()
                + i]
        &&& forall|k: int|
            0 <= k < self.subs@.len() ==> (#[trigger] self.subs@[k]).cursor <= self.total
    }

    /// How any sequence of medium operations may move the state: the
    /// history only grows, existing subscriptions persist, and no cursor
    /// ever moves backwards.
    pub open spec fn evolves_to(self, later: Medium) -> bool {
        &&& self.total <= later.total
        &&& self.history@.len() <= later.history@.len()
        &&& forall|j: int|
            0 <= j < self.history@.len() ==> (#[trigger] later.history@[j]) == self.history@[j]
        &&& self.subs@.len() <= later.subs@.len()
        &&& forall|k: int|
            0 <= k < self.subs@.len() ==> (#[trigger] later.subs@[k]).cursor
                >= self.subs@[k].cursor
    }

    /// One publication, seen from outside: the message took the next
    /// history index, subscriptions were untouched, and the message is
    /// retained as the newest log entry.
    pub open spec fn published(pre: Medium, post: Medium, m: (u32, Seq<u8>)) -> bool {
        &&& post.history@ == pre.history@.push(m)
        &&& post.total == pre.total + 1
        &&& post.subs@ == pre.subs@
        &&& post.capacity == pre.capacity
        &&& post.log@.len() >= 1
        &&& (post.log@[post.log@.len() - 1])@ == m
    }

    /// A fresh medium with no history and no subscribers.
    pub fn new(capacity: usize) -> (r: Medium)
        requires
            capacity >= 1,
        ensures
            r.wf(),
            r.capacity == capacity,
            r.total == 0,
            r.history@ == Seq::<(u32, Seq<u8>)>::empty(),
            r.subs@ == Seq::<Sub>::empty(),
    {
        Medium {
            capacity,
            total: 0,
            log: Vec::new(),
            subs: Vec::new(),
            history: Ghost(Seq::empty()),
        }
    }

    /// Whether any subscription is still active.
    fn has_active(&self) -> (r: bool)
        ensures
            r == exists|k: int|
                0 <= k < self.subs@.len() && (#[trigger] self.subs@[k]).active,
    {
        let mut i: usize = 0;
        while i < self.subs.len()
            invariant
                i <= self.subs@.len(),
                forall|k: int| 0 <= k < i ==> !(#[trigger] self.subs@[k]).active,
            decreases self.subs@.len() - i,
        {
            if self.subs[i].active {
                return true;
            }
            i = i + 1;
        }
        false
    }

    /// Opens a new subscription and returns its key. The cursor starts at
    /// the present end of the history: nothing published before this call
    /// is ever visible through the new subscription.
    pub fn subscribe(&mut self) -> (k: usize)
        requires
            old(self).wf(),
        ensures
            final(self).wf(),
            old(self).evolves_to(*final(self)),
            k == old(self).subs@.len(),
            final(self).subs@ == old(self).subs@.push(
                Sub { cursor: old(self).total, active: true },
            ),
            final(self).subs@[k as int].cursor == old(self).total,
            final(self).subs@[k as int].active,
            final(self).history@ == old(self).history@,
            final(self).total == old(self).total,
            final(self).log@ == old(self).log@,
            final(self).capacity == old(self).capacity,
    {
        let k = self.subs.len();
        self.subs.push(Sub { cursor: self.total, active: true });
        k
    }

    /// Closes a subscription; the key stays allocated but inactive.
    pub fn unsubscribe(&mut self, k: usize)
        requires
            old(self).wf(),
            k < old(self).subs@.len(),
        ensures
            final(self).wf(),
            old(self).evolves_to(*final(self)),
            final(self).subs@ == old(self).subs@.update(
                k as int,
                (Sub { cursor: old(self).subs@[k as int].cursor, active: false }),
            ),
            final(self).history@ == old(self).history@,
            final(self).total == old(self).total,
            final(self).log@ == old(self).log@,
            final(self).capacity == old(self).capacity,
    {
        let cur = self.subs[k].cursor;
        self.subs[k] = Sub { cursor: cur, active: false };
    }

    /// Publishes one message: it is appended to the history (dropping the
    /// oldest retained entry once the log is full) and becomes pending for
    /// every current subscriber. Returns whether any active subscription
    /// existed to receive it; with none, the caller treats the publication
    /// as failed, as a broadcast with no listeners is lost.
    pub fn publish(&mut self, msg: Message) -> (ok: bool)
        requires
            old(self).wf(),
            old(self).total < usize::MAX,
        ensures
            final(self).wf(),
            old(self).evolves_to(*final(self)),
            Medium::published(*old(self), *final(self), msg@),
            ok == exists|k: int|
                0 <= k < old(self).subs@.len() && (#[trigger] old(self).subs@[k]).active,
    {
        let ghost mv = msg@;
        let ok = self.has_active();
        self.log.push(msg);
        if self.log.len() > self.capacity {
            self.log.remove(0);
        }
        self.total = self.total + 1;
        proof {
            self.history@ = self.history@.push(mv);
        }
        ok
    }

    /// Takes the next pending message for subscription `k`, advancing its
    /// cursor past it. `Empty` when the subscriber is caught up; `Lagged`
    /// when the next pending message has already been dropped from the
    /// retained log (the subscriber fell behind by more than `capacity`).
    pub fn recv(&mut self, k: usize) -> (r: RecvOutcome)
        requires
            old(self).wf(),
            k < old(self).subs@.len(),
            old(self).subs@[k as int].active,
        ensures
            final(self).wf(),
            old(self).evolves_to(*final(self)),
            final(self).history@ == old(self).history@,
            final(self).total == old(self).total,
            final(self).log@ == old(self).log@,
            final(self).capacity == old(self).capacity,
            final(self).subs@.len() == old(self).subs@.len(),
            forall|i: int|
                0 <= i < old(self).subs@.len() && i != k ==> (#[trigger] final(self).subs@[i])
                    == old(self).subs@[i],
            final(self).subs@[k as int].active,
            old(self).subs@[k as int].cursor == old(self).total ==> r is Empty
                && final(self).subs@[k as int] == old(self).subs@[k as int],
            old(self).subs@[k as int].cursor < old(self).base() ==> r is Lagged
                && final(self).subs@[k as int] == old(self).subs@[k as int],
            old(self).base() <= old(self).subs@[k as int].cursor < old(self).total ==> (r
                matches RecvOutcome::Msg(m)
                && m@ == old(self).history@[old(self).subs@[k as int].cursor as int]
                && final(self).subs@[k as int].cursor == old(self).subs@[k as int].cursor + 1),
    {
        let cur = self.subs[k].cursor;
        if cur == self.total {
            return RecvOutcome::Empty;
        }
        let base = self.total - self.log.len();
        if cur < base {
            return RecvOutcome::Lagged;
        }
        let idx = cur - base;
        let m = self.log[idx].duplicate();
        self.subs[k] = Sub { cursor: cur + 1, active: true };
        RecvOutcome::Msg(m)
    }

    /// Evolution composes: what a first stretch of operations began, a
    /// second stretch continues.
    pub proof fn lemma_evolves_trans(a: Medium, b: Medium, c: Medium)
        requires
            a.evolves_to(b),
            b.evolves_to(c),
        ensures
            a.evolves_to(c),
    {
    }

    /// New-subscriber exclusion: a subscription opened when the history
    /// held `at_sub.total` messages starts with its cursor there, and no
    /// medium operation ever moves a cursor backwards; since a received
    /// message always sits exactly at the receiving cursor, a message
    /// published before the subscription — one with a smaller history
    /// index — is never received through it.
    pub proof fn lemma_new_subscriber_excluded(at_sub: Medium, later: Medium, k: int, j: int)
        requires
            at_sub.wf(),
            0 <= k < at_sub.subs@.len(),
            at_sub.subs@[k].cursor == at_sub.total,
            at_sub.evolves_to(later),
            0 <= j < at_sub.total,
        ensures
            later.subs@[k].cursor > j,
            later.history@[j] == at_sub.history@[j],
    {
    }
}

} // verus!
