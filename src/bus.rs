use std::collections::VecDeque;
use vstd::prelude::*;

use crate::update::TodoUpdate;

verus! {

/// The handle that names one subscriber of a [`Bus`].
#[derive(Clone, Copy, Debug, PartialEq, Eq, Structural)]
pub struct SubscriptionId {
    pub id: u64,
}

/// What a subscriber finds when it reads from the bus.
#[derive(Clone, Copy, Debug, PartialEq, Eq, Structural)]
pub enum Received {
    /// The oldest update still buffered for the subscriber.
    Update(TodoUpdate),
    /// The subscriber's queue overflowed: this many updates were dropped
    /// since its last read. Reading again goes on with what is buffered.
    Lagged(u64),
    /// Nothing is buffered for the subscriber yet.
    Empty,
    /// No such subscriber is attached.
    Closed,
}

/// The state of one subscriber, as the contracts see it.
pub struct SubscriberView {
    pub id: u64,
    pub queue: Seq<TodoUpdate>,
    pub lagged: u64,
}

/// The state of the whole bus, as the contracts see it.
pub struct BusView {
    pub capacity: nat,
    pub next_id: u64,
    pub subs: Seq<SubscriberView>,
}

/// One more dropped update, stopping at the largest count.
pub open spec fn bump(n: u64) -> u64 {
    if n < u64::MAX {
        (n + 1) as u64
    } else {
        n
    }
}

/// The subscriber after `u` is delivered to it: a full queue loses its oldest
/// update, and that loss is counted.
pub open spec fn deliver(s: SubscriberView, u: TodoUpdate, capacity: nat) -> SubscriberView {
    if s.queue.len() >= capacity {
        SubscriberView { id: s.id, queue: s.queue.drop_first().push(u), lagged: bump(s.lagged) }
    } else {
        SubscriberView { id: s.id, queue: s.queue.push(u), lagged: s.lagged }
    }
}

/// What one read takes from a subscriber, and the subscriber after it.
pub open spec fn receive(s: SubscriberView) -> (SubscriberView, Received) {
    if s.lagged > 0 {
        (SubscriberView { id: s.id, queue: s.queue, lagged: 0 }, Received::Lagged(s.lagged))
    } else if s.queue.len() == 0 {
        (s, Received::Empty)
    } else {
        (
            SubscriberView { id: s.id, queue: s.queue.drop_first(), lagged: 0 },
            Received::Update(s.queue[0]),
        )
    }
}

impl BusView {
    /// Capacity is positive, no queue holds more than it, and subscriber ids
    /// rise strictly in order of attachment and stay below the next id.
    pub open spec fn wf(self) -> bool {
        &&& self.capacity > 0
        &&& forall|i: int| 0 <= i < self.subs.len() ==> #[trigger] self.subs[i].queue.len() <= self.capacity
        &&& forall|i: int, j: int| 0 <= i < j < self.subs.len() ==> self.subs[i].id < self.subs[j].id
        &&& forall|i: int| 0 <= i < self.subs.len() ==> #[trigger] self.subs[i].id < self.next_id
    }

    pub open spec fn attached(self, id: u64) -> bool {
        exists|i: int| 0 <= i < self.subs.len() && #[trigger] self.subs[i].id == id
    }

    /// The position of the subscriber with this id.
    pub open spec fn index_of(self, id: u64) -> int {
        choose|i: int| 0 <= i < self.subs.len() && #[trigger] self.subs[i].id == id
    }

    /// The bus after `u` is published: every attached subscriber gets it.
    pub open spec fn published(self, u: TodoUpdate) -> BusView {
        BusView {
            capacity: self.capacity,
            next_id: self.next_id,
            subs: Seq::new(self.subs.len(), |i: int| deliver(self.subs[i], u, self.capacity)),
        }
    }

    /// The bus after one more subscriber attaches, with nothing buffered.
    pub open spec fn subscribed(self) -> BusView {
        BusView {
            capacity: self.capacity,
            next_id: (self.next_id + 1) as u64,
            subs: self.subs.push(SubscriberView { id: self.next_id, queue: seq![], lagged: 0 }),
        }
    }

    /// The bus after the subscriber `id` leaves; what it had buffered is gone.
    pub open spec fn unsubscribed(self, id: u64) -> BusView {
        if self.attached(id) {
            BusView {
                capacity: self.capacity,
                next_id: self.next_id,
                subs: self.subs.remove(self.index_of(id)),
            }
        } else {
            self
        }
    }

    /// What the subscriber `id` reads next.
    pub open spec fn read(self, id: u64) -> Received {
        if self.attached(id) {
            receive(self.subs[self.index_of(id)]).1
        } else {
            Received::Closed
        }
    }

    /// The bus after the subscriber `id` reads once.
    pub open spec fn after_read(self, id: u64) -> BusView {
        if self.attached(id) {
            BusView {
                capacity: self.capacity,
                next_id: self.next_id,
                subs: self.subs.update(self.index_of(id), receive(self.subs[self.index_of(id)]).0),
            }
        } else {
            self
        }
    }
}

/// In a well-formed bus each subscriber is found at its own position.
pub proof fn lemma_index_of(b: BusView, i: int)
    requires
        b.wf(),
        0 <= i < b.subs.len(),
    ensures
        b.attached(b.subs[i].id),
        b.index_of(b.subs[i].id) == i,
{
    let id = b.subs[i].id;
    assert(b.attached(id));
    let k = b.index_of(id);
    if k < i {
        assert(b.subs[k].id < b.subs[i].id);
    } else if k > i {
        assert(b.subs[i].id < b.subs[k].id);
    }
}

/// The bus after each update of `us` is published, in order.
pub open spec fn publish_all(b: BusView, us: Seq<TodoUpdate>) -> BusView
    decreases us.len(),
{
    if us.len() == 0 {
        b
    } else {
        publish_all(b, us.drop_last()).published(us.last())
    }
}

/// Publishing keeps the bus well formed, its subscribers and their order.
pub proof fn lemma_published_wf(b: BusView, u: TodoUpdate)
    requires
        b.wf(),
    ensures
        b.published(u).wf(),
        b.published(u).subs.len() == b.subs.len(),
        forall|j: int| 0 <= j < b.subs.len() ==> #[trigger] b.published(u).subs[j].id == b.subs[j].id,
{
    let a = b.published(u);
    assert forall|i: int| 0 <= i < a.subs.len() implies #[trigger] a.subs[i].queue.len() <= a.capacity by {
        assert(b.subs[i].queue.len() <= b.capacity);
    }
    assert forall|i: int, j: int| 0 <= i < j < a.subs.len() implies a.subs[i].id < a.subs[j].id by {
        assert(b.subs[i].id < b.subs[j].id);
    }
    assert forall|i: int| 0 <= i < a.subs.len() implies #[trigger] a.subs[i].id < a.next_id by {
        assert(b.subs[i].id < b.next_id);
    }
}

/// Attaching a subscriber keeps the bus well formed.
pub proof fn lemma_subscribed_wf(b: BusView)
    requires
        b.wf(),
        b.next_id < u64::MAX,
    ensures
        b.subscribed().wf(),
{
    let a = b.subscribed();
    assert forall|i: int| 0 <= i < a.subs.len() implies #[trigger] a.subs[i].queue.len() <= a.capacity by {
        if i < b.subs.len() {
            assert(a.subs[i] == b.subs[i]);
        }
    }
    assert forall|i: int, j: int| 0 <= i < j < a.subs.len() implies a.subs[i].id < a.subs[j].id by {
        assert(a.subs[i] == b.subs[i]);
        if j < b.subs.len() {
            assert(a.subs[j] == b.subs[j]);
        }
    }
    assert forall|i: int| 0 <= i < a.subs.len() implies #[trigger] a.subs[i].id < a.next_id by {
        if i < b.subs.len() {
            assert(a.subs[i] == b.subs[i]);
        }
    }
}

/// `t` is `s` after receiving `u` once: the same subscriber, whose queue is
/// what `s` held, less at most its oldest update, followed by `u`.
pub open spec fn received_once(s: SubscriberView, t: SubscriberView, u: TodoUpdate) -> bool {
    &&& t.id == s.id
    &&& exists|k: int| 0 <= k <= 1 && t.queue == s.queue.subrange(k, s.queue.len() as int).push(u)
}

/// Fan-out: a publish reaches every subscriber attached at that moment,
/// exactly once each, and the subscribers stay as they were.
pub proof fn lemma_fan_out(b: BusView, u: TodoUpdate)
    requires
        b.wf(),
    ensures
        b.published(u).wf(),
        b.published(u).subs.len() == b.subs.len(),
        forall|i: int|
            0 <= i < b.subs.len() ==> received_once(
                b.subs[i],
                #[trigger] b.published(u).subs[i],
                u,
            ),
{
    lemma_published_wf(b, u);
    let a = b.published(u);
    assert forall|i: int| 0 <= i < b.subs.len() implies received_once(
        b.subs[i],
        #[trigger] b.published(u).subs[i],
        u,
    ) by {
        let s = b.subs[i];
        let t = a.subs[i];
        if s.queue.len() >= b.capacity {
            assert(t.queue == s.queue.subrange(1, s.queue.len() as int).push(u));
        } else {
            assert(t.queue == s.queue.subrange(0, s.queue.len() as int).push(u));
        }
    }
}

/// Late subscribers: one that attaches after a publish does not see that
/// update; its first read finds nothing.
pub proof fn lemma_late_subscriber(b: BusView, u: TodoUpdate)
    requires
        b.wf(),
        b.next_id < u64::MAX,
    ensures
        b.published(u).subscribed().read(b.next_id) == Received::Empty,
{
    lemma_published_wf(b, u);
    let p = b.published(u);
    lemma_subscribed_wf(p);
    let a = p.subscribed();
    lemma_index_of(a, p.subs.len() as int);
}

/// Filling the empty queue of subscriber `i` with no more than the capacity
/// loses nothing: the queue holds exactly what was published, in order.
pub proof fn lemma_fill(b: BusView, i: int, us: Seq<TodoUpdate>)
    requires
        b.wf(),
        0 <= i < b.subs.len(),
        b.subs[i].queue.len() == 0,
        b.subs[i].lagged == 0,
        us.len() <= b.capacity,
    ensures
        publish_all(b, us).wf(),
        publish_all(b, us).capacity == b.capacity,
        publish_all(b, us).subs.len() == b.subs.len(),
        forall|j: int| 0 <= j < b.subs.len() ==> #[trigger] publish_all(b, us).subs[j].id == b.subs[j].id,
        publish_all(b, us).subs[i].queue == us,
        publish_all(b, us).subs[i].lagged == 0,
    decreases us.len(),
{
    if us.len() == 0 {
        assert(b.subs[i].queue =~= us);
    } else {
        let p = publish_all(b, us.drop_last());
        lemma_fill(b, i, us.drop_last());
        lemma_published_wf(p, us.last());
        assert(p.published(us.last()).subs[i].queue =~= us);
        assert forall|j: int| 0 <= j < b.subs.len() implies #[trigger] publish_all(b, us).subs[j].id == b.subs[j].id by {
            assert(p.subs[j].id == b.subs[j].id);
        }
    }
}

/// Backpressure: a subscriber that reads nothing while one more update than
/// its capacity is published finds a lag of one on its next read; after that
/// it goes on reading the updates that were kept, oldest first, the first one
/// dropped.
pub proof fn lemma_backpressure(b: BusView, i: int, us: Seq<TodoUpdate>)
    requires
        b.wf(),
        0 <= i < b.subs.len(),
        b.subs[i].queue.len() == 0,
        b.subs[i].lagged == 0,
        us.len() == b.capacity + 1,
    ensures
        publish_all(b, us).read(b.subs[i].id) == Received::Lagged(1),
        publish_all(b, us).after_read(b.subs[i].id).read(b.subs[i].id) == Received::Update(us[1]),
        publish_all(b, us).after_read(b.subs[i].id).subs[i].queue == us.drop_first(),
{
    let id = b.subs[i].id;
    let p = publish_all(b, us.drop_last());
    lemma_fill(b, i, us.drop_last());
    lemma_published_wf(p, us.last());
    let a = publish_all(b, us);
    assert(a == p.published(us.last()));
    assert(a.subs[i].id == id);
    lemma_index_of(a, i);
    assert(a.subs[i].queue =~= us.drop_first());
    assert(a.subs[i].lagged == 1);
    let c = a.after_read(id);
    assert(c.subs[i] == receive(a.subs[i]).0);
    assert(c.wf()) by {
        assert forall|j: int| 0 <= j < c.subs.len() implies #[trigger] c.subs[j].queue.len() <= c.capacity by {
            if j != i {
                assert(c.subs[j] == a.subs[j]);
            }
        }
        assert forall|j: int, k: int| 0 <= j < k < c.subs.len() implies c.subs[j].id < c.subs[k].id by {
            assert(a.subs[j].id < a.subs[k].id);
        }
        assert forall|j: int| 0 <= j < c.subs.len() implies #[trigger] c.subs[j].id < c.next_id by {
            assert(a.subs[j].id < a.next_id);
        }
    }
    lemma_index_of(c, i);
}

struct Subscriber {
    id: u64,
    queue: VecDeque<TodoUpdate>,
    lagged: u64,
}

impl View for Subscriber {
    type V = SubscriberView;

    closed spec fn view(&self) -> SubscriberView {
        SubscriberView { id: self.id, queue: self.queue@, lagged: self.lagged }
    }
}

/// A publish/subscribe channel of todo updates. Each subscriber has its own
/// queue of bounded capacity; a publish reaches every attached subscriber and
/// never waits on any of them.
pub struct Bus {
    capacity: usize,
    next_id: u64,
    subscribers: Vec<Subscriber>,
}

spec fn views(v: Seq<Subscriber>) -> Seq<SubscriberView> {
    Seq::new(v.len(), |i: int| v[i]@)
}

impl View for Bus {
    type V = BusView;

    closed spec fn view(&self) -> BusView {
        BusView {
            capacity: self.capacity as nat,
            next_id: self.next_id,
            subs: views(self.subscribers@),
        }
    }
}

impl Bus {
    /// A bus with no subscribers, whose queues hold `capacity` updates each.
    pub fn new(capacity: usize) -> (r: Bus)
        requires
            capacity > 0,
        ensures
            r@.wf(),
            r@.capacity == capacity,
            r@.next_id == 0,
            r@.subs.len() == 0,
    {
        let r = Bus { capacity, next_id: 0, subscribers: Vec::new() };
        assert(r@.subs =~= Seq::<SubscriberView>::empty());
        r
    }

    /// The capacity of each subscriber's queue.
    pub fn capacity(&self) -> (r: usize)
        ensures
            r == self@.capacity,
    {
        self.capacity
    }

    /// How many subscribers are attached.
    pub fn subscriber_count(&self) -> (r: usize)
        ensures
            r == self@.subs.len(),
    {
        self.subscribers.len()
    }

    /// Attaches a new subscriber, which sees only what is published from now
    /// on. `None`, with the bus unchanged, once the ids are used up.
    pub fn subscribe(&mut self) -> (r: Option<SubscriptionId>)
        requires
            old(self)@.wf(),
        ensures
            final(self)@.wf(),
            old(self)@.next_id < u64::MAX ==> r == Some(SubscriptionId { id: old(self)@.next_id })
                && final(self)@ == old(self)@.subscribed(),
            old(self)@.next_id == u64::MAX ==> r.is_none() && final(self)@ == old(self)@,
    {
        if self.next_id == u64::MAX {
            return None;
        }
        let id = self.next_id;
        let s = Subscriber { id, queue: VecDeque::new(), lagged: 0 };
        assert(s@.queue =~= Seq::<TodoUpdate>::empty());
        self.subscribers.push(s);
        self.next_id = id + 1;
        assert(self@.subs =~= old(self)@.subscribed().subs);
        Some(SubscriptionId { id })
    }

    /// Delivers `u` to every attached subscriber and says how many that was.
    /// A full queue drops its oldest update, which its subscriber learns of as
    /// a lag on its next read; with no subscriber the update is dropped.
    pub fn publish(&mut self, u: TodoUpdate) -> (r: usize)
        requires
            old(self)@.wf(),
        ensures
            final(self)@.wf(),
            final(self)@ == old(self)@.published(u),
            r == old(self)@.subs.len(),
    {
        let ghost v = self@;
        let n = self.subscribers.len();
        let mut i: usize = 0;
        while i < n
            invariant
                v.wf(),
                n == v.subs.len(),
                self.capacity == v.capacity,
                self.next_id == v.next_id,
                self.subscribers@.len() == n,
                i <= n,
                forall|j: int| 0 <= j < i ==> (#[trigger] self.subscribers@[j])@ == deliver(v.subs[j], u, v.capacity),
                forall|j: int| i <= j < n ==> (#[trigger] self.subscribers@[j])@ == v.subs[j],
            decreases n - i,
        {
            let mut s = self.subscribers.remove(i);
            assert(s@ == v.subs[i as int]);
            if s.queue.len() >= self.capacity {
                s.queue.pop_front();
                s.queue.push_back(u);
                if s.lagged < u64::MAX {
                    s.lagged = s.lagged + 1;
                }
            } else {
                s.queue.push_back(u);
            }
            assert(s@ == deliver(v.subs[i as int], u, v.capacity)) by {
                assert(s@.queue =~= deliver(v.subs[i as int], u, v.capacity).queue);
            }
            self.subscribers.insert(i, s);
            i = i + 1;
        }
        assert(self@.subs =~= v.published(u).subs);
        n
    }

    /// Takes the next thing the subscriber `id` has to read: first a lag, if
    /// its queue overflowed, then its buffered updates oldest first.
    pub fn recv(&mut self, sub: SubscriptionId) -> (r: Received)
        requires
            old(self)@.wf(),
        ensures
            final(self)@.wf(),
            r == old(self)@.read(sub.id),
            final(self)@ == old(self)@.after_read(sub.id),
    {
        let ghost v = self@;
        match self.find(sub.id) {
            None => Received::Closed,
            Some(i) => {
                let mut s = self.subscribers.remove(i);
                assert(s@ == v.subs[i as int]);
                let r = if s.lagged > 0 {
                    let n = s.lagged;
                    s.lagged = 0;
                    Received::Lagged(n)
                } else {
                    match s.queue.pop_front() {
                        Some(u) => Received::Update(u),
                        None => Received::Empty,
                    }
                };
                assert(s@ == receive(v.subs[i as int]).0) by {
                    assert(s@.queue =~= receive(v.subs[i as int]).0.queue);
                }
                self.subscribers.insert(i, s);
                assert(self@.subs =~= v.after_read(sub.id).subs);
                r
            },
        }
    }

    /// Detaches the subscriber `id`, discarding what it had buffered; says
    /// whether it was attached.
    pub fn unsubscribe(&mut self, sub: SubscriptionId) -> (r: bool)
        requires
            old(self)@.wf(),
        ensures
            final(self)@.wf(),
            r == old(self)@.attached(sub.id),
            final(self)@ == old(self)@.unsubscribed(sub.id),
    {
        let ghost v = self@;
        match self.find(sub.id) {
            None => false,
            Some(i) => {
                self.subscribers.remove(i);
                assert(self@.subs =~= v.unsubscribed(sub.id).subs);
                true
            },
        }
    }

    /// The position of the subscriber `id`, if it is attached.
    fn find(&self, id: u64) -> (r: Option<usize>)
        requires
            self@.wf(),
        ensures
            match r {
                Some(i) => self@.attached(id) && i == self@.index_of(id),
                None => !self@.attached(id),
            },
    {
        let ghost v = self@;
        let mut i: usize = 0;
        while i < self.subscribers.len()
            invariant
                v == self@,
                v.wf(),
                i <= self.subscribers@.len(),
                forall|j: int| 0 <= j < i ==> (#[trigger] v.subs[j]).id != id,
            decreases self.subscribers@.len() - i,
        {
            assert(v.subs[i as int].id == self.subscribers@[i as int].id);
            if self.subscribers[i].id == id {
                proof {
                    lemma_index_of(v, i as int);
                }
                return Some(i);
            }
            i = i + 1;
        }
        None
    }
}

} // verus!
