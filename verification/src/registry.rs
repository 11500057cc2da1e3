//! The subscription registry: a grow-only mapping from an entity key to the
//! ordered list of rooms interested in it. A key is present only once at
//! least one room has subscribed; absence means "no interested rooms". Room
//! lists are append-only and keep duplicates.

use vstd::prelude::*;

verus! {

/// The entity a room can subscribe to: a project/package pair for build
/// events, or a review-request number for request events.
pub enum SubscriptionKey {
    Build { project: String, package: String },
    Request { number: String },
}

/// The mathematical value of a subscription key.
pub enum KeyView {
    Build { project: Seq<char>, package: Seq<char> },
    Request { number: Seq<char> },
}

impl View for SubscriptionKey {
    type V = KeyView;

    open spec fn view(&self) -> KeyView {
        match self {
            SubscriptionKey::Build { project, package } => KeyView::Build {
                project: project@,
                package: package@,
            },
            SubscriptionKey::Request { number } => KeyView::Request { number: number@ },
        }
    }
}

impl SubscriptionKey {
    /// Structural equality of keys.
    pub fn key_eq(&self, other: &SubscriptionKey) -> (r: bool)
        ensures
            r == (self@ == other@),
    {
        match (self, other) {
            (
                SubscriptionKey::Build { project: p1, package: k1 },
                SubscriptionKey::Build { project: p2, package: k2 },
            ) => p1.eq(p2) && k1.eq(k2),
            (
                SubscriptionKey::Request { number: n1 },
                SubscriptionKey::Request { number: n2 },
            ) => n1.eq(n2),
            _ => false,
        }
    }
}

/// Whether some entry of `entries` carries the key `k`.
spec fn seq_has_key(entries: Seq<(SubscriptionKey, Vec<String>)>, k: KeyView) -> bool
    decreases entries.len(),
{
    entries.len() > 0 && (entries.last().0@ == k || seq_has_key(entries.drop_last(), k))
}

/// The room list the entries carry for `k`, empty when no entry does.
spec fn seq_rooms(entries: Seq<(SubscriptionKey, Vec<String>)>, k: KeyView) -> Seq<Seq<char>>
    decreases entries.len(),
{
    if entries.len() == 0 {
        Seq::<Seq<char>>::empty()
    } else if entries.last().0@ == k {
        entries.last().1.deep_view()
    } else {
        seq_rooms(entries.drop_last(), k)
    }
}

proof fn lemma_seq_rooms_absent(entries: Seq<(SubscriptionKey, Vec<String>)>, k: KeyView)
    requires
        forall|i: int| 0 <= i < entries.len() ==> (#[trigger] entries[i]).0@ != k,
    ensures
        !seq_has_key(entries, k),
        seq_rooms(entries, k) == Seq::<Seq<char>>::empty(),
    decreases entries.len(),
{
    if entries.len() > 0 {
        assert(entries.last() == entries[entries.len() - 1]);
        lemma_seq_rooms_absent(entries.drop_last(), k);
    }
}

proof fn lemma_seq_rooms_found(entries: Seq<(SubscriptionKey, Vec<String>)>, k: KeyView, i: int)
    requires
        0 <= i < entries.len(),
        entries[i].0@ == k,
        forall|j: int| i < j < entries.len() ==> (#[trigger] entries[j]).0@ != k,
    ensures
        seq_has_key(entries, k),
        seq_rooms(entries, k) == entries[i].1.deep_view(),
    decreases entries.len(),
{
    if i == entries.len() - 1 {
        assert(entries.last() == entries[i]);
    } else {
        assert(entries.last() == entries[entries.len() - 1]);
        assert(entries.last().0@ != k);
        lemma_seq_rooms_found(entries.drop_last(), k, i);
    }
}

proof fn lemma_seq_rooms_update_other(
    entries: Seq<(SubscriptionKey, Vec<String>)>,
    i: int,
    e: (SubscriptionKey, Vec<String>),
    k2: KeyView,
)
    requires
        0 <= i < entries.len(),
        entries[i].0@ != k2,
        e.0@ != k2,
    ensures
        seq_has_key(entries.update(i, e), k2) == seq_has_key(entries, k2),
        seq_rooms(entries.update(i, e), k2) == seq_rooms(entries, k2),
    decreases entries.len(),
{
    let upd = entries.update(i, e);
    assert(upd.last() == if i == entries.len() - 1 {
        e
    } else {
        entries.last()
    });
    if i == entries.len() - 1 {
        assert(upd.drop_last() =~= entries.drop_last());
    } else {
        assert(upd.drop_last() =~= entries.drop_last().update(i, e));
        lemma_seq_rooms_update_other(entries.drop_last(), i, e, k2);
    }
}

/// A grow-only, duplicate-keeping map from subscription keys to the ordered
/// list of subscribed rooms.
pub struct SubscriptionRegistry {
    entries: Vec<(SubscriptionKey, Vec<String>)>,
}

impl SubscriptionRegistry {
    /// Each key is carried by at most one entry.
    pub closed spec fn wf(&self) -> bool {
        forall|i: int, j: int|
            0 <= i < j < self.entries@.len() ==> (#[trigger] self.entries@[i]).0@ != (
            #[trigger] self.entries@[j]).0@
    }

    /// Whether any room has subscribed to `k`.
    pub closed spec fn contains_key(&self, k: KeyView) -> bool {
        seq_has_key(self.entries@, k)
    }

    /// The rooms subscribed to `k`, oldest first; empty when none has.
    pub closed spec fn rooms(&self, k: KeyView) -> Seq<Seq<char>> {
        seq_rooms(self.entries@, k)
    }

    /// A key nothing has subscribed to has no rooms.
    pub proof fn lemma_unsubscribed_rooms_empty(&self, k: KeyView)
        requires
            !self.contains_key(k),
        ensures
            self.rooms(k) == Seq::<Seq<char>>::empty(),
    {
        lemma_no_key_no_rooms(self.entries@, k);
    }

    /// An empty registry.
    pub fn new() -> (r: SubscriptionRegistry)
        ensures
            r.wf(),
            forall|k: KeyView| !r.contains_key(k),
            forall|k: KeyView| r.rooms(k) == Seq::<Seq<char>>::empty(),
    {
        let r = SubscriptionRegistry { entries: Vec::new() };
        proof {
            assert forall|k: KeyView| !r.contains_key(k) && r.rooms(k) == Seq::<
                Seq<char>,
            >::empty() by {
                lemma_seq_rooms_absent(r.entries@, k);
            }
        }
        r
    }

    /// A snapshot of the rooms subscribed to `key`, oldest first; empty when
    /// no room has subscribed to it.
    pub fn lookup(&self, key: &SubscriptionKey) -> (r: Vec<String>)
        requires
            self.wf(),
        ensures
            r.deep_view() == self.rooms(key@),
            !self.contains_key(key@) ==> r.deep_view() == Seq::<Seq<char>>::empty(),
    {
        let n = self.entries.len();
        let mut i: usize = 0;
        while i < n
            invariant
                i <= n == self.entries@.len(),
                self.wf(),
                forall|j: int| 0 <= j < i ==> (#[trigger] self.entries@[j]).0@ != key@,
            decreases n - i,
        {
            if self.entries[i].0.key_eq(key) {
                let r = self.entries[i].1.clone();
                proof {
                    let held = self.entries@[i as int].1;
                    assert forall|j: int| 0 <= j < r@.len() implies #[trigger] r@[j] == held@[j]
                        by {}
                    assert(r.deep_view() =~= self.entries@[i as int].1.deep_view());
                    lemma_seq_rooms_found(self.entries@, key@, i as int);
                }
                return r;
            }
            i += 1;
        }
        proof {
            lemma_seq_rooms_absent(self.entries@, key@);
        }
        Vec::new()
    }

    /// Append `room` to the list for `key`, creating the list when the key
    /// was absent.
    pub fn subscribe(&mut self, key: SubscriptionKey, room: String)
        requires
            old(self).wf(),
        ensures
            subscribed(*old(self), *final(self), key@, room@),
    {
        let ghost pre = self.entries@;
        let n = self.entries.len();
        let mut i: usize = 0;
        while i < n
            invariant
                i <= n == self.entries@.len(),
                self.wf(),
                self.entries@ == pre,
                pre == old(self).entries@,
                forall|j: int| 0 <= j < i ==> (#[trigger] self.entries@[j]).0@ != key@,
            decreases n - i,
        {
            if self.entries[i].0.key_eq(&key) {
                let entry = self.entries.remove(i);
                let (k0, mut rooms) = entry;
                let ghost oldrooms = rooms@;
                rooms.push(room);
                self.entries.insert(i, (k0, rooms));
                proof {
                    let e = (k0, rooms);
                    assert(self.entries@ =~= pre.update(i as int, e));
                    let upd = pre.update(i as int, e);
                    assert forall|a: int, b: int|
                        0 <= a < b < upd.len() implies (#[trigger] upd[a]).0@ != (
                    #[trigger] upd[b]).0@ by {}
                    lemma_seq_rooms_found(upd, key@, i as int);
                    lemma_seq_rooms_found(pre, key@, i as int);
                    assert(rooms.deep_view() =~= pre[i as int].1.deep_view().push(room@));
                    assert forall|k2: KeyView| k2 != key@ implies seq_rooms(upd, k2) == seq_rooms(
                        pre,
                        k2,
                    ) && seq_has_key(upd, k2) == seq_has_key(pre, k2) by {
                        lemma_seq_rooms_update_other(pre, i as int, e, k2);
                    }
                    assert(self.entries@ == upd);
                    assert(self.rooms(key@) == seq_rooms(upd, key@));
                    assert(self.rooms(key@) =~= seq_rooms(pre, key@).push(room@));
                }
                return ;
            }
            i += 1;
        }
        let mut rooms: Vec<String> = Vec::new();
        rooms.push(room);
        self.entries.push((key, rooms));
        proof {
            let post = self.entries@;
            let e = post.last();
            assert(post.drop_last() =~= pre);
            lemma_seq_rooms_absent(pre, e.0@);
            assert(rooms.deep_view() =~= Seq::<Seq<char>>::empty().push(room@));
            assert forall|a: int, b: int| 0 <= a < b < post.len() implies (#[trigger] post[a]).0@
                != (#[trigger] post[b]).0@ by {
                if b == post.len() - 1 {
                    assert(pre[a].0@ != e.0@);
                }
            }
            assert(seq_rooms(post, key@) =~= seq_rooms(pre, key@).push(room@));
            assert forall|k2: KeyView| k2 != key@ implies seq_rooms(post, k2) == seq_rooms(pre, k2)
                && seq_has_key(post, k2) == seq_has_key(pre, k2) by {
                assert(e.0@ == key@);
            }
        }
    }
}

proof fn lemma_no_key_no_rooms(entries: Seq<(SubscriptionKey, Vec<String>)>, k: KeyView)
    requires
        !seq_has_key(entries, k),
    ensures
        seq_rooms(entries, k) == Seq::<Seq<char>>::empty(),
    decreases entries.len(),
{
    if entries.len() > 0 {
        lemma_no_key_no_rooms(entries.drop_last(), k);
    }
}

/// The registry behind a non-poisoning reader-writer lock, shared between
/// the chat handlers and the broker delivery callbacks. Every value the lock
/// admits is well formed, so a writer that panics can never leave a broken
/// registry behind.
pub struct SharedRegistry {
    lock: vstd::rwlock::RwLock<SubscriptionRegistry, spec_fn(SubscriptionRegistry) -> bool>,
}

impl SharedRegistry {
    /// The lock admits exactly the well-formed registries.
    pub closed spec fn wf(&self) -> bool {
        forall|r: SubscriptionRegistry| #[trigger] self.lock.pred()(r) == r.wf()
    }

    /// An empty shared registry.
    pub fn new() -> (r: SharedRegistry)
        ensures
            r.wf(),
    {
        let registry = SubscriptionRegistry::new();
        SharedRegistry {
            lock: vstd::rwlock::RwLock::new(
                registry,
                Ghost(|r: SubscriptionRegistry| r.wf()),
            ),
        }
    }

    /// Take the write lock, append `room` to the list for `key`, and put the
    /// registry back; the value put back is exactly the one taken out with
    /// this subscription added.
    pub fn subscribe(&self, key: SubscriptionKey, room: String)
        requires
            self.wf(),
    {
        let (mut registry, handle) = self.lock.acquire_write();
        registry.subscribe(key, room);
        handle.release_write(registry);
    }

    /// A snapshot, under a read lock, of the rooms subscribed to `key` in
    /// some well-formed state of the registry.
    pub fn lookup(&self, key: &SubscriptionKey) -> (rooms: Vec<String>)
        requires
            self.wf(),
        ensures
            exists|r: SubscriptionRegistry|
                r.wf() && rooms.deep_view() == #[trigger] r.rooms(key@),
    {
        let handle = self.lock.acquire_read();
        let rooms = handle.borrow().lookup(key);
        proof {
            let r = handle.view();
            assert(r.wf() && rooms.deep_view() == r.rooms(key@));
        }
        handle.release_read();
        rooms
    }
}

/// How one subscription changes the registry: the new room is appended to the
/// key's list (created when absent), and every other key is untouched.
pub open spec fn subscribed(
    pre: SubscriptionRegistry,
    post: SubscriptionRegistry,
    k: KeyView,
    room: Seq<char>,
) -> bool {
    &&& post.wf()
    &&& post.contains_key(k)
    &&& post.rooms(k) == pre.rooms(k).push(room)
    &&& forall|k2: KeyView| k2 != k ==> post.contains_key(k2) == pre.contains_key(k2)
    &&& forall|k2: KeyView| k2 != k ==> post.rooms(k2) == pre.rooms(k2)
}

/// Law: two subscriptions to one key append the two rooms in order, after
/// whatever was subscribed before; on a previously unsubscribed key the list
/// becomes exactly the two rooms, duplicates included when they are equal.
pub proof fn lemma_subscription_order(
    r0: SubscriptionRegistry,
    r1: SubscriptionRegistry,
    r2: SubscriptionRegistry,
    k: KeyView,
    room1: Seq<char>,
    room2: Seq<char>,
)
    requires
        subscribed(r0, r1, k, room1),
        subscribed(r1, r2, k, room2),
    ensures
        r2.rooms(k) == r0.rooms(k) + seq![room1, room2],
        !r0.contains_key(k) ==> r2.rooms(k) == seq![room1, room2],
{
    assert(r2.rooms(k) =~= r0.rooms(k) + seq![room1, room2]);
    if !r0.contains_key(k) {
        r0.lemma_unsubscribed_rooms_empty(k);
        assert(r0.rooms(k) + seq![room1, room2] =~= seq![room1, room2]);
    }
}

} // verus!
