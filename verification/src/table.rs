//! The resource table: an arena that owns resource values and hands out
//! generation-checked handles to them.
//!
//! An entry may be the child of another entry. A parent cannot be deleted
//! while it has children, so a child's parent is always there. A handle that
//! was deleted is never valid again: its slot is reused only under a higher
//! generation.

use vstd::prelude::*;

verus! {

/// An opaque reference to an entry of a table.
#[derive(Clone, Copy, Debug, PartialEq, Eq, Hash, Structural)]
pub struct Handle {
    pub index: u32,
    pub generation: u32,
}

#[derive(Clone, Copy, Debug, PartialEq, Eq, Structural)]
pub enum ResourceTableError {
    /// The table has no room for another entry.
    Full,
    /// The handle is stale or was never issued.
    NotPresent,
    /// The entry is not of the kind that the caller asked for.
    WrongType,
    /// The entry still has children.
    HasChildren,
}

struct Entry<T> {
    value: T,
    parent: Option<Handle>,
    children: Vec<Handle>,
}

struct Slot<T> {
    /// The generation of the entry in the slot, or of the next one.
    generation: u32,
    entry: Option<Entry<T>>,
}

/// The table. It performs no concurrency control: a caller holds it
/// exclusively for the length of one call.
pub struct ResourceTable<T> {
    slots: Vec<Slot<T>>,
    /// The empty slots that can be used again.
    free: Vec<u32>,
    /// The number of slots that the table may grow to.
    limit: u32,
}

/// An entry as contracts see it.
pub struct EntryView<T> {
    pub value: T,
    pub parent: Option<Handle>,
    pub children: Set<Handle>,
}

/// A root entry that holds `value`.
pub open spec fn root_entry<T>(value: T) -> EntryView<T> {
    EntryView { value, parent: None, children: Set::empty() }
}

/// A childless entry under `parent` that holds `value`.
pub open spec fn child_entry<T>(value: T, parent: Handle) -> EntryView<T> {
    EntryView { value, parent: Some(parent), children: Set::empty() }
}

spec fn live_in<T>(slots: Seq<Slot<T>>, h: Handle) -> bool {
    &&& (h.index as int) < slots.len()
    &&& slots[h.index as int].generation == h.generation
    &&& slots[h.index as int].entry is Some
}

spec fn entry_in<T>(slots: Seq<Slot<T>>, h: Handle) -> Entry<T> {
    slots[h.index as int].entry->0
}

spec fn entry_view<T>(e: Entry<T>) -> EntryView<T> {
    EntryView {
        value: e.value,
        parent: e.parent,
        children: Set::new(|c: Handle| e.children@.contains(c)),
    }
}

spec fn store_ok<T>(slots: Seq<Slot<T>>, free: Seq<u32>, limit: u32) -> bool {
    &&& slots.len() <= limit
    &&& free.no_duplicates()
    &&& forall|k: int|
        0 <= k < free.len() ==> (#[trigger] free[k] as int) < slots.len() && slots[free[k] as int].entry is None
    &&& forall|i: int|
        0 <= i < slots.len() && (#[trigger] slots[i]).entry is None ==> slots[i].generation
            == u32::MAX || free.contains(i as u32)
}

spec fn links_ok<T>(slots: Seq<Slot<T>>) -> bool {
    forall|h: Handle| #[trigger]
        live_in(slots, h) ==> {
            let e = entry_in(slots, h);
            &&& e.children@.no_duplicates()
            &&& (e.parent matches Some(p) ==> live_in(slots, p) && entry_in(
                slots,
                p,
            ).children@.contains(h))
            &&& forall|k: int|
                0 <= k < e.children@.len() ==> live_in(slots, #[trigger] e.children@[k])
                    && entry_in(slots, e.children@[k]).parent == Some(h)
        }
}

/// `b` is `a` but for the value of the live entry `h`.
spec fn value_replaced<T>(a: ResourceTable<T>, b: ResourceTable<T>, h: Handle) -> bool {
    &&& b.free@ == a.free@
    &&& b.limit == a.limit
    &&& b.slots@ == a.slots@.update(
        h.index as int,
        Slot {
            generation: h.generation,
            entry: Some(
                Entry {
                    value: entry_in(b.slots@, h).value,
                    parent: entry_in(a.slots@, h).parent,
                    children: entry_in(a.slots@, h).children,
                },
            ),
        },
    )
}

spec fn retired_in<T>(slots: Seq<Slot<T>>, free: Seq<u32>, h: Handle) -> bool {
    &&& (h.index as int) < slots.len()
    &&& (h.generation < slots[h.index as int].generation || (slots[h.index as int].entry is None
        && !free.contains(h.index)))
}

impl<T> View for ResourceTable<T> {
    type V = Map<Handle, EntryView<T>>;

    /// The live entries by their handles.
    closed spec fn view(&self) -> Map<Handle, EntryView<T>> {
        Map::new(
            |h: Handle| live_in(self.slots@, h),
            |h: Handle| entry_view(entry_in(self.slots@, h)),
        )
    }
}

impl<T> ResourceTable<T> {
    /// The table's invariant.
    pub closed spec fn wf(&self) -> bool {
        store_ok(self.slots@, self.free@, self.limit) && links_ok(self.slots@)
    }

    /// The handles that were deleted, or that otherwise can never become
    /// valid.
    pub closed spec fn retired(&self) -> Set<Handle> {
        Set::new(|h: Handle| retired_in(self.slots@, self.free@, h))
    }

    /// The number of entries that can still be added.
    pub closed spec fn vacancies(&self) -> nat {
        (self.free@.len() + (self.limit - self.slots@.len())) as nat
    }

    /// No slot is left for another entry.
    pub open spec fn is_full(&self) -> bool {
        self.vacancies() == 0
    }

    /// A retired handle is not live.
    pub proof fn lemma_retired_not_live(&self, h: Handle)
        requires
            self.wf(),
            self.retired().contains(h),
        ensures
            !self@.contains_key(h),
    {
    }

    /// A live child's parent is live and lists the child.
    pub proof fn lemma_parent_is_live(&self, h: Handle, p: Handle)
        requires
            self.wf(),
            self@.contains_key(h),
            self@[h].parent == Some(p),
        ensures
            self@.contains_key(p),
            self@[p].children.contains(h),
    {
        assert(live_in(self.slots@, h));
    }

    /// Every child that a live entry lists is live and names it as parent.
    pub proof fn lemma_child_is_live(&self, h: Handle, c: Handle)
        requires
            self.wf(),
            self@.contains_key(h),
            self@[h].children.contains(c),
        ensures
            self@.contains_key(c),
            self@[c].parent == Some(h),
    {
        assert(live_in(self.slots@, h));
        let e = entry_in(self.slots@, h);
        let k = choose|k: int| 0 <= k < e.children@.len() && e.children@[k] == c;
        assert(live_in(self.slots@, e.children@[k]));
    }

    /// An empty table with room for as many entries as handles can tell
    /// apart.
    pub fn new() -> (t: ResourceTable<T>)
        ensures
            t.wf(),
            t@ == Map::<Handle, EntryView<T>>::empty(),
            t.retired() == Set::<Handle>::empty(),
            t.vacancies() == u32::MAX,
    {
        ResourceTable::with_limit(0xffff_ffff)
    }

    /// An empty table with room for `limit` entries at a time.
    pub fn with_limit(limit: u32) -> (t: ResourceTable<T>)
        ensures
            t.wf(),
            t@ == Map::<Handle, EntryView<T>>::empty(),
            t.retired() == Set::<Handle>::empty(),
            t.vacancies() == limit,
    {
        let t = ResourceTable { slots: Vec::new(), free: Vec::new(), limit };
        assert(t@ =~= Map::<Handle, EntryView<T>>::empty());
        assert(t.retired() =~= Set::<Handle>::empty());
        t
    }

    /// Puts an entry into a slot, without touching any other entry.
    fn occupy(&mut self, value: T, parent: Option<Handle>) -> (r: Result<
        Handle,
        ResourceTableError,
    >)
        requires
            store_ok(old(self).slots@, old(self).free@, old(self).limit),
        ensures
            store_ok(final(self).slots@, final(self).free@, final(self).limit),
            final(self).limit == old(self).limit,
            r is Err <==> old(self).is_full(),
            r is Ok ==> final(self).vacancies() == old(self).vacancies() - 1,
            r is Err ==> r == Err::<Handle, ResourceTableError>(ResourceTableError::Full)
                && final(self).slots@ == old(self).slots@ && final(self).free@ == old(self).free@,
            r matches Ok(h) ==> {
                &&& !live_in(old(self).slots@, h)
                &&& !retired_in(old(self).slots@, old(self).free@, h)
                &&& live_in(final(self).slots@, h)
                &&& entry_in(final(self).slots@, h).value == value
                &&& entry_in(final(self).slots@, h).parent == parent
                &&& entry_in(final(self).slots@, h).children@ == Seq::<Handle>::empty()
                &&& forall|x: Handle|
                    x != h ==> (#[trigger] live_in(final(self).slots@, x) == live_in(
                        old(self).slots@,
                        x,
                    ))
                &&& forall|x: Handle|
                    x != h && live_in(old(self).slots@, x) ==> #[trigger] entry_in(
                        final(self).slots@,
                        x,
                    ) == entry_in(old(self).slots@, x)
                &&& forall|x: Handle| #[trigger]
                    retired_in(final(self).slots@, final(self).free@, x) == retired_in(
                        old(self).slots@,
                        old(self).free@,
                        x,
                    )
            },
    {
        let entry = Entry { value, parent, children: Vec::new() };
        if self.free.len() > 0 {
            let ghost old_free = self.free@;
            let i = self.free.pop().unwrap();
            assert(old_free[old_free.len() - 1] == i);
            assert(old_free.contains(i));
            assert(self.free@ =~= old_free.drop_last());
            let generation = self.slots[i as usize].generation;
            self.slots[i as usize].entry = Some(entry);
            let h = Handle { index: i, generation };
            proof {
                assert forall|k: int| 0 <= k < self.free@.len() implies (#[trigger] self.free@[k]
                    as int) < self.slots@.len() && self.slots@[self.free@[k] as int].entry
                    is None by {
                    assert(old_free[k] == self.free@[k]);
                    assert(old_free[k] != old_free[old_free.len() - 1]);
                }
                assert forall|j: u32| j != i implies self.free@.contains(j) == old_free.contains(
                    j,
                ) by {
                    if old_free.contains(j) {
                        let k = choose|k: int| 0 <= k < old_free.len() && old_free[k] == j;
                        assert(self.free@[k] == j);
                    }
                }
                assert forall|n: int|
                    0 <= n < self.slots@.len() && (#[trigger] self.slots@[n]).entry
                        is None implies self.slots@[n].generation == u32::MAX
                    || self.free@.contains(n as u32) by {
                    assert(old(self).slots@[n].entry is None);
                }
                assert forall|x: Handle| #[trigger]
                    retired_in(self.slots@, self.free@, x) == retired_in(
                        old(self).slots@,
                        old(self).free@,
                        x,
                    ) by {
                    if x.index != i {
                        assert(self.free@.contains(x.index) == old_free.contains(x.index));
                    }
                }
            }
            Ok(h)
        } else if self.slots.len() < self.limit as usize {
            let i = self.slots.len() as u32;
            self.slots.push(Slot { generation: 0, entry: Some(entry) });
            let h = Handle { index: i, generation: 0 };
            proof {
                assert forall|n: int|
                    0 <= n < self.slots@.len() && (#[trigger] self.slots@[n]).entry
                        is None implies self.slots@[n].generation == u32::MAX
                    || self.free@.contains(n as u32) by {
                    assert(old(self).slots@[n].entry is None);
                }
            }
            Ok(h)
        } else {
            Err(ResourceTableError::Full)
        }
    }

    /// Creates an independent root entry. Fails with `Full`, changing
    /// nothing, exactly when the table is full.
    pub fn push(&mut self, value: T) -> (r: Result<Handle, ResourceTableError>)
        requires
            old(self).wf(),
        ensures
            final(self).wf(),
            final(self).retired() == old(self).retired(),
            match r {
                Ok(h) => {
                    &&& !old(self).is_full()
                    &&& final(self).vacancies() == old(self).vacancies() - 1
                    &&& !old(self)@.contains_key(h)
                    &&& !old(self).retired().contains(h)
                    &&& final(self)@ == old(self)@.insert(h, root_entry(value))
                },
                Err(e) => {
                    &&& old(self).is_full()
                    &&& final(self).vacancies() == old(self).vacancies()
                    &&& e == ResourceTableError::Full
                    &&& final(self)@ == old(self)@
                },
            },
    {
        let r = self.occupy(value, None);
        proof {
            assert(final(self).retired() =~= old(self).retired());
            match r {
                Ok(h) => {
                    assert(entry_view(entry_in(self.slots@, h)) == root_entry(value)) by {
                        assert(entry_view(entry_in(self.slots@, h)).children =~= Set::<
                            Handle,
                        >::empty());
                    }
                    assert(self@ =~= old(self)@.insert(h, root_entry(value)));
                    assert forall|x: Handle| #[trigger] live_in(self.slots@, x) implies {
                        let e = entry_in(self.slots@, x);
                        &&& e.children@.no_duplicates()
                        &&& (e.parent matches Some(p) ==> live_in(self.slots@, p) && entry_in(
                            self.slots@,
                            p,
                        ).children@.contains(x))
                        &&& forall|k: int|
                            0 <= k < e.children@.len() ==> live_in(
                                self.slots@,
                                #[trigger] e.children@[k],
                            ) && entry_in(self.slots@, e.children@[k]).parent == Some(x)
                    } by {
                        if x != h {
                            assert(live_in(old(self).slots@, x));
                            let e = entry_in(old(self).slots@, x);
                            assert(entry_in(self.slots@, x) == e);
                            if let Some(p) = e.parent {
                                assert(live_in(old(self).slots@, p));
                                assert(entry_in(self.slots@, p) == entry_in(old(self).slots@, p));
                            }
                            assert forall|k: int| 0 <= k < e.children@.len() implies live_in(
                                self.slots@,
                                #[trigger] e.children@[k],
                            ) && entry_in(self.slots@, e.children@[k]).parent == Some(x) by {
                                let c = e.children@[k];
                                assert(live_in(old(self).slots@, c));
                                assert(entry_in(self.slots@, c) == entry_in(old(self).slots@, c));
                            }
                        }
                    }
                },
                Err(_) => {
                    assert(self@ =~= old(self)@);
                },
            }
        }
        r
    }

    /// Creates an entry whose lifetime depends on `parent`: the parent
    /// cannot be deleted while the child is live. Fails with `NotPresent`
    /// when the parent is not live, else with `Full` when the table is
    /// full; a failure changes nothing.
    pub fn push_child(&mut self, value: T, parent: Handle) -> (r: Result<
        Handle,
        ResourceTableError,
    >)
        requires
            old(self).wf(),
        ensures
            final(self).wf(),
            final(self).retired() == old(self).retired(),
            match r {
                Ok(h) => {
                    &&& old(self)@.contains_key(parent)
                    &&& !old(self).is_full()
                    &&& final(self).vacancies() == old(self).vacancies() - 1
                    &&& !old(self)@.contains_key(h)
                    &&& !old(self).retired().contains(h)
                    &&& final(self)@ == old(self)@.insert(h, child_entry(value, parent)).insert(
                        parent,
                        EntryView {
                            children: old(self)@[parent].children.insert(h),
                            ..old(self)@[parent]
                        },
                    )
                },
                Err(e) => {
                    &&& final(self)@ == old(self)@
                    &&& final(self).vacancies() == old(self).vacancies()
                    &&& e == if !old(self)@.contains_key(parent) {
                        ResourceTableError::NotPresent
                    } else {
                        ResourceTableError::Full
                    }
                    &&& !old(self)@.contains_key(parent) || old(self).is_full()
                },
            },
    {
        if !self.contains(parent) {
            return Err(ResourceTableError::NotPresent);
        }
        let r = self.occupy(value, Some(parent));
        let h = match r {
            Ok(h) => h,
            Err(e) => {
                proof {
                    assert(self@ =~= old(self)@);
                    assert(final(self).retired() =~= old(self).retired());
                }
                return Err(e);
            },
        };
        let ghost mid = self.slots@;
        let pi = parent.index as usize;
        assert(live_in(mid, parent));
        match &mut self.slots[pi].entry {
            Some(e) => {
                e.children.push(h);
            },
            None => {},
        }
        proof {
            let s0 = old(self).slots@;
            let s1 = self.slots@;
            let pe0 = entry_in(s0, parent);
            assert(entry_in(mid, parent) == pe0);
            assert(entry_in(s1, parent).children@ == pe0.children@.push(h));
            assert(entry_in(s1, parent).value == pe0.value);
            assert(entry_in(s1, parent).parent == pe0.parent);
            assert forall|x: Handle| #[trigger] live_in(s1, x) == live_in(mid, x) by {}
            assert forall|x: Handle|
                x.index != parent.index && (x.index as int) < mid.len() implies #[trigger] entry_in(
                s1,
                x,
            ) == entry_in(mid, x) by {}
            // the new handle is not yet among the parent's children
            assert(!pe0.children@.contains(h)) by {
                if pe0.children@.contains(h) {
                    let k = choose|k: int| 0 <= k < pe0.children@.len() && pe0.children@[k] == h;
                    assert(live_in(s0, pe0.children@[k]));
                }
            }
            assert(store_ok(s1, self.free@, self.limit)) by {
                assert forall|n: int| 0 <= n < s1.len() && (#[trigger] s1[n]).entry
                    is None implies s1[n].generation == u32::MAX || self.free@.contains(
                    n as u32,
                ) by {
                    assert(mid[n].entry is None);
                }
                assert forall|k: int| 0 <= k < self.free@.len() implies (#[trigger] self.free@[k]
                    as int) < s1.len() && s1[self.free@[k] as int].entry is None by {
                    assert(mid[self.free@[k] as int].entry is None);
                }
            }
            assert(final(self).retired() =~= old(self).retired()) by {
                assert forall|x: Handle|
                    retired_in(s1, self.free@, x) == retired_in(s0, old(self).free@, x) by {
                    assert(retired_in(mid, self.free@, x) == retired_in(s0, old(self).free@, x));
                }
            }
            assert forall|x: Handle| #[trigger] live_in(s1, x) implies {
                let e = entry_in(s1, x);
                &&& e.children@.no_duplicates()
                &&& (e.parent matches Some(p) ==> live_in(s1, p) && entry_in(
                    s1,
                    p,
                ).children@.contains(x))
                &&& forall|k: int|
                    0 <= k < e.children@.len() ==> live_in(s1, #[trigger] e.children@[k])
                        && entry_in(s1, e.children@[k]).parent == Some(x)
            } by {
                let e = entry_in(s1, x);
                if x == h {
                    assert(e == entry_in(mid, h));
                    assert(pe0.children@.push(h)[pe0.children@.len() as int] == h);
                } else if x == parent {
                    assert(live_in(s0, parent));
                    if let Some(p) = e.parent {
                        assert(live_in(s0, p));
                        assert(entry_in(s0, p).children@.contains(x));
                        if p == parent {
                            let k = choose|k: int|
                                0 <= k < pe0.children@.len() && pe0.children@[k] == x;
                            assert(pe0.children@.push(h)[k] == x);
                        } else {
                            assert(entry_in(mid, p) == entry_in(s0, p));
                        }
                    }
                    assert forall|k: int| 0 <= k < e.children@.len() implies live_in(
                        s1,
                        #[trigger] e.children@[k],
                    ) && entry_in(s1, e.children@[k]).parent == Some(x) by {
                        let c = e.children@[k];
                        assert(e.children@ == pe0.children@.push(h));
                        if k < pe0.children@.len() {
                            assert(c == pe0.children@[k]);
                            assert(live_in(s0, pe0.children@[k]));
                            assert(entry_in(s0, c).parent == Some(parent));
                            assert(c != h);
                            assert(live_in(mid, c));
                            assert(live_in(s1, c));
                            assert(entry_in(mid, c) == entry_in(s0, c));
                            if c.index == parent.index {
                                assert(c == parent);
                                assert(entry_in(s1, c).parent == Some(x));
                            } else {
                                assert(entry_in(s1, c) == entry_in(mid, c));
                                assert(entry_in(s1, c).parent == Some(x));
                            }
                        } else {
                            assert(c == h);
                            assert(h.index != parent.index);
                            assert(live_in(mid, h));
                            assert(live_in(s1, h));
                            assert(entry_in(s1, h) == entry_in(mid, h));
                            assert(entry_in(s1, c).parent == Some(x));
                        }
                    }
                } else {
                    assert(live_in(s0, x));
                    let e0 = entry_in(s0, x);
                    assert(entry_in(mid, x) == e0);
                    assert(x.index != parent.index);
                    assert(live_in(mid, x));
                    assert(e == e0);
                    if let Some(p) = e0.parent {
                        assert(live_in(s0, p));
                        assert(entry_in(s0, p).children@.contains(x));
                        if p == parent {
                            let k = choose|k: int|
                                0 <= k < pe0.children@.len() && pe0.children@[k] == x;
                            assert(pe0.children@.push(h)[k] == x);
                        } else {
                            assert(p != h);
                            assert(entry_in(mid, p) == entry_in(s0, p));
                            assert(p.index != parent.index);
                        }
                    }
                    assert forall|k: int| 0 <= k < e.children@.len() implies live_in(
                        s1,
                        #[trigger] e.children@[k],
                    ) && entry_in(s1, e.children@[k]).parent == Some(x) by {
                        let c = e0.children@[k];
                        assert(live_in(s0, c));
                        assert(entry_in(s0, c).parent == Some(x));
                        assert(c != h);
                        assert(live_in(mid, c));
                        assert(live_in(s1, c));
                        assert(entry_in(mid, c) == entry_in(s0, c));
                        if c.index == parent.index {
                            assert(c == parent);
                            assert(entry_in(s1, c).parent == Some(x));
                        } else {
                            assert(entry_in(s1, c) == entry_in(mid, c));
                            assert(entry_in(s1, c).parent == Some(x));
                        }
                    }
                }
            }
            let pv = EntryView {
                children: old(self)@[parent].children.insert(h),
                ..old(self)@[parent]
            };
            assert(entry_view(entry_in(s1, parent)) == pv) by {
                assert(entry_view(entry_in(s1, parent)).children =~= pv.children) by {
                    assert forall|c: Handle|
                        pe0.children@.push(h).contains(c) <==> (pe0.children@.contains(c) || c
                            == h) by {
                        if pe0.children@.contains(c) {
                            let k = choose|k: int|
                                0 <= k < pe0.children@.len() && pe0.children@[k] == c;
                            assert(pe0.children@.push(h)[k] == c);
                        }
                        if c == h {
                            assert(pe0.children@.push(h)[pe0.children@.len() as int] == h);
                        }
                    }
                }
            }
            assert(entry_view(entry_in(s1, h)) == child_entry(value, parent)) by {
                assert(h.index != parent.index);
                assert(entry_in(s1, h) == entry_in(mid, h));
                assert(entry_view(entry_in(s1, h)).children =~= Set::<Handle>::empty());
            }
            assert(self@ =~= old(self)@.insert(h, child_entry(value, parent)).insert(parent, pv))
                by {
                assert forall|x: Handle| x != h && x != parent && live_in(s1, x) implies entry_in(
                    s1,
                    x,
                ) == entry_in(s0, x) by {
                    assert(live_in(s0, x));
                    assert(entry_in(mid, x) == entry_in(s0, x));
                }
            }
        }
        Ok(h)
    }

    /// Whether the handle refers to a live entry.
    pub fn contains(&self, h: Handle) -> (b: bool)
        ensures
            b == self@.contains_key(h),
    {
        let i = h.index as usize;
        i < self.slots.len() && self.slots[i].generation == h.generation
            && self.slots[i].entry.is_some()
    }

    /// Borrows the value behind a handle. Fails with `NotPresent` when the
    /// handle is stale or unknown.
    pub fn get(&self, h: Handle) -> (r: Result<&T, ResourceTableError>)
        ensures
            match r {
                Ok(v) => self@.contains_key(h) && *v == self@[h].value,
                Err(e) => !self@.contains_key(h) && e == ResourceTableError::NotPresent,
            },
    {
        let i = h.index as usize;
        if i < self.slots.len() && self.slots[i].generation == h.generation {
            match &self.slots[i].entry {
                Some(e) => Ok(&e.value),
                None => Err(ResourceTableError::NotPresent),
            }
        } else {
            Err(ResourceTableError::NotPresent)
        }
    }

    /// The parent of a live entry, if it has one.
    pub fn parent(&self, h: Handle) -> (r: Result<Option<Handle>, ResourceTableError>)
        ensures
            match r {
                Ok(p) => self@.contains_key(h) && p == self@[h].parent,
                Err(e) => !self@.contains_key(h) && e == ResourceTableError::NotPresent,
            },
    {
        let i = h.index as usize;
        if i < self.slots.len() && self.slots[i].generation == h.generation {
            match &self.slots[i].entry {
                Some(e) => Ok(e.parent),
                None => Err(ResourceTableError::NotPresent),
            }
        } else {
            Err(ResourceTableError::NotPresent)
        }
    }

    /// Whether a live entry has children.
    pub fn has_children(&self, h: Handle) -> (r: Result<bool, ResourceTableError>)
        ensures
            match r {
                Ok(b) => self@.contains_key(h) && b == (self@[h].children != Set::<
                    Handle,
                >::empty()),
                Err(e) => !self@.contains_key(h) && e == ResourceTableError::NotPresent,
            },
    {
        let i = h.index as usize;
        if i < self.slots.len() && self.slots[i].generation == h.generation {
            match &self.slots[i].entry {
                Some(e) => {
                    let b = e.children.len() > 0;
                    proof {
                        let s = Set::new(|c: Handle| e.children@.contains(c));
                        if b {
                            assert(e.children@.contains(e.children@[0]));
                            assert(s.contains(e.children@[0]));
                        } else {
                            assert(s =~= Set::<Handle>::empty());
                        }
                    }
                    Ok(b)
                },
                None => Err(ResourceTableError::NotPresent),
            }
        } else {
            Err(ResourceTableError::NotPresent)
        }
    }

    /// Borrows the value behind a handle for writing. Whatever is written,
    /// the entry keeps its parent and children and every other entry stays
    /// as it is. Fails with `NotPresent` when the handle is stale or
    /// unknown.
    pub fn get_mut(&mut self, h: Handle) -> (r: Result<&mut T, ResourceTableError>)
        requires
            old(self).wf(),
        ensures
            match r {
                Ok(v) => {
                    &&& old(self)@.contains_key(h)
                    &&& *v == old(self)@[h].value
                    &&& final(self)@ == old(self)@.insert(
                        h,
                        EntryView { value: *final(v), ..old(self)@[h] },
                    )
                    &&& final(self).wf()
                    &&& final(self).retired() == old(self).retired()
                    &&& final(self).vacancies() == old(self).vacancies()
                },
                Err(e) => {
                    &&& !old(self)@.contains_key(h)
                    &&& e == ResourceTableError::NotPresent
                    &&& *final(self) == *old(self)
                },
            },
    {
        let i = h.index as usize;
        if i < self.slots.len() && self.slots[i].generation == h.generation
            && self.slots[i].entry.is_some() {
            proof {
                let a = *old(self);
                assert forall|t: ResourceTable<T>| value_replaced(a, t, h) implies #[trigger] t.wf()
                    && t.retired() == a.retired() && t.vacancies() == a.vacancies() && t@
                    == a@.insert(
                    h,
                    EntryView { value: entry_in(t.slots@, h).value, ..a@[h] },
                ) by {
                    let e0 = entry_in(a.slots@, h);
                    let e1 = Entry {
                        value: entry_in(t.slots@, h).value,
                        parent: e0.parent,
                        children: e0.children,
                    };
                    lemma_value_update(a.slots@, a.free@, a.limit, h, e1);
                    assert(t.retired() =~= a.retired());
                    assert(t@ =~= a@.insert(h, EntryView { value: e1.value, ..a@[h] }));
                }
            }
            match &mut self.slots[i].entry {
                Some(e) => Ok(&mut e.value),
                None => Err(ResourceTableError::NotPresent),
            }
        } else {
            Err(ResourceTableError::NotPresent)
        }
    }

    /// Removes an entry and hands its value back. Fails with `NotPresent`
    /// when the handle is stale or unknown, and with `HasChildren` when the
    /// entry still has children; a failure changes nothing. A deleted
    /// entry leaves its parent's children; its handle is retired.
    pub fn delete(&mut self, h: Handle) -> (r: Result<T, ResourceTableError>)
        requires
            old(self).wf(),
        ensures
            final(self).wf(),
            match r {
                Ok(v) => {
                    &&& old(self)@.contains_key(h)
                    &&& old(self)@[h].children == Set::<Handle>::empty()
                    &&& v == old(self)@[h].value
                    &&& final(self).retired() == old(self).retired().insert(h)
                    &&& final(self)@ == match old(self)@[h].parent {
                        None => old(self)@.remove(h),
                        Some(p) => old(self)@.remove(h).insert(
                            p,
                            EntryView {
                                children: old(self)@[p].children.remove(h),
                                ..old(self)@[p]
                            },
                        ),
                    }
                    &&& final(self).vacancies() == old(self).vacancies() + if h.generation
                        < u32::MAX {
                        1nat
                    } else {
                        0nat
                    }
                },
                Err(e) => {
                    &&& final(self)@ == old(self)@
                    &&& final(self).retired() == old(self).retired()
                    &&& final(self).vacancies() == old(self).vacancies()
                    &&& e == if !old(self)@.contains_key(h) {
                        ResourceTableError::NotPresent
                    } else {
                        ResourceTableError::HasChildren
                    }
                    &&& !old(self)@.contains_key(h) || old(self)@[h].children != Set::<
                        Handle,
                    >::empty()
                },
            },
    {
        match self.has_children(h) {
            Err(e) => return Err(e),
            Ok(true) => return Err(ResourceTableError::HasChildren),
            Ok(false) => {},
        }
        let ghost s0 = self.slots@;
        let ghost f0 = self.free@;
        let ghost e0 = entry_in(s0, h);
        assert(live_in(s0, h));
        assert(e0.children@.len() == 0) by {
            if e0.children@.len() > 0 {
                assert(e0.children@.contains(e0.children@[0]));
                assert(self@[h].children.contains(e0.children@[0]));
            }
        }
        let i = h.index as usize;
        let entry = match self.slots[i].entry.take() {
            Some(e) => e,
            None => return Err(ResourceTableError::NotPresent),
        };
        if h.generation < 0xffff_ffff {
            self.slots[i].generation = h.generation + 1;
            self.free.push(h.index);
        }
        let ghost s1 = self.slots@;
        let ghost f1 = self.free@;
        proof {
            assert(!f0.contains(h.index)) by {
                if f0.contains(h.index) {
                    let k = choose|k: int| 0 <= k < f0.len() && f0[k] == h.index;
                    assert(s0[f0[k] as int].entry is None);
                }
            }
            assert forall|j: u32| j != h.index implies f1.contains(j) == f0.contains(j) by {
                if f0.contains(j) {
                    let k = choose|k: int| 0 <= k < f0.len() && f0[k] == j;
                    assert(f1[k] == j);
                }
            }
            if h.generation < u32::MAX {
                assert(f1 == f0.push(h.index));
                assert(f1[f0.len() as int] == h.index);
                assert(f1.contains(h.index));
            }
            assert(store_ok(s1, f1, self.limit)) by {
                assert forall|k: int| 0 <= k < f1.len() implies (#[trigger] f1[k] as int)
                    < s1.len() && s1[f1[k] as int].entry is None by {
                    if k < f0.len() {
                        assert(f1[k] == f0[k]);
                    }
                }
                assert forall|n: int| 0 <= n < s1.len() && (#[trigger] s1[n]).entry
                    is None implies s1[n].generation == u32::MAX || f1.contains(n as u32) by {
                    if n != h.index {
                        assert(s0[n].entry is None);
                    }
                }
            }
            assert forall|x: Handle| #[trigger]
                retired_in(s1, f1, x) == (retired_in(s0, f0, x) || x == h) by {
                if x.index != h.index {
                    assert(f1.contains(x.index) == f0.contains(x.index));
                }
            }
            assert forall|x: Handle| #[trigger] live_in(s1, x) == (live_in(s0, x) && x != h) by {}
            assert forall|x: Handle| live_in(s1, x) implies #[trigger] entry_in(s1, x) == entry_in(
                s0,
                x,
            ) by {}
            // nobody but the parent refers to the deleted entry
            assert forall|x: Handle| live_in(s0, x) && x != h implies entry_in(s0, x).parent
                != Some(h) by {
                if entry_in(s0, x).parent == Some(h) {
                    assert(e0.children@.contains(x));
                }
            }
            assert forall|x: Handle|
                live_in(s0, x) && entry_in(s0, x).children@.contains(h) implies e0.parent
                == Some(x) by {
                let ex = entry_in(s0, x);
                let k = choose|k: int| 0 <= k < ex.children@.len() && ex.children@[k] == h;
                assert(live_in(s0, ex.children@[k]));
            }
        }
        let Entry { value, parent, children: _ } = entry;
        match parent {
            None => {
                proof {
                    assert(links_ok(s1)) by {
                        assert forall|x: Handle| #[trigger] live_in(s1, x) implies {
                            let e = entry_in(s1, x);
                            &&& e.children@.no_duplicates()
                            &&& (e.parent matches Some(p) ==> live_in(s1, p) && entry_in(
                                s1,
                                p,
                            ).children@.contains(x))
                            &&& forall|k: int|
                                0 <= k < e.children@.len() ==> live_in(
                                    s1,
                                    #[trigger] e.children@[k],
                                ) && entry_in(s1, e.children@[k]).parent == Some(x)
                        } by {
                            let e = entry_in(s0, x);
                            assert(live_in(s0, x));
                            if let Some(p) = e.parent {
                                assert(live_in(s0, p));
                                assert(p != h);
                            }
                            assert forall|k: int| 0 <= k < e.children@.len() implies live_in(
                                s1,
                                #[trigger] e.children@[k],
                            ) && entry_in(s1, e.children@[k]).parent == Some(x) by {
                                let c = e.children@[k];
                                assert(live_in(s0, c));
                                assert(e.children@.contains(c));
                                assert(c != h);
                            }
                        }
                    }
                    assert(self.retired() =~= old(self).retired().insert(h));
                    assert(self@ =~= old(self)@.remove(h));
                    assert(old(self)@[h].children =~= Set::<Handle>::empty());
                }
            },
            Some(p) => {
                assert(live_in(s0, p) && entry_in(s0, p).children@.contains(h));
                assert(p != h) by {
                    if p == h {
                        assert(e0.children@.contains(h));
                    }
                }
                let pi = p.index as usize;
                match &mut self.slots[pi].entry {
                    Some(e) => {
                        remove_handle(&mut e.children, h);
                    },
                    None => {},
                }
                proof {
                    let s2 = self.slots@;
                    let pe0 = entry_in(s0, p);
                    let pe2 = entry_in(s2, p);
                    assert(entry_in(s1, p) == pe0);
                    assert(pe2.value == pe0.value && pe2.parent == pe0.parent);
                    assert forall|x: Handle| #[trigger] live_in(s2, x) == live_in(s1, x) by {}
                    assert forall|x: Handle|
                        x.index != p.index && (x.index as int) < s1.len() implies #[trigger] entry_in(
                        s2,
                        x,
                    ) == entry_in(s1, x) by {}
                    assert(store_ok(s2, f1, self.limit)) by {
                        assert forall|k: int| 0 <= k < f1.len() implies (#[trigger] f1[k] as int)
                            < s2.len() && s2[f1[k] as int].entry is None by {
                            assert(s1[f1[k] as int].entry is None);
                        }
                        assert forall|n: int| 0 <= n < s2.len() && (#[trigger] s2[n]).entry
                            is None implies s2[n].generation == u32::MAX || f1.contains(
                            n as u32,
                        ) by {
                            assert(s1[n].entry is None);
                        }
                    }
                    assert forall|x: Handle| #[trigger]
                        retired_in(s2, f1, x) == retired_in(s1, f1, x) by {}
                    assert(links_ok(s2)) by {
                        assert forall|x: Handle| #[trigger] live_in(s2, x) implies {
                            let e = entry_in(s2, x);
                            &&& e.children@.no_duplicates()
                            &&& (e.parent matches Some(q) ==> live_in(s2, q) && entry_in(
                                s2,
                                q,
                            ).children@.contains(x))
                            &&& forall|k: int|
                                0 <= k < e.children@.len() ==> live_in(
                                    s2,
                                    #[trigger] e.children@[k],
                                ) && entry_in(s2, e.children@[k]).parent == Some(x)
                        } by {
                            assert(live_in(s0, x) && x != h);
                            let e = entry_in(s2, x);
                            let ex0 = entry_in(s0, x);
                            if x.index == p.index {
                                assert(x == p);
                            }
                            if let Some(q) = e.parent {
                                assert(ex0.parent == Some(q));
                                assert(live_in(s0, q));
                                assert(q != h);
                                assert(entry_in(s0, q).children@.contains(x));
                                if q.index == p.index {
                                    assert(q == p);
                                }
                            }
                            assert forall|k: int| 0 <= k < e.children@.len() implies live_in(
                                s2,
                                #[trigger] e.children@[k],
                            ) && entry_in(s2, e.children@[k]).parent == Some(x) by {
                                let c = e.children@[k];
                                assert(e.children@.contains(c));
                                assert(ex0.children@.contains(c));
                                let k0 = choose|k0: int|
                                    0 <= k0 < ex0.children@.len() && ex0.children@[k0] == c;
                                assert(live_in(s0, ex0.children@[k0]));
                                if c == h {
                                    assert(x == p);
                                }
                                if c.index == p.index {
                                    assert(c == p);
                                }
                            }
                        }
                    }
                    let pv = EntryView {
                        children: old(self)@[p].children.remove(h),
                        ..old(self)@[p]
                    };
                    assert(entry_view(pe2) == pv) by {
                        assert(entry_view(pe2).children =~= pv.children);
                    }
                    assert(self.retired() =~= old(self).retired().insert(h));
                    assert(self@ =~= old(self)@.remove(h).insert(p, pv)) by {
                        assert forall|x: Handle| x != p && live_in(s2, x) implies entry_in(s2, x)
                            == entry_in(s0, x) by {
                            if x.index == p.index {
                                assert(x == p);
                            }
                        }
                    }
                    assert(old(self)@[h].children =~= Set::<Handle>::empty());
                }
            },
        }
        Ok(value)
    }
}

/// Replacing the value of a live entry keeps the table's invariant, its
/// retired handles and every link.
proof fn lemma_value_update<T>(
    s0: Seq<Slot<T>>,
    f: Seq<u32>,
    limit: u32,
    h: Handle,
    e1: Entry<T>,
)
    requires
        store_ok(s0, f, limit),
        links_ok(s0),
        live_in(s0, h),
        e1.parent == entry_in(s0, h).parent,
        e1.children == entry_in(s0, h).children,
    ensures
        ({
            let s1 = s0.update(h.index as int, Slot { generation: h.generation, entry: Some(e1) });
            &&& store_ok(s1, f, limit)
            &&& links_ok(s1)
            &&& forall|x: Handle| #[trigger] live_in(s1, x) == live_in(s0, x)
            &&& forall|x: Handle| x != h && live_in(s0, x) ==> #[trigger] entry_in(s1, x) == entry_in(s0, x)
            &&& entry_in(s1, h) == e1
            &&& forall|x: Handle| #[trigger] retired_in(s1, f, x) == retired_in(s0, f, x)
        }),
{
    let s1 = s0.update(h.index as int, Slot { generation: h.generation, entry: Some(e1) });
    assert forall|k: int| 0 <= k < f.len() implies (#[trigger] f[k] as int) < s1.len()
        && s1[f[k] as int].entry is None by {
        assert(s0[f[k] as int].entry is None);
    }
    assert forall|n: int| 0 <= n < s1.len() && (#[trigger] s1[n]).entry is None implies s1[n].generation
        == u32::MAX || f.contains(n as u32) by {
        assert(s0[n].entry is None);
    }
    assert forall|x: Handle| #[trigger] live_in(s1, x) == live_in(s0, x) by {}
    assert forall|x: Handle| x != h && live_in(s0, x) implies #[trigger] entry_in(s1, x)
        == entry_in(s0, x) by {}
    assert forall|x: Handle| #[trigger] live_in(s1, x) implies {
        let e = entry_in(s1, x);
        &&& e.children@.no_duplicates()
        &&& (e.parent matches Some(p) ==> live_in(s1, p) && entry_in(s1, p).children@.contains(x))
        &&& forall|k: int|
            0 <= k < e.children@.len() ==> live_in(s1, #[trigger] e.children@[k]) && entry_in(
                s1,
                e.children@[k],
            ).parent == Some(x)
    } by {
        assert(live_in(s0, x));
        let e = entry_in(s1, x);
        let ex0 = entry_in(s0, x);
        assert(e.parent == ex0.parent && e.children == ex0.children);
        if let Some(p) = e.parent {
            assert(live_in(s0, p));
            assert(entry_in(s1, p).children == entry_in(s0, p).children);
        }
        assert forall|k: int| 0 <= k < e.children@.len() implies live_in(
            s1,
            #[trigger] e.children@[k],
        ) && entry_in(s1, e.children@[k]).parent == Some(x) by {
            let c = ex0.children@[k];
            assert(live_in(s0, c));
            assert(entry_in(s1, c).parent == entry_in(s0, c).parent);
        }
    }
}

/// Takes the one occurrence of `h` out of a list without repetitions.
fn remove_handle(v: &mut Vec<Handle>, h: Handle)
    requires
        old(v)@.no_duplicates(),
        old(v)@.contains(h),
    ensures
        final(v)@.no_duplicates(),
        forall|c: Handle| final(v)@.contains(c) <==> (old(v)@.contains(c) && c != h),
{
    let mut k: usize = 0;
    while k < v.len() && !(v[k].index == h.index && v[k].generation == h.generation)
        invariant
            v@ == old(v)@,
            k <= v.len(),
            forall|j: int| 0 <= j < k ==> v@[j] != h,
        decreases v.len() - k,
    {
        k += 1;
    }
    assert(k < v.len()) by {
        let j = choose|j: int| 0 <= j < v@.len() && v@[j] == h;
        assert(j >= k);
    }
    let ghost s0 = v@;
    v.remove(k);
    proof {
        let s1 = v@;
        assert(s1 == s0.remove(k as int));
        assert forall|c: Handle| s1.contains(c) <==> (s0.contains(c) && c != h) by {
            if s1.contains(c) {
                let j = choose|j: int| 0 <= j < s1.len() && s1[j] == c;
                if j < k {
                    assert(s0[j] == c);
                } else {
                    assert(s0[j + 1] == c);
                }
            }
            if s0.contains(c) && c != h {
                let j = choose|j: int| 0 <= j < s0.len() && s0[j] == c;
                if j < k {
                    assert(s1[j] == c);
                } else {
                    assert(s1[j - 1] == c);
                }
            }
        }
        assert forall|a: int, b: int| 0 <= a < s1.len() && 0 <= b < s1.len() && a != b implies s1[a]
            != s1[b] by {
            let a0 = if a < k { a } else { a + 1 };
            let b0 = if b < k { b } else { b + 1 };
            assert(s1[a] == s0[a0] && s1[b] == s0[b0]);
        }
    }
}

} // verus!
