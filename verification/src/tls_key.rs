//! The registry of thread-local storage keys: a fixed table of slots, each free or used,
//! with the destructor of its values.
use vstd::prelude::*;

verus! {

/// Number of keys.
pub const MAX_KEYS: usize = 128;

/// A key: the index of a slot.
pub type Key = usize;

/// The slots of the registry; a used slot keeps the address of its destructor (0 for none).
#[derive(Debug)]
pub struct KeyRegistry {
    used: Vec<bool>,
    dtors: Vec<usize>,
}

impl KeyRegistry {
    pub closed spec fn wf(&self) -> bool {
        self.used@.len() == MAX_KEYS && self.dtors@.len() == MAX_KEYS
    }

    /// A well-formed registry has a used flag and a destructor for each of its slots.
    pub proof fn lemma_wf_len(&self)
        requires
            self.wf(),
        ensures
            self.used_view().len() == MAX_KEYS,
            self.dtor_view().len() == MAX_KEYS,
    {
    }

    /// Which slots are used.
    pub closed spec fn used_view(&self) -> Seq<bool> {
        self.used@
    }

    /// The destructor address kept in each slot.
    pub closed spec fn dtor_view(&self) -> Seq<usize> {
        self.dtors@
    }

    /// A registry with every slot free.
    pub fn new() -> (r: KeyRegistry)
        ensures
            r.wf(),
            r.used_view().len() == MAX_KEYS,
            r.dtor_view().len() == MAX_KEYS,
            r.used_view() == Seq::new(MAX_KEYS as nat, |i: int| false),
            r.dtor_view() == Seq::new(MAX_KEYS as nat, |i: int| 0usize),
    {
        let mut used: Vec<bool> = Vec::new();
        let mut dtors: Vec<usize> = Vec::new();
        let mut i: usize = 0;
        while i < MAX_KEYS
            invariant
                i <= MAX_KEYS,
                used@ == Seq::new(i as nat, |k: int| false),
                dtors@ == Seq::new(i as nat, |k: int| 0usize),
            decreases MAX_KEYS - i,
        {
            used.push(false);
            dtors.push(0);
            i = i + 1;
            assert(used@ =~= Seq::new(i as nat, |k: int| false));
            assert(dtors@ =~= Seq::new(i as nat, |k: int| 0usize));
        }
        KeyRegistry { used, dtors }
    }

    /// Whether a slot is free for a new key.
    pub fn has_free_slot(&self) -> (b: bool)
        requires
            self.wf(),
        ensures
            b == exists|i: int| 0 <= i < MAX_KEYS && !self.used_view()[i],
    {
        let mut i: usize = 0;
        while i < MAX_KEYS
            invariant
                i <= MAX_KEYS,
                self.wf(),
                forall|k: int| 0 <= k < i ==> self.used_view()[k],
            decreases MAX_KEYS - i,
        {
            if !self.used[i] {
                assert(!self.used_view()[i as int]);
                return true;
            }
            i = i + 1;
        }
        false
    }

    /// Takes the first free slot for a new key, keeping its destructor's address. Running out
    /// of keys aborts the process, so a free slot must remain.
    pub fn create(&mut self, dtor: usize) -> (key: Key)
        requires
            old(self).wf(),
            exists|i: int| 0 <= i < MAX_KEYS && !old(self).used_view()[i],
        ensures
            final(self).wf(),
            final(self).used_view().len() == MAX_KEYS,
            final(self).dtor_view().len() == MAX_KEYS,
            key < MAX_KEYS,
            !old(self).used_view()[key as int],
            forall|i: int| 0 <= i < key ==> old(self).used_view()[i],
            final(self).used_view() == old(self).used_view().update(key as int, true),
            final(self).dtor_view() == old(self).dtor_view().update(key as int, dtor),
    {
        let mut i: usize = 0;
        while i < MAX_KEYS
            invariant
                i <= MAX_KEYS,
                self.wf(),
                self == old(self),
                forall|k: int| 0 <= k < i ==> self.used_view()[k],
            decreases MAX_KEYS - i,
        {
            if !self.used[i] {
                self.used.set(i, true);
                self.dtors.set(i, dtor);
                return i;
            }
            i = i + 1;
        }
        proof {
            let w = choose|w: int| 0 <= w < MAX_KEYS && !old(self).used_view()[w];
            assert(old(self).used_view()[w]);
        }
        0
    }

    /// Frees the slot of a key; its destructor's address stays.
    pub fn destroy(&mut self, key: Key)
        requires
            old(self).wf(),
            key < MAX_KEYS,
        ensures
            final(self).wf(),
            final(self).used_view().len() == MAX_KEYS,
            final(self).dtor_view().len() == MAX_KEYS,
            final(self).used_view() == old(self).used_view().update(key as int, false),
            final(self).dtor_view() == old(self).dtor_view(),
    {
        self.used.set(key, false);
    }
}

/// Creating a key and destroying it again leaves the slots as they were used before.
pub proof fn lemma_create_destroy(used: Seq<bool>, key: int)
    requires
        0 <= key < used.len(),
        !used[key],
    ensures
        used.update(key, true).update(key, false) == used,
{
    assert(used.update(key, true).update(key, false) =~= used);
}

} // verus!
