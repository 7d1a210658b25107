//! Type-erased owned values: an address together with the operation that
//! destroys what lives there, and optionally the operation that duplicates it.

use crate::abi::Handle;
use crate::loader::FnPtr;
use vstd::prelude::*;
use vstd::std_specs::convert::FromSpecImpl;

verus! {

/// The destructor bound to an owned value at the time it was made.
#[derive(Clone, Copy, PartialEq, Eq, Structural, Debug)]
pub enum Destructor {
    /// Does nothing: the value is nil or lives for the whole process.
    Noop,
    /// Frees the value where the address points, in the store that made it.
    Release,
    /// A function of the other side, known only by its address.
    Foreign(FnPtr),
}

/// An owned value whose type has been erased.
///
/// The bound destructor runs once, when the value is destroyed; taking the
/// value out instead hands ownership over and the destructor does not run.
pub struct Managed {
    pub pointer: Handle,
    pub drop: Destructor,
}

impl Managed {
    /// The nil value: nil address, destructor that does nothing.
    pub open spec fn spec_null() -> Managed {
        Managed { pointer: 0, drop: Destructor::Noop }
    }

    pub fn null() -> (r: Self)
        ensures
            r == Self::spec_null(),
    {
        Managed { pointer: 0, drop: Destructor::Noop }
    }

    pub fn is_null(&self) -> (r: bool)
        ensures
            r == (self.pointer == 0),
    {
        self.pointer == 0
    }

    pub fn as_mut_ptr(&self) -> (r: Handle)
        ensures
            r == self.pointer,
    {
        self.pointer
    }

    pub fn as_ptr(&self) -> (r: Handle)
        ensures
            r == self.pointer,
    {
        self.pointer
    }
}

/// The duplication bound to a cloneable value at the time it was made.
#[derive(Clone, Copy, PartialEq, Eq, Structural, Debug)]
pub enum Duplicator {
    /// Duplicating nil gives nil.
    Null,
    /// Clones the value where the address points, in the store that made it.
    Cloning,
    /// A function of the other side, known only by its address.
    Foreign(FnPtr),
}

/// An owned value that can also be duplicated.
pub struct ManagedCloneable {
    pub value: Managed,
    pub clone: Duplicator,
}

impl ManagedCloneable {
    pub open spec fn spec_null() -> ManagedCloneable {
        ManagedCloneable { value: Managed::spec_null(), clone: Duplicator::Null }
    }

    pub fn null() -> (r: Self)
        ensures
            r == Self::spec_null(),
    {
        ManagedCloneable { value: Managed::null(), clone: Duplicator::Null }
    }

    /// Duplicates through `duplicate`, the operation of the other side that is
    /// bound to this value; a nil value duplicates to nil without a call.
    pub fn clone<F: Fn(Handle) -> ManagedCloneable>(&self, duplicate: &F) -> (r: ManagedCloneable)
        requires
            self.clone != Duplicator::Null ==> call_requires(duplicate, (self.value.pointer,)),
        ensures
            self.clone == Duplicator::Null ==> r == Self::spec_null(),
            self.clone != Duplicator::Null ==> call_ensures(duplicate, (self.value.pointer,), r),
    {
        match self.clone {
            Duplicator::Null => ManagedCloneable::null(),
            _ => duplicate(self.value.pointer),
        }
    }
}

impl FromSpecImpl<ManagedCloneable> for Managed {
    open spec fn obeys_from_spec() -> bool {
        true
    }

    open spec fn from_spec(ma: ManagedCloneable) -> Self {
        ma.value
    }
}

impl From<ManagedCloneable> for Managed {
    /// Forgets how to duplicate; the value and its destructor stay.
    fn from(ma: ManagedCloneable) -> (r: Self)
        ensures
            r == ma.value,
    {
        ma.value
    }
}

impl core::ops::Deref for ManagedCloneable {
    type Target = Managed;

    fn deref(&self) -> (r: &Managed)
        ensures
            *r == self.value,
    {
        &self.value
    }
}

/// What a store holds, as a value: the values that are alive, by address, and
/// for every address handed out so far how often its destructor has run.
pub struct Contents<T> {
    pub live: Map<Handle, T>,
    pub drops: Map<Handle, nat>,
    pub allocated: nat,
}

impl<T> Contents<T> {
    pub open spec fn empty() -> Self {
        Contents { live: Map::empty(), drops: Map::empty(), allocated: 0 }
    }

    /// Addresses `1..=allocated` have been handed out; a destructor has run at
    /// most once at each of them, and never at one whose value is alive.
    pub open spec fn wf(self) -> bool {
        &&& forall|p: Handle| self.live.contains_key(p) ==> 1 <= p <= self.allocated
        &&& forall|p: Handle| self.drops.contains_key(p) <==> 1 <= p <= self.allocated
        &&& forall|p: Handle| #[trigger] self.drops.contains_key(p) ==> self.drops[p] <= 1
        &&& forall|p: Handle| #[trigger]
            self.live.contains_key(p) ==> self.drops[p] == 0
    }

    /// The address that the next wrapped value gets.
    pub open spec fn next(self) -> Handle {
        (self.allocated + 1) as Handle
    }

    /// The store after `value` was wrapped at the next address.
    pub open spec fn wrap(self, value: T) -> Self {
        Contents {
            live: self.live.insert(self.next(), value),
            drops: self.drops.insert(self.next(), 0),
            allocated: self.allocated + 1,
        }
    }

    /// The store after the value at `p` was taken out. No destructor runs.
    pub open spec fn unwrap(self, p: Handle) -> Self {
        Contents { live: self.live.remove(p), ..self }
    }

    /// The store after the value at `p` was destroyed by its destructor.
    pub open spec fn destroy(self, p: Handle) -> Self {
        Contents {
            live: self.live.remove(p),
            drops: self.drops.insert(p, self.drops[p] + 1),
            ..self
        }
    }
}

/// The place where wrapped values of type `T` live while only their address
/// is passed around.
pub struct Store<T> {
    slots: Vec<Option<T>>,
    drops: Vec<u8>,
}

impl<T> View for Store<T> {
    type V = Contents<T>;

    closed spec fn view(&self) -> Contents<T> {
        Contents {
            live: Map::new(
                |p: Handle| 1 <= p <= self.slots@.len() && self.slots@[p - 1] is Some,
                |p: Handle| self.slots@[p - 1]->0,
            ),
            drops: Map::new(
                |p: Handle| 1 <= p <= self.slots@.len(),
                |p: Handle| self.drops@[p - 1] as nat,
            ),
            allocated: self.slots@.len(),
        }
    }
}

impl<T> Store<T> {
    /// The representation is consistent and its contents are well-formed.
    pub closed spec fn wf(&self) -> bool {
        &&& self.slots@.len() == self.drops@.len()
        &&& self@.wf()
    }

    pub proof fn lemma_wf(&self)
        requires
            self.wf(),
        ensures
            self@.wf(),
    {
    }

    pub fn new() -> (r: Self)
        ensures
            r.wf(),
            r@ == Contents::<T>::empty(),
    {
        let r = Store { slots: Vec::new(), drops: Vec::new() };
        assert(r@.live =~= Map::<Handle, T>::empty());
        assert(r@.drops =~= Map::<Handle, nat>::empty());
        r
    }

    /// Whether a value is alive at `p`.
    pub fn is_live(&self, p: Handle) -> (r: bool)
        requires
            self.wf(),
        ensures
            r == self@.live.contains_key(p),
    {
        p >= 1 && p <= self.slots.len() && self.slots[p - 1].is_some()
    }

    /// Whether another value can be wrapped: addresses are not exhausted.
    pub fn has_room(&self) -> (r: bool)
        ensures
            r == (self@.allocated < usize::MAX),
    {
        self.slots.len() < usize::MAX
    }

    /// How often the destructor has run at `p`.
    pub fn drop_count(&self, p: Handle) -> (r: u8)
        requires
            self.wf(),
            1 <= p <= self@.allocated,
        ensures
            r == self@.drops[p],
    {
        self.drops[p - 1]
    }

    /// Reads the value alive at `p`.
    pub fn get(&self, p: Handle) -> (r: &T)
        requires
            self.wf(),
            self@.live.contains_key(p),
        ensures
            *r == self@.live[p],
    {
        match &self.slots[p - 1] {
            Some(v) => v,
            None => vstd::pervasive::unreached(),
        }
    }

    fn insert(&mut self, value: T) -> (p: Handle)
        requires
            old(self).wf(),
            old(self)@.allocated < usize::MAX,
        ensures
            final(self).wf(),
            p == old(self)@.next(),
            final(self)@ == old(self)@.wrap(value),
    {
        self.slots.push(Some(value));
        self.drops.push(0);
        let p = self.slots.len();
        proof {
            let want = old(self)@.wrap(value);
            assert forall|q: Handle| #[trigger]
                self@.live.contains_key(q) == want.live.contains_key(q) by {
                if 1 <= q <= old(self).slots@.len() {
                    assert(self.slots@[q - 1] == old(self).slots@[q - 1]);
                }
            }
            assert forall|q: Handle| #[trigger] self@.live.contains_key(q) implies self@.live[q]
                == want.live[q] by {
                if 1 <= q <= old(self).slots@.len() {
                    assert(self.slots@[q - 1] == old(self).slots@[q - 1]);
                }
            }
            assert(self@.live =~= want.live);
            assert forall|q: Handle| #[trigger] self@.drops.contains_key(q) implies self@.drops[q]
                == want.drops[q] by {
                if 1 <= q <= old(self).slots@.len() {
                    assert(self.drops@[q - 1] == old(self).drops@[q - 1]);
                }
            }
            assert(self@.drops =~= want.drops);
        }
        p
    }

    fn take(&mut self, p: Handle, destroyed: bool) -> (r: T)
        requires
            old(self).wf(),
            old(self)@.live.contains_key(p),
        ensures
            final(self).wf(),
            r == old(self)@.live[p],
            final(self)@ == (if destroyed {
                old(self)@.destroy(p)
            } else {
                old(self)@.unwrap(p)
            }),
    {
        let mut slot: Option<T> = None;
        core::mem::swap(&mut self.slots[p - 1], &mut slot);
        if destroyed {
            self.drops[p - 1] = 1;
        }
        proof {
            let want = if destroyed {
                old(self)@.destroy(p)
            } else {
                old(self)@.unwrap(p)
            };
            assert forall|q: Handle| #[trigger]
                self@.live.contains_key(q) == want.live.contains_key(q) by {
                if 1 <= q <= old(self).slots@.len() && q != p {
                    assert(self.slots@[q - 1] == old(self).slots@[q - 1]);
                }
            }
            assert forall|q: Handle| #[trigger] self@.live.contains_key(q) implies self@.live[q]
                == want.live[q] by {
                assert(self.slots@[q - 1] == old(self).slots@[q - 1]);
            }
            assert(self@.live =~= want.live);
            assert(old(self)@.drops[p] == 0);
            assert forall|q: Handle| #[trigger] self@.drops.contains_key(q) implies self@.drops[q]
                == want.drops[q] by {
                if q != p {
                    assert(self.drops@[q - 1] == old(self).drops@[q - 1]);
                }
            }
            assert(self@.drops =~= want.drops);
        }
        match slot {
            Some(v) => v,
            None => vstd::pervasive::unreached(),
        }
    }
}

impl Managed {
    /// Whether this value was made by wrapping into `store` and is still
    /// alive there.
    pub open spec fn owned_in<T>(self, store: Contents<T>) -> bool {
        self.drop == Destructor::Release && store.live.contains_key(self.pointer)
    }

    /// Wraps `value`: it moves into the store, and its address comes back
    /// bound to the destructor that frees it there.
    pub fn from_value<T>(value: T, store: &mut Store<T>) -> (r: Self)
        requires
            old(store).wf(),
            old(store)@.allocated < usize::MAX,
        ensures
            final(store).wf(),
            final(store)@ == old(store)@.wrap(value),
            r == (Managed { pointer: old(store)@.next(), drop: Destructor::Release }),
    {
        Self::from_box(Box::new(value), store)
    }

    /// Wraps a boxed value.
    pub fn from_box<T>(b: Box<T>, store: &mut Store<T>) -> (r: Self)
        requires
            old(store).wf(),
            old(store)@.allocated < usize::MAX,
        ensures
            final(store).wf(),
            final(store)@ == old(store)@.wrap(*b),
            r == (Managed { pointer: old(store)@.next(), drop: Destructor::Release }),
    {
        let pointer = store.insert(*b);
        Managed { pointer, drop: Destructor::Release }
    }

    /// Wraps the address of a value that lives as long as the process: the
    /// bound destructor does nothing.
    pub fn from_static(static_ref: Handle) -> (r: Self)
        ensures
            r == (Managed { pointer: static_ref, drop: Destructor::Noop }),
    {
        Managed { pointer: static_ref, drop: Destructor::Noop }
    }

    /// Takes the value out. Ownership passes to the caller and the bound
    /// destructor does not run. The value is one that was wrapped into
    /// `store`, so that it has the type `T`, and it is still alive.
    pub fn into_value<T>(self, store: &mut Store<T>) -> (r: T)
        requires
            old(store).wf(),
            self.owned_in(old(store)@),
        ensures
            final(store).wf(),
            r == old(store)@.live[self.pointer],
            final(store)@ == old(store)@.unwrap(self.pointer),
    {
        store.take(self.pointer, false)
    }

    /// Ends the life of this value: its bound destructor runs, once. A
    /// destructor of the other side is not run from here.
    pub fn destroy<T>(self, store: &mut Store<T>)
        requires
            old(store).wf(),
            self.drop == Destructor::Noop || self.owned_in(old(store)@),
        ensures
            final(store).wf(),
            self.drop == Destructor::Noop ==> final(store)@ == old(store)@,
            self.drop == Destructor::Release ==> final(store)@ == old(store)@.destroy(self.pointer),
    {
        match self.drop {
            Destructor::Release => {
                let _ = store.take(self.pointer, true);
            },
            _ => {},
        }
    }
}

impl ManagedCloneable {
    /// Wraps `value` and binds the duplication that clones it.
    pub fn from_value<T: Clone>(value: T, store: &mut Store<T>) -> (r: Self)
        requires
            old(store).wf(),
            old(store)@.allocated < usize::MAX,
        ensures
            final(store).wf(),
            final(store)@ == old(store)@.wrap(value),
            r == (ManagedCloneable {
                value: Managed { pointer: old(store)@.next(), drop: Destructor::Release },
                clone: Duplicator::Cloning,
            }),
    {
        let value = Managed::from_value(value, store);
        ManagedCloneable { value, clone: Duplicator::Cloning }
    }

    /// Takes the value out, as `Managed::into_value` does.
    pub fn into_value<T>(self, store: &mut Store<T>) -> (r: T)
        requires
            old(store).wf(),
            self.value.owned_in(old(store)@),
        ensures
            final(store).wf(),
            r == old(store)@.live[self.value.pointer],
            final(store)@ == old(store)@.unwrap(self.value.pointer),
    {
        self.value.into_value(store)
    }

    /// Duplicates a value of this side: the clone of what lives at the
    /// address is wrapped at a new address. The nil value duplicates to nil.
    pub fn duplicate<T: Clone>(&self, store: &mut Store<T>) -> (r: ManagedCloneable)
        requires
            old(store).wf(),
            old(store)@.allocated < usize::MAX,
            self.clone != Duplicator::Null ==> self.clone == Duplicator::Cloning
                && self.value.owned_in(old(store)@),
        ensures
            final(store).wf(),
            self.clone == Duplicator::Null ==> r == Self::spec_null() && final(store)@ == old(
                store,
            )@,
            self.clone != Duplicator::Null ==> {
                &&& r.clone == Duplicator::Cloning
                &&& r.value == (Managed { pointer: old(store)@.next(), drop: Destructor::Release })
                &&& final(store)@.live.contains_key(r.value.pointer)
                &&& cloned(old(store)@.live[self.value.pointer], final(store)@.live[r.value.pointer])
                &&& final(store)@ == old(store)@.wrap(final(store)@.live[r.value.pointer])
            },
    {
        match self.clone {
            Duplicator::Null => ManagedCloneable::null(),
            _ => {
                let copy = store.get(self.value.pointer).clone();
                ManagedCloneable::from_value(copy, store)
            },
        }
    }
}

/// A wrapped value comes out as it went in, at an address that is not nil and
/// was not in use; while it is alive its destructor has not run; taken out,
/// its destructor never runs; destroyed, its destructor has run exactly once
/// and the address is dead for good, so that nothing can run it again.
pub proof fn lemma_wrap_unwrap<T>(s: Contents<T>, v: T)
    requires
        s.wf(),
        s.allocated < usize::MAX,
    ensures
        s.next() != 0,
        !s.live.contains_key(s.next()),
        s.wrap(v).wf(),
        s.wrap(v).live[s.next()] == v,
        s.wrap(v).drops[s.next()] == 0,
        s.wrap(v).unwrap(s.next()).wf(),
        s.wrap(v).unwrap(s.next()).live == s.live,
        s.wrap(v).unwrap(s.next()).drops[s.next()] == 0,
        s.wrap(v).destroy(s.next()).wf(),
        s.wrap(v).destroy(s.next()).drops[s.next()] == 1,
        !s.wrap(v).destroy(s.next()).live.contains_key(s.next()),
{
    let p = s.next();
    assert(!s.live.contains_key(p));
    assert(s.wrap(v).unwrap(p).live =~= s.live);
}

/// Taking a value out or destroying it keeps a store well-formed: whatever is
/// done, no destructor runs a second time.
pub proof fn lemma_at_most_once<T>(s: Contents<T>, p: Handle)
    requires
        s.wf(),
        s.live.contains_key(p),
    ensures
        s.unwrap(p).wf(),
        s.destroy(p).wf(),
        s.destroy(p).drops[p] == 1,
        forall|q: Handle| q != p && s.drops.contains_key(q) ==> s.destroy(p).drops[q] == s.drops[q],
{
}

/// A duplicate lives at its own address: destroying the duplicate leaves the
/// first value alive and unchanged, and destroying the first leaves the
/// duplicate alive and unchanged.
pub proof fn lemma_duplicate_independent<T>(s: Contents<T>, p: Handle, copy: T)
    requires
        s.wf(),
        s.allocated < usize::MAX,
        s.live.contains_key(p),
    ensures
        s.next() != p,
        s.wrap(copy).live[p] == s.live[p],
        s.wrap(copy).live[s.next()] == copy,
        s.wrap(copy).destroy(s.next()).live.contains_key(p),
        s.wrap(copy).destroy(s.next()).live[p] == s.live[p],
        s.wrap(copy).destroy(p).live.contains_key(s.next()),
        s.wrap(copy).destroy(p).live[s.next()] == copy,
{
}

} // verus!
