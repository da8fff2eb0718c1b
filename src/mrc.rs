//! The change-tracking container.
use std::cell::{Ref, RefCell, RefMut};
use std::rc::Rc;
use vstd::prelude::*;

use crate::nonce::{next_nonce, NonceSource};

verus! {

/// A borrow refused because an incompatible borrow of the same storage is still held:
/// a shared borrow while an exclusive one is held, or an exclusive borrow while any is.
#[derive(Debug, Clone, Copy, PartialEq, Eq, Structural)]
pub struct BorrowConflict;

/// Relies on `Rc::ptr_eq`: whether the two handles point to the same allocation;
/// a storage is identified with its allocation.
#[verifier::external_body]
fn same_allocation<T>(a: &Rc<RefCell<T>>, b: &Rc<RefCell<T>>) -> (r: bool)
    ensures
        r == (*a == *b),
{
    Rc::ptr_eq(a, b)
}

/// A reference-counted, interior-mutable value with change detection.
///
/// Clones share the value. Each handle carries its own version marker: a clone
/// copies it, and every mutable access replaces it with a fresh marker. Two
/// handles are equal when they share storage and carry the same marker, so a
/// handle that was borrowed mutably since it was cloned no longer equals the clone.
#[derive(Debug)]
#[verifier::reject_recursive_types(T)]
pub struct Mrc<T> {
    inner: Rc<RefCell<T>>,
    nonce: u32,
}

impl<T> Mrc<T> {
    /// The handle's version marker.
    pub closed spec fn version(&self) -> u32 {
        self.nonce
    }

    /// The storage that the handle shares with its clones.
    pub closed spec fn storage(&self) -> RefCell<T> {
        *self.inner
    }

    /// The two handles share storage and carry the same version marker: what
    /// [`Mrc::equals`] and `==` decide.
    pub open spec fn same_snapshot(&self, other: &Mrc<T>) -> bool {
        self.version() == other.version() && self.storage() == other.storage()
    }

    /// Wraps `value` in fresh storage, stamped with the next marker of `nonces`.
    pub fn new(value: T, nonces: &mut NonceSource) -> (r: Mrc<T>)
        ensures
            final(nonces).last_spec() == next_nonce(old(nonces).last_spec()),
            r.version() == final(nonces).last_spec(),
    {
        let nonce = nonces.nonce();
        Mrc { inner: Rc::new(RefCell::new(value)), nonce }
    }

    /// The handle's version marker.
    pub fn version_marker(&self) -> (r: u32)
        ensures
            r == self.version(),
    {
        self.nonce
    }

    /// A shared borrow of the value; it fails while an exclusive borrow of the
    /// storage is held. The version marker is left as it is.
    pub fn borrow(&self) -> (r: Result<Ref<'_, T>, BorrowConflict>) {
        match self.inner.try_borrow() {
            Ok(guard) => Ok(guard),
            Err(_) => Err(BorrowConflict),
        }
    }

    /// An exclusive borrow of the value; it fails while any other borrow of the
    /// storage is held. On success the handle counts as changed: it is stamped with
    /// the next marker of `nonces`, whether or not the value is then written.
    /// On failure neither the handle nor `nonces` changes.
    pub fn borrow_mut(&mut self, nonces: &mut NonceSource) -> (r: Result<RefMut<'_, T>, BorrowConflict>)
        ensures
            final(self).storage() == old(self).storage(),
            r is Ok ==> final(nonces).last_spec() == next_nonce(old(nonces).last_spec())
                && final(self).version() == final(nonces).last_spec(),
            r is Err ==> final(nonces).last_spec() == old(nonces).last_spec()
                && final(self).version() == old(self).version(),
    {
        match self.inner.try_borrow_mut() {
            Ok(guard) => {
                self.nonce = nonces.nonce();
                Ok(guard)
            },
            Err(_) => Err(BorrowConflict),
        }
    }

    /// Runs `f` on an exclusive borrow of the value and returns what `f` returned;
    /// the borrow is released before this returns. The handle is stamped as by
    /// [`Mrc::borrow_mut`]. Fails, without calling `f`, while any other borrow of
    /// the storage is held.
    pub fn with_mut<R, F: FnOnce(&mut T) -> R>(&mut self, nonces: &mut NonceSource, f: F) -> (r: Result<R, BorrowConflict>)
        requires
            forall|x: &mut T| f.requires((x,)),
        ensures
            final(self).storage() == old(self).storage(),
            r is Ok ==> final(nonces).last_spec() == next_nonce(old(nonces).last_spec())
                && final(self).version() == final(nonces).last_spec(),
            r is Err ==> final(nonces).last_spec() == old(nonces).last_spec()
                && final(self).version() == old(self).version(),
            r is Ok ==> exists|x: &mut T| f.ensures((x,), r->Ok_0),
    {
        match self.borrow_mut(nonces) {
            Ok(mut guard) => {
                let v = f(&mut *guard);
                let r: Result<R, BorrowConflict> = Ok(v);
                assert(r->Ok_0 == v);
                r
            },
            Err(e) => Err(e),
        }
    }

    /// Whether the two handles share storage and carry the same version marker.
    /// Handles with different markers are never equal, so a handle that was
    /// borrowed mutably never equals a snapshot taken before.
    pub fn equals(&self, other: &Mrc<T>) -> (r: bool)
        ensures
            r == self.same_snapshot(other),
    {
        same_allocation(&self.inner, &other.inner) && self.nonce == other.nonce
    }
}

impl<T> Clone for Mrc<T> {
    /// Another handle to the same storage, with the same version marker.
    fn clone(&self) -> (r: Self)
        ensures
            r.storage() == self.storage(),
            r.version() == self.version(),
    {
        Mrc { inner: Rc::clone(&self.inner), nonce: self.nonce }
    }
}

impl<T> PartialEq for Mrc<T> {
    /// Same as [`Mrc::equals`].
    fn eq(&self, other: &Self) -> (r: bool)
        ensures
            r == self.same_snapshot(other),
    {
        self.equals(other)
    }
}

/// `==` is [`Mrc::equals`]: same storage and same version marker.
impl<T> vstd::std_specs::cmp::PartialEqSpecImpl for Mrc<T> {
    open spec fn obeys_eq_spec() -> bool {
        true
    }

    open spec fn eq_spec(&self, other: &Self) -> bool {
        self.same_snapshot(other)
    }
}

impl<T: Default> Default for Mrc<T> {
    /// A container of `T::default()` with marker 0, which a [`NonceSource`] hands
    /// out only after wrapping.
    fn default() -> (r: Self)
        ensures
            r.version() == 0,
    {
        Mrc { inner: Rc::new(RefCell::new(T::default())), nonce: 0 }
    }
}

/// A handle equals its clone as long as neither has been borrowed mutably since.
pub proof fn lemma_clone_is_same_snapshot<T>(c: Mrc<T>, clone: Mrc<T>)
    requires
        clone.storage() == c.storage(),
        clone.version() == c.version(),
    ensures
        c.same_snapshot(&clone),
        clone.same_snapshot(&c),
{
}

/// Equality of handles is an equivalence: reflexive, symmetric and transitive.
pub proof fn lemma_same_snapshot_is_equivalence<T>(a: Mrc<T>, b: Mrc<T>, c: Mrc<T>)
    ensures
        a.same_snapshot(&a),
        a.same_snapshot(&b) == b.same_snapshot(&a),
        a.same_snapshot(&b) && b.same_snapshot(&c) ==> a.same_snapshot(&c),
{
}

/// A handle stamped with a fresh marker (by `new`, `borrow_mut` or `with_mut`)
/// carries a marker strictly newer than any the source had handed out before, as
/// long as the source does not wrap.
pub proof fn lemma_fresh_stamp_is_newer<T>(
    version: u32,
    before: NonceSource,
    after: NonceSource,
    stamped: Mrc<T>,
)
    requires
        version <= before.last_spec(),
        before.last_spec() < u32::MAX,
        after.last_spec() == next_nonce(before.last_spec()),
        stamped.version() == after.last_spec(),
    ensures
        stamped.version() > version,
{
}

/// A handle stamped with a fresh marker equals no handle whose marker the source
/// had handed out before, in either order, as long as the source has not wrapped
/// since. So a mutable access through either of two clones makes them unequal, and
/// two containers made one after the other from one source are unequal.
pub proof fn lemma_fresh_stamp_separates<T>(
    older: Mrc<T>,
    before: NonceSource,
    after: NonceSource,
    stamped: Mrc<T>,
)
    requires
        older.version() <= before.last_spec(),
        before.last_spec() < u32::MAX,
        after.last_spec() == next_nonce(before.last_spec()),
        stamped.version() == after.last_spec(),
    ensures
        !stamped.same_snapshot(&older),
        !older.same_snapshot(&stamped),
{
    lemma_fresh_stamp_is_newer(older.version(), before, after, stamped);
}

/// The markers of one handle over repeated writes do not decrease, as long as the
/// source does not wrap. `versions[0]` is the handle's marker before the writes;
/// write `i` finds the source at `lasts[i]` and leaves the handle at
/// `versions[i + 1] == next_nonce(lasts[i])`, and the source has reached at least
/// that marker when write `i + 1` begins; other markers may be drawn in between.
pub proof fn lemma_markers_non_decreasing(versions: Seq<u32>, lasts: Seq<u32>)
    requires
        versions.len() == lasts.len() + 1,
        lasts.len() > 0 ==> versions[0] <= lasts[0],
        forall|i: int| 0 <= i < lasts.len() ==> lasts[i] < u32::MAX,
        forall|i: int| 0 < i < versions.len() ==> #[trigger] versions[i] == next_nonce(lasts[i - 1]),
        forall|i: int| 0 < i < lasts.len() ==> next_nonce(lasts[i - 1]) <= #[trigger] lasts[i],
    ensures
        forall|i: int, j: int| 0 <= i <= j < versions.len() ==> versions[i] <= versions[j],
{
    assert forall|i: int, j: int| 0 <= i <= j < versions.len() implies versions[i] <= versions[j] by {
        lemma_markers_chain(versions, lasts, i, j);
    }
}

proof fn lemma_markers_chain(versions: Seq<u32>, lasts: Seq<u32>, i: int, j: int)
    requires
        versions.len() == lasts.len() + 1,
        lasts.len() > 0 ==> versions[0] <= lasts[0],
        forall|i: int| 0 <= i < lasts.len() ==> lasts[i] < u32::MAX,
        forall|i: int| 0 < i < versions.len() ==> #[trigger] versions[i] == next_nonce(lasts[i - 1]),
        forall|i: int| 0 < i < lasts.len() ==> next_nonce(lasts[i - 1]) <= #[trigger] lasts[i],
        0 <= i <= j < versions.len(),
    ensures
        versions[i] <= versions[j],
    decreases j - i,
{
    if i < j {
        lemma_markers_chain(versions, lasts, i, j - 1);
        // versions[j - 1] <= lasts[j - 1] < next_nonce(lasts[j - 1]) == versions[j]
        if j - 1 > 0 {
            assert(versions[j - 1] == next_nonce(lasts[j - 2]));
            assert(next_nonce(lasts[j - 2]) <= lasts[j - 1]);
        }
        assert(versions[j] == next_nonce(lasts[j - 1]));
    }
}

} // verus!
