//! Typed handles and the source that mints them.

use vstd::prelude::*;

use core::marker::PhantomData;

verus! {

/// Implemented by values that know the handle standing for them.
pub trait HasId<T> {
    fn id(&self) -> Id<T>;
}

/// A generator for ids.
///
/// Handles minted by one source are pairwise distinct: the counter only
/// ever moves forward and values are never reused.
pub struct IdSource<T> {
    counter: u64,
    marker: PhantomData<T>,
}

impl<T> IdSource<T> {
    /// How many handles this source has minted so far.
    pub closed spec fn count(&self) -> u64 {
        self.counter
    }

    /// The handle values this source has handed out, in order.
    pub closed spec fn generated(&self) -> Seq<u64> {
        Seq::new(self.counter as nat, |i: int| i as u64)
    }

    /// Mints a fresh handle, distinct from every handle minted before.
    pub fn generate(&mut self) -> (id: Id<T>)
        requires
            old(self).count() < u64::MAX,
        ensures
            id@ == old(self).count(),
            final(self).count() == old(self).count() + 1,
            final(self).generated() == old(self).generated().push(id@),
    {
        let inner = self.counter;
        self.counter = self.counter + 1;
        proof {
            assert(self.generated() =~= old(self).generated().push(inner));
        }
        Id::from_raw(inner)
    }
}

impl<T> Default for IdSource<T> {
    fn default() -> (r: Self)
        ensures
            r.count() == 0,
            r.generated() == Seq::<u64>::empty(),
    {
        proof {
            assert(Seq::new(0nat, |i: int| i as u64) =~= Seq::<u64>::empty());
        }
        IdSource { counter: 0, marker: PhantomData }
    }
}

/// Handles minted by one source are pairwise distinct, however many have
/// been generated.
pub proof fn lemma_generated_handles_distinct<T>(source: IdSource<T>, i: int, j: int)
    requires
        0 <= i < source.generated().len(),
        0 <= j < source.generated().len(),
        i != j,
    ensures
        source.generated()[i] != source.generated()[j],
{
}

/// A generic id used to track various resources.
///
/// The type parameter is a tag only: it keeps handles of different resource
/// kinds apart at compile time and carries no data.  Identity is the inner
/// integer, exposed as the view.
#[derive(Debug)]
pub struct Id<T> {
    inner: u64,
    marker: PhantomData<T>,
}

impl<T> View for Id<T> {
    type V = u64;

    closed spec fn view(&self) -> u64 {
        self.inner
    }
}

impl<T> Id<T> {
    /// Creates a new [`Id`] from a [`u64`].
    ///
    /// Handles made this way bypass the uniqueness an [`IdSource`] provides;
    /// this is for handles that must be communicated before their object
    /// exists.
    pub fn from_raw(inner: u64) -> (r: Self)
        ensures
            r@ == inner,
    {
        Id { inner, marker: PhantomData }
    }

    /// The raw numeric identity of this handle.
    pub fn value(&self) -> (r: u64)
        ensures
            r == self@,
    {
        self.inner
    }

    /// Casts self into an id of any other kind, keeping the numeric identity.
    ///
    /// This deliberately breaks the type-level separation of resource kinds;
    /// it is only sound where two kinds share an underlying table by
    /// construction.
    pub fn cast<U>(self) -> (r: Id<U>)
        ensures
            r@ == self@,
    {
        Id { inner: self.inner, marker: PhantomData }
    }
}

impl<T> Clone for Id<T> {
    fn clone(&self) -> (r: Self)
        ensures
            r@ == self@,
    {
        Id { inner: self.inner, marker: PhantomData }
    }
}

impl<T> Copy for Id<T> {}

impl<T> PartialEq for Id<T> {
    fn eq(&self, other: &Self) -> (r: bool) {
        self.inner == other.inner
    }
}

impl<T> vstd::std_specs::cmp::PartialEqSpecImpl for Id<T> {
    open spec fn obeys_eq_spec() -> bool {
        true
    }

    open spec fn eq_spec(&self, other: &Id<T>) -> bool {
        self@ == other@
    }
}

impl<T> Eq for Id<T> {}

impl<T> HasId<T> for Id<T> {
    fn id(&self) -> (r: Id<T>)
        ensures
            r@ == self@,
    {
        *self
    }
}

} // verus!
