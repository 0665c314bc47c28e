//! The composite wrapper and its table references.
//!
//! `WithVtables<T>` places the fixed tuple of table references of a concrete
//! type `T` directly in front of the wrapped value, so each reference can be
//! handed out on its own while the owner stays recoverable.  `VtableRef`
//! wraps a single table; its raw form is the opaque handle given to foreign
//! callers.  Because verified code has no pointer arithmetic, a slot here
//! keeps its owner reachable through borrows instead of through the address
//! walk of `crate::layout`; the two describe the same protocol.

use vstd::prelude::*;

verus! {

/// A concrete type that carries a compile-time constant tuple of table
/// references, one per interface it declares, in declaration order.
pub trait HasVtables: Sized {
    /// The tuple of table references, one `VtableRef` per declared interface.
    type Tables;

    /// The compile-time constant value of the tuple: every composite of
    /// `Self` holds exactly this, so identical instances share identical
    /// table contents.
    spec fn spec_tables() -> Self::Tables;

    /// Materializes the constant tuple.
    fn tables() -> (t: Self::Tables)
        ensures
            t == Self::spec_tables(),
    ;
}

/// A composite object: the table tuple of `T`, then the wrapped value.
pub struct WithVtables<T: HasVtables> {
    /// The slots, in interface declaration order, ahead of the value.
    pub vtables: T::Tables,
    /// The wrapped concrete value.
    pub value: T,
}

impl<T: HasVtables> WithVtables<T> {
    /// A composite is well formed while its tuple still holds the constant
    /// tables of `T`; dispatch contracts are stated only of such composites.
    pub open spec fn wf(self) -> bool {
        self.vtables == T::spec_tables()
    }

    /// Wraps a value; the table tuple is the constant one of `T`, never
    /// computed per instance.
    pub fn new(value: T) -> (c: Self)
        ensures
            c.value == value,
            c.vtables == T::spec_tables(),
            c.wf(),
    {
        WithVtables { vtables: T::tables(), value }
    }

    /// Read-only access to the whole slot tuple, for direct foreign handoff.
    pub fn vtables(&self) -> (t: &T::Tables)
        ensures
            *t == self.vtables,
    {
        &self.vtables
    }

    /// Exclusive access to the slot tuple.  Writing a tuple other than the
    /// constant one of `T` leaves the composite no longer well formed, and
    /// no dispatch contract speaks of it afterwards.
    pub fn vtables_mut(&mut self) -> (t: &mut T::Tables)
        ensures
            *t == old(self).vtables,
            final(self).vtables == *final(t),
            final(self).value == old(self).value,
    {
        &mut self.vtables
    }

    /// Read-only access to the wrapped value.
    pub fn value(&self) -> (v: &T)
        ensures
            *v == self.value,
    {
        &self.value
    }

    /// Exclusive access to the wrapped value; the slot tuple is untouched.
    pub fn value_mut(&mut self) -> (v: &mut T)
        ensures
            *v == old(self).value,
            final(self).value == *final(v),
            final(self).vtables == old(self).vtables,
    {
        &mut self.value
    }
}

impl<T: HasVtables> From<T> for WithVtables<T> {
    fn from(value: T) -> Self {
        WithVtables::new(value)
    }
}

impl<T: HasVtables> vstd::std_specs::convert::FromSpecImpl<T> for WithVtables<T> {
    open spec fn obeys_from_spec() -> bool {
        true
    }

    open spec fn from_spec(value: T) -> WithVtables<T> {
        WithVtables { vtables: T::spec_tables(), value }
    }
}

/// A handle to one interface table.  Inside a composite it occupies one
/// slot; its address there is load-bearing, so callers only ever receive
/// borrowed access to it.
pub struct VtableRef<V>(pub V);

impl<V> VtableRef<V> {
    /// Wraps a table.  Meaningful only inside the slot tuple of a composite.
    pub fn new(vtable: V) -> (r: Self)
        ensures
            r.0 == vtable,
    {
        VtableRef(vtable)
    }

    /// The referenced table; tables are constant, so this always succeeds.
    pub fn table(&self) -> (t: &V)
        ensures
            *t == self.0,
    {
        &self.0
    }

    /// Hands the slot out in its opaque form for crossing the foreign
    /// boundary.
    pub fn into_raw<'a>(v: &'a Self) -> (raw: RawVtableRef<'a, V>)
        ensures
            raw.target() == *v,
    {
        RawVtableRef { slot: v }
    }

    /// Reconstructs a usable slot handle from its opaque form.
    pub fn from_raw<'a>(raw: RawVtableRef<'a, V>) -> (r: &'a Self)
        ensures
            *r == raw.target(),
    {
        raw.slot
    }
}

/// The opaque form of a table reference: what foreign code holds.  It keeps
/// no more than the slot's identity, so nothing can be read through it
/// without converting it back.
pub struct RawVtableRef<'a, V> {
    slot: &'a VtableRef<V>,
}

impl<'a, V> RawVtableRef<'a, V> {
    /// The slot this opaque handle stands for.
    pub closed spec fn target(self) -> VtableRef<V> {
        *self.slot
    }
}

/// Law: exporting a table reference in raw form and converting it back
/// yields a handle through which every call behaves as through the original.
pub fn raw_roundtrip<'a, V>(v: &'a VtableRef<V>) -> (r: &'a VtableRef<V>)
    ensures
        *r == *v,
{
    VtableRef::from_raw(VtableRef::into_raw(v))
}

/// A concrete type `Self` whose declared interface list contains the
/// interface with table type `V`: the capability to reach that slot inside
/// a composite of `Self`.  Asking for an undeclared interface fails to
/// compile, never at run time.
pub trait HasVtable<V>: HasVtables {
    /// The slot's zero-based position among the declared interfaces of
    /// `Self`; the displacement its trampolines embed is
    /// `crate::layout::back_offset` of this.
    spec fn slot_index() -> int;

    /// The slot's value inside a composite.
    spec fn spec_slot(c: WithVtables<Self>) -> VtableRef<V>;

    /// The composite with the slot replaced and everything else unchanged.
    spec fn spec_with_slot(c: WithVtables<Self>, v: VtableRef<V>) -> WithVtables<Self>;

    /// Replacing a slot stores exactly that slot and never touches the
    /// wrapped value.
    proof fn lemma_with_slot(c: WithVtables<Self>, v: VtableRef<V>)
        ensures
            Self::spec_slot(Self::spec_with_slot(c, v)) == v,
            Self::spec_with_slot(c, v).value == c.value,
    ;

    /// Borrows the slot of this interface: pure field access at the known
    /// position, no lookup and no copy.
    fn get(from: &WithVtables<Self>) -> (r: &VtableRef<V>)
        ensures
            *r == Self::spec_slot(*from),
    ;

    /// Exclusively borrows the same slot; the wrapped value is untouched.
    fn get_mut(from: &mut WithVtables<Self>) -> (r: &mut VtableRef<V>)
        ensures
            *r == Self::spec_slot(*old(from)),
            *final(from) == Self::spec_with_slot(*old(from), *final(r)),
    ;
}

} // verus!
