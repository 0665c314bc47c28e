//! The generated tables and dispatch glue for the interfaces of
//! `crate::ops`.
//!
//! This is what the generator wires up for `Add` (declaring `Operator` then
//! `Printable`) and `Sub` (declaring `Operator` alone): one table per
//! (interface, concrete type) pair whose entries name the emitted
//! trampolines, the capability impls that reach each slot, the trampolines
//! themselves, and adapters that make a held table reference callable like
//! the interface it stands for.  A stored entry plays the part of a
//! function pointer: dispatch loads it from the referenced table and proves
//! it names exactly the trampoline being entered, so a table can never
//! route a call to another type's implementation.

use vstd::prelude::*;

use crate::layout;
use crate::ops::{decimal, Add, Operator, Printable, Sub};
use crate::vtables::{HasVtable, HasVtables, VtableRef, WithVtables};

verus! {

/// Names one emitted trampoline: the value stored in a table entry.
#[derive(Clone, Copy, PartialEq, Eq, Structural, Debug)]
pub enum Target {
    /// `Operator::perform` forwarded to `Add`.
    AddPerform,
    /// `Operator::reconfigure` forwarded to `Add`.
    AddReconfigure,
    /// `Operator::perform` forwarded to `Sub`.
    SubPerform,
    /// `Operator::reconfigure` forwarded to `Sub`.
    SubReconfigure,
    /// `Printable::print` forwarded to `Add`.
    AddPrint,
    /// `Printable::print_debug` forwarded to `Add`.
    AddPrintDebug,
}

/// The table of the `Operator` interface: one entry per method, in
/// declaration order.
#[derive(Clone, Copy)]
pub struct OperatorVtable {
    /// The trampoline called for `perform`.
    pub perform: Target,
    /// The trampoline called for `reconfigure`.
    pub reconfigure: Target,
}

/// The table of the `Printable` interface.
#[derive(Clone, Copy)]
pub struct PrintableVtable {
    /// The trampoline called for `print`.
    pub print: Target,
    /// The trampoline called for `print_debug`.
    pub print_debug: Target,
}

impl HasVtables for Add {
    type Tables = (VtableRef<OperatorVtable>, VtableRef<PrintableVtable>);

    open spec fn spec_tables() -> Self::Tables {
        (
            VtableRef(
                OperatorVtable { perform: Target::AddPerform, reconfigure: Target::AddReconfigure },
            ),
            VtableRef(
                PrintableVtable { print: Target::AddPrint, print_debug: Target::AddPrintDebug },
            ),
        )
    }

    fn tables() -> Self::Tables {
        (
            VtableRef::new(
                OperatorVtable { perform: Target::AddPerform, reconfigure: Target::AddReconfigure },
            ),
            VtableRef::new(
                PrintableVtable { print: Target::AddPrint, print_debug: Target::AddPrintDebug },
            ),
        )
    }
}

impl HasVtable<OperatorVtable> for Add {
    open spec fn slot_index() -> int {
        0
    }

    open spec fn spec_slot(c: WithVtables<Add>) -> VtableRef<OperatorVtable> {
        c.vtables.0
    }

    open spec fn spec_with_slot(
        c: WithVtables<Add>,
        v: VtableRef<OperatorVtable>,
    ) -> WithVtables<Add> {
        WithVtables { vtables: (v, c.vtables.1), value: c.value }
    }

    proof fn lemma_with_slot(c: WithVtables<Add>, v: VtableRef<OperatorVtable>) {
    }

    fn get(from: &WithVtables<Add>) -> &VtableRef<OperatorVtable> {
        &from.vtables.0
    }

    fn get_mut(from: &mut WithVtables<Add>) -> &mut VtableRef<OperatorVtable> {
        &mut from.vtables.0
    }
}

impl HasVtable<PrintableVtable> for Add {
    open spec fn slot_index() -> int {
        1
    }

    open spec fn spec_slot(c: WithVtables<Add>) -> VtableRef<PrintableVtable> {
        c.vtables.1
    }

    open spec fn spec_with_slot(
        c: WithVtables<Add>,
        v: VtableRef<PrintableVtable>,
    ) -> WithVtables<Add> {
        WithVtables { vtables: (c.vtables.0, v), value: c.value }
    }

    proof fn lemma_with_slot(c: WithVtables<Add>, v: VtableRef<PrintableVtable>) {
    }

    fn get(from: &WithVtables<Add>) -> &VtableRef<PrintableVtable> {
        &from.vtables.1
    }

    fn get_mut(from: &mut WithVtables<Add>) -> &mut VtableRef<PrintableVtable> {
        &mut from.vtables.1
    }
}

impl HasVtables for Sub {
    type Tables = (VtableRef<OperatorVtable>,);

    open spec fn spec_tables() -> Self::Tables {
        (
            VtableRef(
                OperatorVtable { perform: Target::SubPerform, reconfigure: Target::SubReconfigure },
            ),
        )
    }

    fn tables() -> Self::Tables {
        (
            VtableRef::new(
                OperatorVtable { perform: Target::SubPerform, reconfigure: Target::SubReconfigure },
            ),
        )
    }
}

impl HasVtable<OperatorVtable> for Sub {
    open spec fn slot_index() -> int {
        0
    }

    open spec fn spec_slot(c: WithVtables<Sub>) -> VtableRef<OperatorVtable> {
        c.vtables.0
    }

    open spec fn spec_with_slot(
        c: WithVtables<Sub>,
        v: VtableRef<OperatorVtable>,
    ) -> WithVtables<Sub> {
        WithVtables { vtables: (v,), value: c.value }
    }

    proof fn lemma_with_slot(c: WithVtables<Sub>, v: VtableRef<OperatorVtable>) {
    }

    fn get(from: &WithVtables<Sub>) -> &VtableRef<OperatorVtable> {
        &from.vtables.0
    }

    fn get_mut(from: &mut WithVtables<Sub>) -> &mut VtableRef<OperatorVtable> {
        &mut from.vtables.0
    }
}

/// Trampoline for `Operator::perform` on `Add`: enters with the recovered
/// composite and forwards to the concrete implementation.
pub fn add_perform_trampoline(owner: &WithVtables<Add>, a: u8) -> (r: u8)
    requires
        owner.value.perform_ok(a),
    ensures
        r == owner.value.perform_spec(a),
{
    owner.value.perform(a)
}

/// Trampoline for `Operator::reconfigure` on `Add`: exclusive access to the
/// slot means exclusive access to the whole composite.
pub fn add_reconfigure_trampoline(owner: &mut WithVtables<Add>, n: u8)
    ensures
        final(owner).value == old(owner).value.reconfigure_spec(n),
        final(owner).vtables == old(owner).vtables,
{
    let v = owner.value_mut();
    v.reconfigure(n);
}

/// Trampoline for `Operator::perform` on `Sub`.
pub fn sub_perform_trampoline(owner: &WithVtables<Sub>, a: u8) -> (r: u8)
    requires
        owner.value.perform_ok(a),
    ensures
        r == owner.value.perform_spec(a),
{
    owner.value.perform(a)
}

/// Trampoline for `Operator::reconfigure` on `Sub`.
pub fn sub_reconfigure_trampoline(owner: &mut WithVtables<Sub>, n: u8)
    ensures
        final(owner).value == old(owner).value.reconfigure_spec(n),
        final(owner).vtables == old(owner).vtables,
{
    let v = owner.value_mut();
    v.reconfigure(n);
}

/// Trampoline for `Printable::print` on `Add`.
pub fn add_print_trampoline(owner: &WithVtables<Add>) -> (s: String)
    ensures
        s@ == owner.value.print_spec(),
{
    owner.value.print()
}

/// Trampoline for `Printable::print_debug` on `Add`.
pub fn add_print_debug_trampoline(owner: &WithVtables<Add>) -> (s: String)
    ensures
        s@ == owner.value.print_debug_spec(),
{
    owner.value.print_debug()
}

/// A held `Operator` table reference: the slot of a composite together with
/// the owner it recovers, which is how a verified caller carries the slot's
/// load-bearing address.
pub struct OperatorRef<'a, T: HasVtables> {
    /// The owning composite the slot walks back to.
    pub owner: &'a WithVtables<T>,
}

impl<'a, T: HasVtable<OperatorVtable>> OperatorRef<'a, T> {
    /// Takes the `Operator` table reference of a composite.
    pub fn of(owner: &'a WithVtables<T>) -> (h: Self)
        ensures
            h.owner == owner,
    {
        OperatorRef { owner }
    }

    /// The referenced table.
    pub fn table(&self) -> (t: &VtableRef<OperatorVtable>)
        ensures
            *t == T::spec_slot(*self.owner),
    {
        T::get(self.owner)
    }
}

impl<'a> OperatorRef<'a, Add> {
    /// Adapter for `Operator::perform`: loads the entry out of the
    /// referenced table and calls the trampoline it names, which behaves
    /// exactly as calling the concrete method directly.
    pub fn perform(&self, a: u8) -> (r: u8)
        requires
            self.owner.wf(),
            self.owner.value.perform_ok(a),
        ensures
            r == self.owner.value.perform_spec(a),
    {
        let slot = <Add as HasVtable<OperatorVtable>>::get(self.owner);
        let entry = slot.table().perform;
        proof {
            assert(entry == Target::AddPerform);
        }
        add_perform_trampoline(self.owner, a)
    }
}

impl<'a> OperatorRef<'a, Sub> {
    /// Adapter for `Operator::perform` on a `Sub` composite; its table
    /// names `Sub`'s trampoline, never `Add`'s.
    pub fn perform(&self, a: u8) -> (r: u8)
        requires
            self.owner.wf(),
            self.owner.value.perform_ok(a),
        ensures
            r == self.owner.value.perform_spec(a),
    {
        let slot = <Sub as HasVtable<OperatorVtable>>::get(self.owner);
        let entry = slot.table().perform;
        proof {
            assert(entry == Target::SubPerform);
        }
        sub_perform_trampoline(self.owner, a)
    }
}

/// A held `Printable` table reference.
pub struct PrintableRef<'a, T: HasVtables> {
    /// The owning composite the slot walks back to.
    pub owner: &'a WithVtables<T>,
}

impl<'a, T: HasVtable<PrintableVtable>> PrintableRef<'a, T> {
    /// Takes the `Printable` table reference of a composite.
    pub fn of(owner: &'a WithVtables<T>) -> (h: Self)
        ensures
            h.owner == owner,
    {
        PrintableRef { owner }
    }

    /// The referenced table.
    pub fn table(&self) -> (t: &VtableRef<PrintableVtable>)
        ensures
            *t == T::spec_slot(*self.owner),
    {
        T::get(self.owner)
    }
}

impl<'a> PrintableRef<'a, Add> {
    /// Adapter for `Printable::print`.
    pub fn print(&self) -> (s: String)
        requires
            self.owner.wf(),
        ensures
            s@ == self.owner.value.print_spec(),
    {
        let slot = <Add as HasVtable<PrintableVtable>>::get(self.owner);
        let entry = slot.table().print;
        proof {
            assert(entry == Target::AddPrint);
        }
        add_print_trampoline(self.owner)
    }

    /// Adapter for `Printable::print_debug`.
    pub fn print_debug(&self) -> (s: String)
        requires
            self.owner.wf(),
        ensures
            s@ == self.owner.value.print_debug_spec(),
    {
        let slot = <Add as HasVtable<PrintableVtable>>::get(self.owner);
        let entry = slot.table().print_debug;
        proof {
            assert(entry == Target::AddPrintDebug);
        }
        add_print_debug_trampoline(self.owner)
    }
}

impl WithVtables<Add> {
    /// Adapter for the exclusive method `Operator::reconfigure`, dispatched
    /// through the `Operator` table: mutating through a slot takes the whole
    /// composite exclusively, and leaves every table untouched.
    pub fn reconfigure_through(&mut self, n: u8)
        requires
            old(self).wf(),
        ensures
            final(self).wf(),
            final(self).value == old(self).value.reconfigure_spec(n),
            final(self).vtables == old(self).vtables,
    {
        let entry = <Add as HasVtable<OperatorVtable>>::get(self).table().reconfigure;
        proof {
            assert(entry == Target::AddReconfigure);
        }
        add_reconfigure_trampoline(self, n)
    }
}

impl WithVtables<Sub> {
    /// Adapter for the exclusive method `Operator::reconfigure` on a `Sub`
    /// composite.
    pub fn reconfigure_through(&mut self, n: u8)
        requires
            old(self).wf(),
        ensures
            final(self).wf(),
            final(self).value == old(self).value.reconfigure_spec(n),
            final(self).vtables == old(self).vtables,
    {
        let entry = <Sub as HasVtable<OperatorVtable>>::get(self).table().reconfigure;
        proof {
            assert(entry == Target::SubReconfigure);
        }
        sub_reconfigure_trampoline(self, n)
    }
}

/// Law: a mutation dispatched through the `Operator` table reference of a
/// composite is observable through every other table reference of the same
/// object — afterwards the `Operator` table computes with the new value and
/// the `Printable` table renders it — while both slots themselves are
/// unchanged.
pub proof fn lemma_mutation_shared(c: WithVtables<Add>, n: u8, a: u8)
    requires
        c.wf(),
        n + a <= u8::MAX,
    ensures
        ({
            let after = WithVtables { vtables: c.vtables, value: c.value.reconfigure_spec(n) };
            &&& after.wf()
            &&& after.value.perform_ok(a)
            &&& after.value.perform_spec(a) == n + a
            &&& after.value.print_spec() == "+ "@ + decimal(n as int)
            &&& <Add as HasVtable<OperatorVtable>>::spec_slot(after) == <Add as HasVtable<
                OperatorVtable,
            >>::spec_slot(c)
            &&& <Add as HasVtable<PrintableVtable>>::spec_slot(after) == <Add as HasVtable<
                PrintableVtable,
            >>::spec_slot(c)
        }),
{
}

/// Law: a type declaring two interfaces exposes two independently
/// addressable table references — distinct slot positions — and the
/// displacement walk from either slot recovers the identical owner.
pub proof fn lemma_two_interfaces_one_owner(base: int)
    ensures
        <Add as HasVtable<OperatorVtable>>::slot_index() != <Add as HasVtable<
            PrintableVtable,
        >>::slot_index(),
        layout::slot_addr(base, <Add as HasVtable<OperatorVtable>>::slot_index())
            + layout::back_offset(<Add as HasVtable<OperatorVtable>>::slot_index()) == base,
        layout::slot_addr(base, <Add as HasVtable<PrintableVtable>>::slot_index())
            + layout::back_offset(<Add as HasVtable<PrintableVtable>>::slot_index()) == base,
{
}

} // verus!
