use cppvtbl::dispatch::{OperatorRef, OperatorVtable, PrintableRef, Target};
use cppvtbl::ops::{Add, Operator, Sub};
use cppvtbl::vtables::{raw_roundtrip, HasVtable, HasVtables, VtableRef, WithVtables};

#[test]
fn test() {
    let mut add = WithVtables::new(Add(10));
    let operator = OperatorRef::of(&add);
    let printable = PrintableRef::of(&add);

    printable.print();
    assert_eq!(operator.perform(2), 12);

    add.reconfigure_through(20);

    assert_eq!(OperatorRef::of(&add).perform(2), 22);
}

#[test]
fn sub_never_runs_add() {
    let mut sub = WithVtables::new(Sub(10));
    // 10 - 2, never 10 + 2.
    assert_eq!(OperatorRef::of(&sub).perform(2), 8);
    let slot = <Sub as HasVtable<OperatorVtable>>::get(&sub);
    assert_eq!(slot.table().perform, Target::SubPerform);
    assert_eq!(slot.table().reconfigure, Target::SubReconfigure);
    sub.reconfigure_through(30);
    assert_eq!(OperatorRef::of(&sub).perform(2), 28);
}

#[test]
fn from_wraps_like_new() {
    let add: WithVtables<Add> = WithVtables::from(Add(10));
    assert_eq!(OperatorRef::of(&add).perform(2), 12);
}

#[test]
fn dispatch_matches_direct_call() {
    let add = WithVtables::new(Add(37));
    assert_eq!(OperatorRef::of(&add).perform(5), add.value().perform(5));
    let sub = WithVtables::new(Sub(37));
    assert_eq!(OperatorRef::of(&sub).perform(5), sub.value().perform(5));
}

#[test]
fn two_interfaces_reach_one_object() {
    let mut add = WithVtables::new(Add(10));
    assert_eq!(PrintableRef::of(&add).print(), "+ 10");
    assert_eq!(PrintableRef::of(&add).print_debug(), "Add(10)");
    // A mutation through the Operator table is visible through Printable.
    add.reconfigure_through(42);
    assert_eq!(PrintableRef::of(&add).print(), "+ 42");
    assert_eq!(PrintableRef::of(&add).print_debug(), "Add(42)");
    assert_eq!(OperatorRef::of(&add).perform(1), 43);
}

#[test]
fn raw_roundtrip_preserves_behaviour() {
    let add = WithVtables::new(Add(10));
    let slot: &VtableRef<OperatorVtable> = <Add as HasVtable<OperatorVtable>>::get(&add);
    let raw = VtableRef::into_raw(slot);
    let back = VtableRef::from_raw(raw);
    assert_eq!(back.table().perform, Target::AddPerform);
    assert_eq!(back.table().reconfigure, Target::AddReconfigure);
    let again = raw_roundtrip(slot);
    assert_eq!(again.table().perform, slot.table().perform);
}

#[test]
fn composites_share_constant_tables() {
    let one = WithVtables::new(Add(1));
    let two = WithVtables::new(Add(200));
    let tables = <Add as HasVtables>::tables();
    assert_eq!(one.vtables().0.table().perform, tables.0.table().perform);
    assert_eq!(two.vtables().1.table().print, tables.1.table().print);
}

#[test]
fn value_access_passes_through() {
    let mut add = WithVtables::new(Add(9));
    assert_eq!(add.value().0, 9);
    add.value_mut().0 = 11;
    assert_eq!(add.value().0, 11);
    assert_eq!(OperatorRef::of(&add).perform(0), 11);
}

#[test]
fn exclusive_slot_access() {
    let mut add = WithVtables::new(Add(10));
    {
        let slot = <Add as HasVtable<OperatorVtable>>::get_mut(&mut add);
        let _: &VtableRef<OperatorVtable> = slot;
    }
    let tuple = add.vtables_mut();
    assert_eq!(tuple.0.table().perform, Target::AddPerform);
    assert_eq!(OperatorRef::of(&add).perform(2), 12);
}
