use cppvtbl::decl::{MethodSig, Param, ParamPattern, SelfKind, TraitDecl, TraitItem};
use cppvtbl::gen::{impl_vtables_gen, vtable_gen, GenError};
use cppvtbl::layout::{raw_of_slot, recover_base, slot_offset};
use cppvtbl::ops::u8_decimal;

fn named(name: &str) -> Param {
    Param { name: name.to_string(), pattern: ParamPattern::Named }
}

fn destructured() -> Param {
    Param { name: String::new(), pattern: ParamPattern::Destructured }
}

fn method(name: &str, receiver: SelfKind, params: Vec<Param>) -> TraitItem {
    TraitItem::Method(MethodSig { name: name.to_string(), receiver, params })
}

fn operator_decl() -> TraitDecl {
    TraitDecl {
        name: "Operator".to_string(),
        items: vec![
            method("perform", SelfKind::Ref, vec![named("a")]),
            method("reconfigure", SelfKind::RefMut, vec![named("n")]),
        ],
    }
}

#[test]
fn generator_accepts_operator() {
    let def = vtable_gen(&operator_decl()).unwrap();
    assert_eq!(def.trait_name, "Operator");
    assert_eq!(def.vtable_name, "OperatorVtable");
    assert_eq!(def.impl_macro_name, "unsafe_impl_OperatorVtable");
    assert_eq!(def.members.len(), 2);
    assert_eq!(def.members[0].name, "perform");
    assert!(!def.members[0].mutable);
    assert_eq!(def.members[0].params, vec![named("a")]);
    assert_eq!(def.members[1].name, "reconfigure");
    assert!(def.members[1].mutable);
    assert_eq!(def.members[1].params, vec![named("n")]);
}

#[test]
fn generator_accepts_empty_interface() {
    let decl = TraitDecl { name: "Marker".to_string(), items: vec![] };
    let def = vtable_gen(&decl).unwrap();
    assert_eq!(def.vtable_name, "MarkerVtable");
    assert_eq!(def.members.len(), 0);
}

#[test]
fn generator_rejects_non_method_items() {
    let decl = TraitDecl {
        name: "Operator".to_string(),
        items: vec![method("perform", SelfKind::Ref, vec![]), TraitItem::Other],
    };
    let err = vtable_gen(&decl).unwrap_err();
    assert_eq!(err, GenError::OnlyMethodsAllowed { item: 1 });
    assert_eq!(err.message(), "only methods allowed in trait");
}

#[test]
fn generator_rejects_missing_receiver() {
    let decl = TraitDecl {
        name: "Operator".to_string(),
        items: vec![method("perform", SelfKind::Missing, vec![named("a")])],
    };
    let err = vtable_gen(&decl).unwrap_err();
    assert_eq!(err, GenError::ExpectedReceiver { item: 0 });
    assert_eq!(err.message(), "expected receiver");
}

#[test]
fn generator_rejects_typed_receiver() {
    let decl = TraitDecl {
        name: "Operator".to_string(),
        items: vec![method("perform", SelfKind::Typed, vec![])],
    };
    let err = vtable_gen(&decl).unwrap_err();
    assert_eq!(err, GenError::OnlySelfReceivers { item: 0 });
    assert_eq!(err.message(), "only self receivers allowed");
}

#[test]
fn generator_rejects_owned_receiver() {
    let decl = TraitDecl {
        name: "Operator".to_string(),
        items: vec![method("perform", SelfKind::Owned, vec![])],
    };
    let err = vtable_gen(&decl).unwrap_err();
    assert_eq!(err, GenError::ShouldBeReference { item: 0 });
    assert_eq!(err.message(), "should be reference type");
}

#[test]
fn generator_rejects_destructured_parameters() {
    let decl = TraitDecl {
        name: "Operator".to_string(),
        items: vec![method(
            "perform",
            SelfKind::Ref,
            vec![named("a"), destructured()],
        )],
    };
    let err = vtable_gen(&decl).unwrap_err();
    assert_eq!(err, GenError::OnlyIdentPatterns { item: 0, param: 1 });
    assert_eq!(err.message(), "only ident patterns allowed");
}

#[test]
fn generator_reports_first_offence() {
    let decl = TraitDecl {
        name: "Operator".to_string(),
        items: vec![
            method("perform", SelfKind::Ref, vec![named("a")]),
            method("broken", SelfKind::Owned, vec![]),
            TraitItem::Other,
        ],
    };
    let err = vtable_gen(&decl).unwrap_err();
    assert_eq!(err, GenError::ShouldBeReference { item: 1 });
}

#[test]
fn attachment_wires_slots_in_order() {
    let this = "Add".to_string();
    let interfaces = vec!["Operator".to_string(), "Printable".to_string()];
    let def = impl_vtables_gen(&this, &interfaces);
    assert_eq!(def.this_name, "Add");
    assert_eq!(def.slots.len(), 2);
    assert_eq!(def.slots[0].interface, "Operator");
    assert_eq!(def.slots[0].vtable_name, "OperatorVtable");
    assert_eq!(def.slots[0].const_name, "OperatorVtableForAdd");
    assert_eq!(def.slots[0].index, 0);
    assert_eq!(def.slots[0].offset, 0);
    assert_eq!(def.slots[1].interface, "Printable");
    assert_eq!(def.slots[1].vtable_name, "PrintableVtable");
    assert_eq!(def.slots[1].const_name, "PrintableVtableForAdd");
    assert_eq!(def.slots[1].index, 1);
    assert_eq!(def.slots[1].offset, -1);
}

#[test]
fn displacements_recover_the_owner() {
    assert_eq!(slot_offset(0), 0);
    assert_eq!(slot_offset(3), -3);
    let base = 100;
    for i in 0..7 {
        let raw = raw_of_slot(base, i);
        assert_eq!(raw, base + i);
        assert_eq!(recover_base(raw, i), base);
    }
}

#[test]
fn decimal_renderings() {
    assert_eq!(u8_decimal(0), "0");
    assert_eq!(u8_decimal(7), "7");
    assert_eq!(u8_decimal(10), "10");
    assert_eq!(u8_decimal(42), "42");
    assert_eq!(u8_decimal(99), "99");
    assert_eq!(u8_decimal(100), "100");
    assert_eq!(u8_decimal(255), "255");
}
