//! The table generator.
//!
//! Given an interface declaration, the generator either rejects it with a
//! diagnostic (the first offending item, exactly as a compiler would report
//! it) or emits the description of everything attached to that interface:
//! the table type's name, the name of the helper that builds a concrete
//! table at a given slot displacement, and one table member per method, in
//! declaration order.  Given a concrete type's ordered interface list, it
//! emits one slot description per interface, whose displacement is the
//! slot's position negated, as `crate::layout` demands.

use vstd::prelude::*;
use vstd::string::StringExecFns;

use crate::decl::{
    all_params_named, decl_ok, item_ok, items_ok_before, params_named_before, receiver_ok,
    Param, ParamPattern, SelfKind, TraitDecl, TraitItem,
};
use crate::layout;

verus! {

/// A diagnostic of the generator, carrying the position it points at.
#[derive(Clone, Copy, PartialEq, Eq, Structural, Debug)]
pub enum GenError {
    /// Item `item` of the declaration is not a method.
    OnlyMethodsAllowed { item: usize },
    /// Method `item` has no self-parameter.
    ExpectedReceiver { item: usize },
    /// Method `item` names `self` but gives it an explicit type.
    OnlySelfReceivers { item: usize },
    /// Method `item` takes `self` by value instead of by reference.
    ShouldBeReference { item: usize },
    /// Parameter `param` of method `item` is not a plain named binding.
    OnlyIdentPatterns { item: usize, param: usize },
}

impl GenError {
    /// The diagnostic's text.
    pub open spec fn spec_message(self) -> Seq<char> {
        match self {
            GenError::OnlyMethodsAllowed { .. } => "only methods allowed in trait"@,
            GenError::ExpectedReceiver { .. } => "expected receiver"@,
            GenError::OnlySelfReceivers { .. } => "only self receivers allowed"@,
            GenError::ShouldBeReference { .. } => "should be reference type"@,
            GenError::OnlyIdentPatterns { .. } => "only ident patterns allowed"@,
        }
    }

    /// Renders the diagnostic's text.
    pub fn message(&self) -> (s: &'static str)
        ensures
            s@ == self.spec_message(),
    {
        match self {
            GenError::OnlyMethodsAllowed { .. } => "only methods allowed in trait",
            GenError::ExpectedReceiver { .. } => "expected receiver",
            GenError::OnlySelfReceivers { .. } => "only self receivers allowed",
            GenError::ShouldBeReference { .. } => "should be reference type",
            GenError::OnlyIdentPatterns { .. } => "only ident patterns allowed",
        }
    }
}

/// The diagnostic `e` names the first offending position of `d`, and the
/// declaration really offends there in the way the diagnostic says.
pub open spec fn diagnoses(d: TraitDecl, e: GenError) -> bool {
    match e {
        GenError::OnlyMethodsAllowed { item } => {
            &&& (item as int) < d.items@.len()
            &&& items_ok_before(d, item as int)
            &&& d.items@[item as int] matches TraitItem::Other
        },
        GenError::ExpectedReceiver { item } => {
            &&& (item as int) < d.items@.len()
            &&& items_ok_before(d, item as int)
            &&& d.items@[item as int] matches TraitItem::Method(m)
                && m.receiver == SelfKind::Missing
        },
        GenError::OnlySelfReceivers { item } => {
            &&& (item as int) < d.items@.len()
            &&& items_ok_before(d, item as int)
            &&& d.items@[item as int] matches TraitItem::Method(m)
                && m.receiver == SelfKind::Typed
        },
        GenError::ShouldBeReference { item } => {
            &&& (item as int) < d.items@.len()
            &&& items_ok_before(d, item as int)
            &&& d.items@[item as int] matches TraitItem::Method(m)
                && m.receiver == SelfKind::Owned
        },
        GenError::OnlyIdentPatterns { item, param } => {
            &&& (item as int) < d.items@.len()
            &&& items_ok_before(d, item as int)
            &&& d.items@[item as int] matches TraitItem::Method(m)
                && receiver_ok(m.receiver)
                && (param as int) < m.params@.len()
                && m.params@[param as int].pattern == ParamPattern::Destructured
                && params_named_before(m, param as int)
        },
    }
}

/// The item position a diagnostic points at.
pub open spec fn err_item(e: GenError) -> int {
    match e {
        GenError::OnlyMethodsAllowed { item } => item as int,
        GenError::ExpectedReceiver { item } => item as int,
        GenError::OnlySelfReceivers { item } => item as int,
        GenError::ShouldBeReference { item } => item as int,
        GenError::OnlyIdentPatterns { item, .. } => item as int,
    }
}

/// A diagnosed item really is one the generator may not accept.
pub proof fn lemma_diagnosed_item_bad(d: TraitDecl, e: GenError)
    requires
        diagnoses(d, e),
    ensures
        0 <= err_item(e) < d.items@.len(),
        !item_ok(d.items@[err_item(e)]),
{
    if let GenError::OnlyIdentPatterns { item, param } = e {
        assert(d.items@[item as int] matches TraitItem::Method(m) && m.params@[
            param as int
        ].pattern != ParamPattern::Named);
        assert(!item_ok(d.items@[item as int]));
    }
}

/// Law: a declaration admits at most one diagnostic — the generator's
/// rejection is fully determined by its input.
pub proof fn lemma_diagnosis_unique(d: TraitDecl, e1: GenError, e2: GenError)
    requires
        diagnoses(d, e1),
        diagnoses(d, e2),
    ensures
        e1 == e2,
{
    lemma_diagnosed_item_bad(d, e1);
    lemma_diagnosed_item_bad(d, e2);
    if err_item(e1) < err_item(e2) {
        assert(item_ok(d.items@[err_item(e1)]));
        assert(false);
    }
    if err_item(e2) < err_item(e1) {
        assert(item_ok(d.items@[err_item(e2)]));
        assert(false);
    }
    if let (
        GenError::OnlyIdentPatterns { item: i1, param: p1 },
        GenError::OnlyIdentPatterns { item: i2, param: p2 },
    ) = (e1, e2) {
        if p1 < p2 {
            assert(d.items@[i2 as int] matches TraitItem::Method(m) && m.params@[
                p1 as int
            ].pattern == ParamPattern::Named && m.params@[p1 as int].pattern
                == ParamPattern::Destructured);
            assert(false);
        }
        if p2 < p1 {
            assert(d.items@[i1 as int] matches TraitItem::Method(m) && m.params@[
                p2 as int
            ].pattern == ParamPattern::Named && m.params@[p2 as int].pattern
                == ParamPattern::Destructured);
            assert(false);
        }
    }
}

/// One member of an emitted table: the foreign-callable function for one
/// method.  Its first parameter is the table slot, exclusive when the
/// receiver is, and the remaining parameters are the method's own, verbatim.
#[derive(Debug)]
pub struct TableMember {
    /// The method's name, reused for the member.
    pub name: String,
    /// Whether the slot parameter (and so the receiver) is exclusive.
    pub mutable: bool,
    /// The method's remaining parameters, copied verbatim.
    pub params: Vec<Param>,
}

/// The member faithfully describes the declared method.
pub open spec fn member_matches(mem: TableMember, item: TraitItem) -> bool {
    match item {
        TraitItem::Method(m) => {
            &&& mem.name@ == m.name@
            &&& mem.mutable == (m.receiver == SelfKind::RefMut)
            &&& mem.params@ == m.params@
        },
        TraitItem::Other => false,
    }
}

/// Everything the generator emits for one accepted interface declaration.
#[derive(Debug)]
pub struct VtableDef {
    /// The interface's own name.
    pub trait_name: String,
    /// The name of the emitted table type.
    pub vtable_name: String,
    /// The name of the emitted helper that builds one concrete table at a
    /// given slot displacement.
    pub impl_macro_name: String,
    /// One member per declared method, in declaration order.
    pub members: Vec<TableMember>,
}

/// The emitted definition faithfully describes the declaration.
pub open spec fn def_matches(def: VtableDef, d: TraitDecl) -> bool {
    &&& def.trait_name@ == d.name@
    &&& def.vtable_name@ == d.name@ + "Vtable"@
    &&& def.impl_macro_name@ == "unsafe_impl_"@ + d.name@ + "Vtable"@
    &&& def.members@.len() == d.items@.len()
    &&& forall|i: int|
        0 <= i < d.items@.len() ==> member_matches(#[trigger] def.members@[i], d.items@[i])
}

/// Runs the generator over one interface declaration: accepts it and emits
/// its table definition, or rejects it at the first offending item.
pub fn vtable_gen(decl: &TraitDecl) -> (r: Result<VtableDef, GenError>)
    ensures
        r is Ok <==> decl_ok(*decl),
        r matches Ok(def) ==> def_matches(def, *decl),
        r matches Err(e) ==> diagnoses(*decl, e),
{
    let n = decl.items.len();
    let mut members: Vec<TableMember> = Vec::new();
    let mut idx: usize = 0;
    while idx < n
        invariant
            n == decl.items@.len(),
            idx <= n,
            items_ok_before(*decl, idx as int),
            members@.len() == idx as int,
            forall|k: int|
                0 <= k < idx ==> member_matches(#[trigger] members@[k], decl.items@[k]),
        decreases n - idx,
    {
        match &decl.items[idx] {
            TraitItem::Other => {
                proof {
                    assert(!item_ok(decl.items@[idx as int]));
                }
                return Err(GenError::OnlyMethodsAllowed { item: idx });
            },
            TraitItem::Method(m) => {
                match m.receiver {
                    SelfKind::Missing => {
                        proof {
                            assert(!item_ok(decl.items@[idx as int]));
                        }
                        return Err(GenError::ExpectedReceiver { item: idx });
                    },
                    SelfKind::Typed => {
                        proof {
                            assert(!item_ok(decl.items@[idx as int]));
                        }
                        return Err(GenError::OnlySelfReceivers { item: idx });
                    },
                    SelfKind::Owned => {
                        proof {
                            assert(!item_ok(decl.items@[idx as int]));
                        }
                        return Err(GenError::ShouldBeReference { item: idx });
                    },
                    SelfKind::Ref | SelfKind::RefMut => {},
                }
                let np = m.params.len();
                let mut ps: Vec<Param> = Vec::new();
                let mut j: usize = 0;
                while j < np
                    invariant
                        n == decl.items@.len(),
                        idx < n,
                        items_ok_before(*decl, idx as int),
                        decl.items@[idx as int] == TraitItem::Method(*m),
                        receiver_ok(m.receiver),
                        np == m.params@.len(),
                        j <= np,
                        params_named_before(*m, j as int),
                        ps@ == m.params@.subrange(0, j as int),
                    decreases np - j,
                {
                    let p = &m.params[j];
                    match p.pattern {
                        ParamPattern::Named => {},
                        ParamPattern::Destructured => {
                            proof {
                                assert(!all_params_named(*m));
                                assert(!item_ok(decl.items@[idx as int]));
                            }
                            return Err(GenError::OnlyIdentPatterns { item: idx, param: j });
                        },
                    }
                    ps.push(Param { name: p.name.clone(), pattern: ParamPattern::Named });
                    j += 1;
                    proof {
                        assert(ps@[j - 1] == m.params@[j - 1]);
                        assert(ps@ =~= m.params@.subrange(0, j as int));
                    }
                }
                proof {
                    assert(ps@ =~= m.params@);
                }
                let mutable = match m.receiver {
                    SelfKind::RefMut => true,
                    _ => false,
                };
                members.push(TableMember { name: m.name.clone(), mutable, params: ps });
            },
        }
        idx += 1;
    }
    let vtable_name = decl.name.clone().concat("Vtable");
    let impl_macro_name = String::from_str("unsafe_impl_").concat(vtable_name.as_str());
    proof {
        assert(impl_macro_name@ =~= "unsafe_impl_"@ + decl.name@ + "Vtable"@);
    }
    Ok(VtableDef { trait_name: decl.name.clone(), vtable_name, impl_macro_name, members })
}

/// One slot the generator wires into a concrete type's composite: which
/// interface it serves, the names it emits for it, its position, and the
/// displacement its trampolines embed.
pub struct SlotDef {
    /// The interface's name.
    pub interface: String,
    /// The name of that interface's table type.
    pub vtable_name: String,
    /// The name of the emitted per-type table constant.
    pub const_name: String,
    /// The slot's zero-based position.
    pub index: usize,
    /// The displacement from the slot back to the composite's start.
    pub offset: isize,
}

/// The slot description is the one the protocol demands at position `i`.
pub open spec fn slot_matches(s: SlotDef, this: Seq<char>, interface: Seq<char>, i: int) -> bool {
    &&& s.interface@ == interface
    &&& s.vtable_name@ == interface + "Vtable"@
    &&& s.const_name@ == interface + "VtableFor"@ + this
    &&& s.index as int == i
    &&& s.offset as int == layout::back_offset(i)
}

/// Everything the generator wires up when a concrete type declares its
/// ordered interface list.
pub struct AttachmentDef {
    /// The concrete type's name.
    pub this_name: String,
    /// One slot per declared interface, in declaration order.
    pub slots: Vec<SlotDef>,
}

/// Runs the generator over a concrete type's ordered interface list.
pub fn impl_vtables_gen(this_name: &String, interfaces: &Vec<String>) -> (d: AttachmentDef)
    requires
        interfaces@.len() <= isize::MAX as int,
    ensures
        d.this_name@ == this_name@,
        d.slots@.len() == interfaces@.len(),
        forall|i: int|
            0 <= i < interfaces@.len() ==> slot_matches(
                #[trigger] d.slots@[i],
                this_name@,
                interfaces@[i]@,
                i,
            ),
{
    let n = interfaces.len();
    let mut slots: Vec<SlotDef> = Vec::new();
    let mut i: usize = 0;
    while i < n
        invariant
            n == interfaces@.len(),
            n <= isize::MAX as int,
            i <= n,
            slots@.len() == i as int,
            forall|k: int|
                0 <= k < i ==> slot_matches(
                    #[trigger] slots@[k],
                    this_name@,
                    interfaces@[k]@,
                    k,
                ),
        decreases n - i,
    {
        let name = &interfaces[i];
        let vtable_name = name.clone().concat("Vtable");
        let const_name = name.clone().concat("VtableFor").concat(this_name.as_str());
        let offset = layout::slot_offset(i);
        slots.push(
            SlotDef { interface: name.clone(), vtable_name, const_name, index: i, offset },
        );
        i += 1;
    }
    AttachmentDef { this_name: this_name.clone(), slots }
}

} // verus!
