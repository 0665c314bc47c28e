//! The data model of interface declarations.
//!
//! An interface is a named set of methods.  The generator only ever needs
//! the shape of each method: its name, the kind of self-parameter it takes,
//! and whether each remaining parameter is a plain named binding — those are
//! the properties it must re-emit mechanically in the foreign-callable
//! signature, and the ones it rejects declarations over.

use vstd::prelude::*;

verus! {

/// The self-parameter of a declared method, as the generator sees it.
#[derive(Clone, Copy, PartialEq, Eq, Structural, Debug)]
pub enum SelfKind {
    /// The method has no self-parameter at all.
    Missing,
    /// The first parameter names `self` but gives it an explicit type.
    Typed,
    /// `self` taken by value.
    Owned,
    /// `&self`.
    Ref,
    /// `&mut self`.
    RefMut,
}

/// How one non-self parameter is bound.
#[derive(Clone, Copy, PartialEq, Eq, Structural, Debug)]
pub enum ParamPattern {
    /// A plain named binding, which the generator can re-emit verbatim.
    Named,
    /// Anything else (a destructuring pattern, a wildcard, ...).
    Destructured,
}

/// One non-self parameter of a declared method.
#[derive(PartialEq, Eq, Debug)]
pub struct Param {
    /// The binding's name, which the generator re-emits verbatim.
    pub name: String,
    /// How the parameter is bound.
    pub pattern: ParamPattern,
}

/// The shape of one declared method.
pub struct MethodSig {
    /// The method's name.
    pub name: String,
    /// Its self-parameter.
    pub receiver: SelfKind,
    /// Its remaining parameters, in order.
    pub params: Vec<Param>,
}

/// One item of an interface declaration.
pub enum TraitItem {
    /// A method with its shape.
    Method(MethodSig),
    /// Any other kind of item, which an interface may not contain.
    Other,
}

/// A whole interface declaration: a name and its items.
pub struct TraitDecl {
    /// The interface's name.
    pub name: String,
    /// Its items, in declaration order.
    pub items: Vec<TraitItem>,
}

/// Whether a self-parameter is one the generator accepts: a reference,
/// shared or exclusive.
pub open spec fn receiver_ok(r: SelfKind) -> bool {
    r == SelfKind::Ref || r == SelfKind::RefMut
}

/// The first `j` parameters of `m` are plain named bindings.
pub open spec fn params_named_before(m: MethodSig, j: int) -> bool {
    forall|l: int| 0 <= l < j ==> m.params@[l].pattern == ParamPattern::Named
}

/// Every parameter of `m` is a plain named binding.
pub open spec fn all_params_named(m: MethodSig) -> bool {
    params_named_before(m, m.params@.len() as int)
}

/// A method the generator accepts: a reference self-parameter, then only
/// named bindings.
pub open spec fn sig_ok(m: MethodSig) -> bool {
    receiver_ok(m.receiver) && all_params_named(m)
}

/// An item the generator accepts: a method of acceptable shape.
pub open spec fn item_ok(item: TraitItem) -> bool {
    match item {
        TraitItem::Method(m) => sig_ok(m),
        TraitItem::Other => false,
    }
}

/// The first `i` items of `d` are acceptable.
pub open spec fn items_ok_before(d: TraitDecl, i: int) -> bool {
    forall|k: int| 0 <= k < i ==> item_ok(d.items@[k])
}

/// A declaration the generator accepts in full.
pub open spec fn decl_ok(d: TraitDecl) -> bool {
    items_ok_before(d, d.items@.len() as int)
}

} // verus!
