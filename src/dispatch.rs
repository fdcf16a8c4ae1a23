use vstd::prelude::*;

use crate::c_expose::original_of;
use crate::decl::{Forwarder, TraitMethodDecl, Trampoline};
use crate::expand::{param_model, params_model, Param, ParamModel};
use crate::types::strs_of;

verus! {

/// The parameters of an interface method after its receiver.
pub open spec fn method_args(ps: Seq<ParamModel>) -> Seq<ParamModel> {
    if ps.len() > 0 && ps[0] is Receiver {
        ps.skip(1)
    } else {
        ps
    }
}

/// The name under which an argument is passed on (empty for a pattern).
pub open spec fn arg_name(p: ParamModel) -> Seq<char> {
    match p {
        ParamModel::Typed { name, .. } => name,
        _ => Seq::empty(),
    }
}

pub open spec fn arg_names(ps: Seq<ParamModel>) -> Seq<Seq<char>> {
    ps.map_values(|p: ParamModel| arg_name(p))
}

/// Does `f` implement the method `m` of the interface by calling the slot `slot` with
/// `lead` followed by the method's arguments, in order?
pub open spec fn forwards(m: TraitMethodDecl, slot: Seq<char>, lead: Seq<Seq<char>>, f: Forwarder) -> bool {
    &&& f.method@ == m.name@
    &&& params_model(f.params@) == params_model(m.params@)
    &&& f.ret@ == m.ret@
    &&& f.slot@ == slot
    &&& strs_of(f.call_args@) == lead + arg_names(method_args(params_model(m.params@)))
}

/// Is `t`, named `name`, the adapter of the method `m` for a native implementer: it calls the
/// implementer's method `original_of(m)` with the method's arguments, in order, and keeps the
/// implementer for later calls?
pub open spec fn adapts(m: TraitMethodDecl, name: Seq<char>, t: Trampoline) -> bool {
    &&& t.name@ == name
    &&& t.original@ == original_of(m)
    &&& params_model(t.params@) == method_args(params_model(m.params@))
    &&& t.ret@ == m.ret@
    &&& strs_of(t.arg_names@) == arg_names(method_args(params_model(m.params@)))
    &&& t.keeps_receiver
}

/// The arguments of `m` after its receiver, with their names.
fn method_arguments(m: &TraitMethodDecl) -> (r: (Vec<Param>, Vec<String>))
    ensures
        params_model(r.0@) == method_args(params_model(m.params@)),
        strs_of(r.1@) == arg_names(method_args(params_model(m.params@))),
{
    let ghost pm = params_model(m.params@);
    let start: usize = if m.params.len() > 0 && matches!(m.params[0], Param::Receiver { .. }) { 1 } else { 0 };
    let ghost rest = method_args(pm);
    proof {
        assert(rest =~= pm.subrange(start as int, pm.len() as int));
    }
    let mut params: Vec<Param> = Vec::new();
    let mut names: Vec<String> = Vec::new();
    let mut k: usize = start;
    while k < m.params.len()
        invariant
            start <= k <= m.params@.len(),
            pm == params_model(m.params@),
            rest == pm.subrange(start as int, pm.len() as int),
            params@.len() == k - start,
            names@.len() == k - start,
            forall|j: int| 0 <= j < k - start ==> param_model(#[trigger] params@[j]) == rest[j],
            forall|j: int| 0 <= j < k - start ==> (#[trigger] names@[j])@ == arg_name(rest[j]),
        decreases m.params@.len() - k,
    {
        let p = m.params[k].duplicate();
        let n = match &m.params[k] {
            Param::Typed { name, .. } => name.clone(),
            _ => String::new(),
        };
        proof {
            assert(rest[k - start] == pm[k as int]);
        }
        params.push(p);
        names.push(n);
        k += 1;
    }
    proof {
        assert(params_model(params@) =~= rest);
        assert(strs_of(names@) =~= arg_names(rest));
    }
    (params, names)
}

/// The implementation of the method `m` on a dispatch object: a call of the slot `slot`
/// with `lead`, then the method's arguments.
pub fn forwarder_of(m: &TraitMethodDecl, slot: String, lead: Vec<String>) -> (f: Forwarder)
    ensures
        forwards(*m, slot@, strs_of(lead@), f),
{
    let (_, names) = method_arguments(m);
    let mut call_args = lead;
    let ghost l = strs_of(call_args@);
    let mut more = names;
    let ghost nv = strs_of(more@);
    call_args.append(&mut more);
    proof {
        assert(strs_of(call_args@) =~= l + nv);
    }
    let mut params: Vec<Param> = Vec::new();
    let mut k: usize = 0;
    while k < m.params.len()
        invariant
            k <= m.params@.len(),
            params@.len() == k,
            forall|j: int| 0 <= j < k ==> param_model(#[trigger] params@[j]) == param_model(m.params@[j]),
        decreases m.params@.len() - k,
    {
        params.push(m.params[k].duplicate());
        k += 1;
    }
    proof {
        assert(params_model(params@) =~= params_model(m.params@));
    }
    Forwarder { method: m.name.clone(), params, ret: m.ret.duplicate(), slot, call_args }
}

/// The adapter of the method `m` for a native implementer, named `name`.
pub fn trampoline_of(m: &TraitMethodDecl, name: String) -> (t: Trampoline)
    ensures
        adapts(*m, name@, t),
{
    let (params, arg_names) = method_arguments(m);
    let original = match &m.original {
        Some(o) => o.clone(),
        None => m.name.clone(),
    };
    Trampoline { name, original, params, ret: m.ret.duplicate(), arg_names, keeps_receiver: true }
}

} // verus!
