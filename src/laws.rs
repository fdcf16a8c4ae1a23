use vstd::prelude::*;

use crate::c::{c_input, c_output, is_handle_type};
use crate::python::py_input;
use crate::expand::{argument_expansion, is_typed, Param};
use crate::mapping::{InputView, LowerModel, OutputKind, Stmt};
use crate::naming::wire_param_name;
use crate::decl::Trampoline;
use crate::runtime::{after_calls, released_state, Dispatch};
use crate::types::{generic_args, named, plain_path, tuple_of, Ty};

verus! {

/// An expanded argument is rebuilt from exactly its wire parameters: the value grouped
/// before the conversion lists the names of the wire parameters, one each, in order.
pub proof fn lemma_argument_groups_its_wires(name: Seq<char>, i: InputView, args: Seq<Param>, conv: Seq<Stmt>)
    requires
        argument_expansion(name, i, args, conv),
    ensures
        conv[0] matches Stmt::Group { parts, .. } && parts@.len() == args.len()
            && forall|k: int| 0 <= k < args.len() ==> ((#[trigger] args[k]) matches Param::Typed { name: n, .. } && n@ == parts@[k]@),
{
    if let Stmt::Group { parts, .. } = conv[0] {
        assert forall|k: int| 0 <= k < args.len() implies ((#[trigger] args[k]) matches Param::Typed { name: n, .. } && n@ == parts@[k]@) by {
            assert(is_typed(args[k], wire_param_name(name, k as nat), i.sources[k]));
            assert(parts@[k]@ == wire_param_name(name, k as nat));
        }
    }
}

/// Every C input mapping rebuilds a value of the type it was asked for, and every C output
/// mapping that converts a value converts from that type.
pub proof fn lemma_c_mappings_keep_the_native_type(opq: Seq<Seq<char>>, t: Ty)
    ensures
        c_input(opq, t) matches Ok(i) ==> i.target == t,
        c_output(opq, t) matches Ok((_, l)) ==> (l matches LowerModel::MapTo(original) ==> original == t),
{
}

/// Every dynamic-object input mapping rebuilds a value of the type it was asked for.
pub proof fn lemma_py_input_keeps_the_native_type(t: Ty)
    ensures
        py_input(t) matches Ok(i) ==> i.target == t,
{
}

/// A path without generic arguments is no instance of a container; `Container<A, B>` matched
/// against `Container` gives `[A, B]`, in that order.
pub proof fn lemma_match_generic(container: Seq<Seq<char>>, a: Ty, b: Ty)
    ensures
        generic_args(plain_path(container), container) is None,
        generic_args(Ty::Path { segments: container, args: seq![a, b] }, container) == Some(seq![a, b]),
{
}

/// Folding a list of types: none gives `()`, one gives the type itself, two give the ordered
/// pair.
pub proof fn lemma_as_tuple(t: Ty, t1: Ty, t2: Ty)
    ensures
        tuple_of(Seq::empty()) == Ty::Unit,
        tuple_of(seq![t]) == t,
        tuple_of(seq![t1, t2]) == (Ty::Tuple { elems: seq![t1, t2] }),
{
}

/// On the C boundary an optional value travels as exactly one pointer, which is null when
/// there is no value.
pub proof fn lemma_c_option_is_one_pointer(opq: Seq<Seq<char>>, t: Ty)
    requires
        c_output(opq, t) is Ok,
        !is_handle_type(opq, named("Option"@, seq![t])),
    ensures
        c_output(opq, named("Option"@, seq![t])) matches Ok((o, _))
            && o.kind == OutputKind::MapTo && o.targets.len() == 1 && o.targets[0] is Ptr,
{
    let opt = named("Option"@, seq![t]);
    reveal_strlit("Option");
    reveal_strlit("Vec");
    reveal_strlit("String");
    assert(generic_args(opt, seq!["Option"@]) == Some(seq![t]));
    assert("Option"@.len() != "Vec"@.len() || "Option"@[0] != "Vec"@[0]);
    assert(seq!["Option"@][0] != seq!["Vec"@][0]);
    assert("Option"@.len() != "String"@.len() || "Option"@[0] != "String"@[0]);
    assert(seq!["Option"@][0] != seq!["String"@][0]);
}

/// On the C boundary a fallible value travels as a status: its success arm's wire types go
/// through the out-parameter, and its error arm must have exactly one wire type.
pub proof fn lemma_c_result_is_status(opq: Seq<Seq<char>>, ok: Ty, err: Ty)
    requires
        !is_handle_type(opq, named("Result"@, seq![ok, err])),
    ensures
        c_output(opq, named("Result"@, seq![ok, err])) matches Ok((o, _)) ==> {
            &&& o.kind == OutputKind::Fallible
            &&& c_output(opq, ok) matches Ok((okv, _)) && o.targets == okv.targets
            &&& c_output(opq, err) matches Ok((errv, _)) && errv.targets.len() == 1
        },
{
    let res = named("Result"@, seq![ok, err]);
    reveal_strlit("Option");
    reveal_strlit("Vec");
    reveal_strlit("String");
    reveal_strlit("Result");
    assert(generic_args(res, seq!["Result"@]) == Some(seq![ok, err]));
    assert("Result"@.len() != "Vec"@.len() || "Result"@[0] != "Vec"@[0]);
    assert(seq!["Result"@][0] != seq!["Vec"@][0]);
    assert("Result"@.len() != "Option"@.len() || "Result"@[0] != "Option"@[0]);
    assert(seq!["Result"@][0] != seq!["Option"@][0]);
    assert("Result"@.len() != "String"@.len() || "Result"@[0] != "String"@[0]);
    assert(seq!["Result"@][0] != seq!["String"@][0]);
}

/// In the dispatch-object model of `runtime`: however many method calls a dispatch object
/// serves through trampolines that keep their receiver (as every trampoline that
/// `C::expose_trait` emits does), its implementer is released exactly once, by the destructor
/// slot, and releasing the object again releases it no more.
pub proof fn lemma_dispatch_single_release(d: Dispatch, calls: Seq<Trampoline>)
    requires
        !d.released,
        d.destroy_calls == 0,
        d.has_destroy,
        forall|i: int| 0 <= i < calls.len() ==> (#[trigger] calls[i]).keeps_receiver,
    ensures
        released_state(after_calls(d, calls)).destroy_calls == 1,
        released_state(released_state(after_calls(d, calls))).destroy_calls == 1,
    decreases calls.len(),
{
    if calls.len() > 0 {
        lemma_dispatch_single_release(d, calls.drop_last());
        assert(calls.last().keeps_receiver);
    }
}

} // verus!
