use vstd::prelude::*;

use crate::expand::{callback_argument_expansion, conv_fits, CallbackArgument, CallbackReturn};
use crate::c_expose::{method_fn_ty, method_symbol};
use crate::decl::{ExposedFn, ExposedImpl, ExposedStruct, ExposedTrait, FnDecl, ImplDecl, StructDecl, TraitDecl};
use crate::lang::{Backend, Lang, LangError};
use crate::mapping::{
    input_wf, mut_ptr, output_conv_of, output_wf, CustomKind, Input, InputConv, InputKind,
    InputView, LowerModel, Output, OutputKind, OutputView, Stmt,
};
use crate::naming::suffixed_name;
use crate::types::{
    as_tuple, generic_args, is_fixed, lemma_param_tys_of, lemma_tys_of, match_fixed_type,
    match_generic_type, named, one_name, param_names, plain_path, qualified_path, simple_path, strs_of,
    tuple_of, tys_of, BareParam, Ty, TypeExpr,
};

verus! {

/// Errors of the C backend.
#[derive(Debug, Clone, Copy, PartialEq, Eq, Structural)]
pub enum CError {
    Lang(LangError),
    /// An argument of a callback type has no name.
    UnnamedCallbackArguments,
    /// A destructor takes its receiver by reference instead of by value.
    DestructorReceiverArgument,
    /// A result type without exactly two type arguments.
    InvalidResult,
    /// The error arm of a result maps to more than one wire type.
    MultipleErrorTypes,
}

/// The C backend: opaque pointers, out-parameters, status codes and destructor functions.
/// `opaque` names the structs that are exposed behind a pointer.
pub struct C {
    pub opaque: Vec<String>,
}

/// Is `t` one of the opaque struct types `opq`, or `Self`?
pub open spec fn is_handle_type(opq: Seq<Seq<char>>, t: Ty) -> bool {
    ||| t == Ty::SelfType
    ||| exists|k: int| 0 <= k < opq.len() && t == #[trigger] named(opq[k], Seq::empty())
}

pub open spec fn c_char_ty() -> Ty {
    plain_path(seq!["libc"@, "c_char"@])
}

pub open spec fn u8_ty() -> Ty {
    named("u8"@, Seq::empty())
}

pub open spec fn const_ptr(t: Ty) -> Ty {
    Ty::Ptr { mutable: false, elem: Box::new(t) }
}

/// The model of `crate::langs::Arr<t>`: a pointer and a length.
pub open spec fn arr_ty(t: Ty) -> Ty {
    Ty::Path { segments: seq!["crate"@, "langs"@, "Arr"@], args: seq![t] }
}

pub open spec fn map_from_view(t: Ty, sources: Seq<Ty>) -> InputView {
    InputView { kind: InputKind::MapFrom, target: t, sources }
}

/// The C mapping of a type that flows in.
pub open spec fn c_input(opq: Seq<Seq<char>>, t: Ty) -> Result<InputView, CError>
    decreases t,
{
    if is_handle_type(opq, t) {
        Ok(map_from_view(t, seq![mut_ptr(t)]))
    } else if t is Ref && is_handle_type(opq, *t->Ref_elem) {
        Ok(map_from_view(t, seq![Ty::Ptr { mutable: t->Ref_mutable, elem: t->Ref_elem }]))
    } else if is_fixed(t, seq!["String"@]) {
        Ok(map_from_view(t, seq![const_ptr(c_char_ty())]))
    } else if t == (Ty::Array { elem: Box::new(u8_ty()), len: 32 }) {
        Ok(map_from_view(t, seq![const_ptr(u8_ty())]))
    } else if generic_args(t, seq!["Vec"@]) is Some || generic_args(t, seq!["Destroy"@]) is Some {
        let args = t->Path_args;
        let inner = if args.len() == 1 {
            c_input(opq, args[0])
        } else {
            Ok(InputView { kind: InputKind::Unchanged, target: tuple_of(args), sources: seq![tuple_of(args)] })
        };
        match inner {
            Err(e) => Err(e),
            Ok(i) => if generic_args(t, seq!["Vec"@]) is Some {
                Ok(map_from_view(t, seq![arr_ty(tuple_of(i.sources))]))
            } else if args.len() == 1 && is_handle_type(opq, args[0]) {
                // an owned handle is released through the handle itself
                Ok(map_from_view(t, seq![mut_ptr(args[0])]))
            } else {
                Ok(map_from_view(t, seq![mut_ptr(tuple_of(i.sources))]))
            },
        }
    } else if t is BareFn {
        let names = t->BareFn_names;
        if exists|k: int| 0 <= k < names.len() && (#[trigger] names[k]) is None {
            Err(CError::UnnamedCallbackArguments)
        } else {
            match callback_wire(opq, names, t->BareFn_params) {
                Err(e) => Err(e),
                Ok((wire_names, wire_types)) => match c_input(opq, *t->BareFn_ret) {
                    Err(e) => Err(e),
                    Ok(r) => Ok(InputView {
                        kind: InputKind::Custom(CustomKind::Callback),
                        target: t,
                        sources: seq![Ty::BareFn {
                            names: wire_names,
                            params: wire_types,
                            ret: Box::new(tuple_of(r.sources)),
                            extern_c: true,
                        }],
                    }),
                },
            }
        }
    } else {
        Ok(InputView { kind: InputKind::Unchanged, target: t, sources: seq![t] })
    }
}

/// The wire arguments of a callback whose arguments are `names` and `params`: each argument
/// is lowered by the output mapping of its type, and split into one wire argument per wire
/// type, named `<name>_<suffix>`.
pub open spec fn callback_wire(opq: Seq<Seq<char>>, names: Seq<Option<Seq<char>>>, params: Seq<Ty>)
    -> Result<(Seq<Option<Seq<char>>>, Seq<Ty>), CError>
    decreases params,
{
    if params.len() == 0 {
        Ok((Seq::empty(), Seq::empty()))
    } else {
        let k = params.len() - 1;
        match callback_wire(opq, names.take(k), params.take(k)) {
            Err(e) => Err(e),
            Ok((ns, ts)) => match c_output(opq, params[k]) {
                Err(e) => Err(e),
                Ok((o, _)) => Ok((
                    ns + Seq::new(o.targets.len(), |j: int| Some(suffixed_name(names[k]->Some_0, o.suffixes[j]))),
                    ts + o.targets,
                )),
            },
        }
    }
}

pub open spec fn map_to_view(targets: Seq<Ty>, suffixes: Seq<Seq<char>>) -> OutputView {
    OutputView { kind: OutputKind::MapTo, targets, suffixes }
}

/// The C mapping of a type that flows out, with its conversion.
pub open spec fn c_output(opq: Seq<Seq<char>>, t: Ty) -> Result<(OutputView, LowerModel), CError>
    decreases t,
{
    if is_handle_type(opq, t) {
        Ok((OutputView { kind: OutputKind::ByReference, targets: seq![mut_ptr(t)], suffixes: seq![Seq::empty()] }, LowerModel::ByReference))
    } else if is_fixed(t, seq!["String"@]) {
        Ok((map_to_view(seq![mut_ptr(c_char_ty())], seq![Seq::empty()]), LowerModel::MapTo(t)))
    } else if t == (Ty::Ref { mutable: false, elem: Box::new(Ty::Slice { elem: Box::new(u8_ty()) }) }) {
        Ok((map_to_view(seq![const_ptr(u8_ty())], seq![Seq::empty()]), LowerModel::MapTo(t)))
    } else if generic_args(t, seq!["Vec"@]) is Some || generic_args(t, seq!["Option"@]) is Some {
        let args = t->Path_args;
        let inner = if args.len() == 1 {
            c_output(opq, args[0])
        } else {
            Ok((OutputView { kind: OutputKind::Unchanged, targets: seq![tuple_of(args)], suffixes: seq![Seq::empty()] }, LowerModel::PassThrough))
        };
        match inner {
            Err(e) => Err(e),
            Ok((o, _)) => if generic_args(t, seq!["Vec"@]) is Some {
                Ok((map_to_view(seq![mut_ptr(tuple_of(o.targets)), named("usize"@, Seq::empty())], seq!["arr"@, "len"@]), LowerModel::MapTo(t)))
            } else if o.targets.len() == 1 && o.targets[0] is Ptr {
                Ok((map_to_view(o.targets, seq![Seq::empty()]), LowerModel::MapTo(t)))
            } else {
                Ok((map_to_view(seq![mut_ptr(tuple_of(o.targets))], seq![Seq::empty()]), LowerModel::MapTo(t)))
            },
        }
    } else if generic_args(t, seq!["Result"@]) is Some {
        let args = t->Path_args;
        if args.len() != 2 {
            Err(CError::InvalidResult)
        } else {
            match c_output(opq, args[0]) {
                Err(e) => Err(e),
                Ok((ok, ok_lower)) => match c_output(opq, args[1]) {
                    Err(e) => Err(e),
                    Ok((err, _)) => if err.targets.len() != 1 {
                        Err(CError::MultipleErrorTypes)
                    } else {
                        Ok((
                            OutputView { kind: OutputKind::Fallible, targets: ok.targets, suffixes: ok.suffixes },
                            LowerModel::Fallible(Box::new(ok_lower)),
                        ))
                    },
                },
            }
        }
    } else {
        Ok((OutputView { kind: OutputKind::Unchanged, targets: seq![t], suffixes: seq![Seq::empty()] }, LowerModel::PassThrough))
    }
}

/// Once a prefix of a callback's arguments is refused, so is every longer prefix.
pub proof fn lemma_callback_wire_err(opq: Seq<Seq<char>>, names: Seq<Option<Seq<char>>>, params: Seq<Ty>, m: int, e: CError)
    requires
        0 <= m <= params.len(),
        names.len() == params.len(),
        callback_wire(opq, names.take(m), params.take(m)) == Err::<(Seq<Option<Seq<char>>>, Seq<Ty>), CError>(e),
    ensures
        callback_wire(opq, names, params) == Err::<(Seq<Option<Seq<char>>>, Seq<Ty>), CError>(e),
    decreases params.len() - m,
{
    if m < params.len() {
        let n2 = names.take(m + 1);
        let p2 = params.take(m + 1);
        assert(n2.take(m) =~= names.take(m));
        assert(p2.take(m) =~= params.take(m));
        assert(callback_wire(opq, n2, p2) == Err::<(Seq<Option<Seq<char>>>, Seq<Ty>), CError>(e));
        lemma_callback_wire_err(opq, names, params, m + 1, e);
    } else {
        assert(names.take(m) =~= names);
        assert(params.take(m) =~= params);
    }
}

pub proof fn lemma_param_tys_of_append(a: Seq<BareParam>, b: Seq<BareParam>)
    ensures
        crate::types::param_tys_of(a + b) == crate::types::param_tys_of(a) + crate::types::param_tys_of(b),
{
    lemma_param_tys_of(a);
    lemma_param_tys_of(b);
    lemma_param_tys_of(a + b);
    assert(crate::types::param_tys_of(a + b) =~= crate::types::param_tys_of(a) + crate::types::param_tys_of(b));
}

/// Do the statements `2j` and `2j + 1` of `conv` lower the callback argument `name` of type
/// `t` under its C output mapping, and split it into its wire arguments?
pub open spec fn lowers_callback_arg(opq: Seq<Seq<char>>, conv: Seq<Stmt>, j: int, name: Seq<char>, t: Ty) -> bool {
    &&& conv[2 * j] matches Stmt::Lower { name: n, lower }
        && n@ == name
        && (c_output(opq, t) matches Ok((_, l)) && crate::mapping::lower_model(lower) == l)
    &&& conv[2 * j + 1] matches Stmt::Ungroup { name: n, .. } && n@ == name
}

/// The names among `ns`, the absent ones read as empty.
pub open spec fn given_names(ns: Seq<Option<Seq<char>>>) -> Seq<Seq<char>> {
    ns.map_values(|o: Option<Seq<char>>| match o {
        Some(n) => n,
        None => Seq::<char>::empty(),
    })
}

/// `crate::langs::Arr<t>`.
pub fn arr_path(t: TypeExpr) -> (r: TypeExpr)
    ensures
        r@ == arr_ty(t@),
{
    let mut segments: Vec<String> = Vec::new();
    segments.push(String::from_str("crate"));
    segments.push(String::from_str("langs"));
    segments.push(String::from_str("Arr"));
    let ghost tv = t@;
    let mut args: Vec<TypeExpr> = Vec::new();
    args.push(t);
    proof {
        assert(strs_of(segments@) =~= seq!["crate"@, "langs"@, "Arr"@]);
        lemma_tys_of(args@);
        assert(tys_of(args@) =~= seq![tv]);
    }
    TypeExpr::Path { segments, args }
}

/// A list of one type.
pub fn single(t: TypeExpr) -> (r: Vec<TypeExpr>)
    ensures
        tys_of(r@) == seq![t@],
        r@ == seq![t],
{
    let mut r: Vec<TypeExpr> = Vec::new();
    r.push(t);
    proof {
        lemma_tys_of(r@);
        assert(tys_of(r@) =~= seq![t@]);
    }
    r
}

impl C {
    pub open spec fn opaque_names(&self) -> Seq<Seq<char>> {
        strs_of(self.opaque@)
    }

    pub fn new(opaque: Vec<String>) -> (r: C)
        ensures
            r.opaque == opaque,
    {
        C { opaque }
    }

    /// Is `ty` one of the opaque struct types, or `Self`?
    pub fn is_handle(&self, ty: &TypeExpr) -> (r: bool)
        ensures
            r == is_handle_type(self.opaque_names(), ty@),
    {
        match ty {
            TypeExpr::SelfType => true,
            TypeExpr::Path { segments, args } => {
                proof {
                    lemma_tys_of(args@);
                }
                if segments.len() != 1 || args.len() != 0 {
                    proof {
                        if is_handle_type(self.opaque_names(), ty@) {
                            let k = choose|k: int| 0 <= k < self.opaque_names().len() && ty@ == #[trigger] named(self.opaque_names()[k], Seq::empty());
                            assert(strs_of(segments@).len() == 1);
                        }
                    }
                    return false;
                }
                let mut k: usize = 0;
                while k < self.opaque.len()
                    invariant
                        k <= self.opaque@.len(),
                        segments@.len() == 1,
                        args@.len() == 0,
                        ty@ == (Ty::Path { segments: strs_of(segments@), args: tys_of(args@) }),
                        forall|j: int| 0 <= j < k ==> self.opaque@[j]@ != segments@[0]@,
                    decreases self.opaque@.len() - k,
                {
                    if self.opaque[k] == segments[0] {
                        proof {
                            assert(strs_of(segments@) =~= seq![self.opaque@[k as int]@]);
                            assert(self.opaque_names()[k as int] == self.opaque@[k as int]@);
                            assert(tys_of(args@) =~= Seq::<Ty>::empty());
                            assert(ty@ == named(self.opaque_names()[k as int], Seq::empty()));
                        }
                        return true;
                    }
                    k += 1;
                }
                proof {
                    if is_handle_type(self.opaque_names(), ty@) {
                        let j = choose|j: int| 0 <= j < self.opaque_names().len() && ty@ == #[trigger] named(self.opaque_names()[j], Seq::empty());
                        assert(strs_of(segments@)[0] == segments@[0]@);
                    }
                }
                false
            },
            _ => false,
        }
    }
}


impl C {
    /// The C mapping of a type that flows in.
    #[verifier::loop_isolation(false)]
    pub fn convert_input_c(&self, ty: &TypeExpr) -> (r: Result<Input, CError>)
        ensures
            match r {
                Ok(i) => input_wf(i) && c_input(self.opaque_names(), ty@) == Ok::<InputView, CError>(i@),
                Err(e) => c_input(self.opaque_names(), ty@) == Err::<InputView, CError>(e),
            },
            r matches Ok(Input::Custom { conv: InputConv::Callback { call_args, ret_conv, .. }, sources, .. }) ==> (
                ty@ is BareFn
                && sources@.len() == 1
                && sources@[0]@ is BareFn
                && strs_of(call_args@) == given_names(sources@[0]@->BareFn_names)
                && (c_input(self.opaque_names(), *ty@->BareFn_ret) matches Ok(ri) && conv_fits(*ret_conv, ri))),
            r matches Ok(Input::Custom { conv: InputConv::Callback { arg_conv, .. }, .. }) ==> (
                ty@ is BareFn
                && arg_conv@.len() == 2 * ty@->BareFn_params.len()
                && forall|j: int| 0 <= j < ty@->BareFn_params.len() ==> lowers_callback_arg(
                    self.opaque_names(), arg_conv@, j, (#[trigger] ty@->BareFn_names[j])->Some_0, ty@->BareFn_params[j])),
        decreases ty@, 1nat,
    {
        let ghost opq = self.opaque_names();
        if self.is_handle(ty) {
            let sources = single(TypeExpr::Ptr { mutable: true, elem: Box::new(ty.duplicate()) });
            return Ok(Input::new_map_from(ty.duplicate(), sources));
        }
        if let TypeExpr::Ref { mutable, elem } = ty {
            if self.is_handle(elem) {
                let sources = single(TypeExpr::Ptr { mutable: *mutable, elem: Box::new((**elem).duplicate()) });
                return Ok(Input::new_map_from(ty.duplicate(), sources));
            }
        }
        if match_fixed_type(ty, &one_name("String")) {
            let sources = single(TypeExpr::Ptr { mutable: false, elem: Box::new(qualified_path("libc", "c_char")) });
            return Ok(Input::new_map_from(ty.duplicate(), sources));
        }
        if let TypeExpr::Array { elem, len } = ty {
            if *len == 32 && match_fixed_type(elem, &one_name("u8")) {
                let sources = single(TypeExpr::Ptr { mutable: false, elem: Box::new(simple_path("u8")) });
                proof {
                    assert(plain_path(seq!["u8"@]) == u8_ty());
                }
                return Ok(Input::new_map_from(ty.duplicate(), sources));
            }
        }
        proof {
            assert(!(ty@ == (Ty::Array { elem: Box::new(u8_ty()), len: 32 })) || ty@ is Array);
        }
        let vec_args = match_generic_type(ty, &one_name("Vec"));
        let generic = match vec_args {
            Some(a) => Some((a, true)),
            None => match match_generic_type(ty, &one_name("Destroy")) {
                Some(a) => Some((a, false)),
                None => None,
            },
        };
        if let Some((args, is_vec)) = generic {
            proof {
                lemma_tys_of(args@);
            }
            let owned_handle = !is_vec && args.len() == 1 && self.is_handle(&args[0]);
            if owned_handle {
                proof {
                    assert(tys_of(args@)[0] == args@[0]@);
                    assert(decreases_to!(ty@ => args@[0]@));
                }
                let inner = self.convert_input_c(&args[0])?;
                let sources = single(TypeExpr::Ptr { mutable: true, elem: Box::new(args[0].duplicate()) });
                return Ok(Input::new_map_from(ty.duplicate(), sources));
            }
            let inner = if args.len() == 1 {
                proof {
                    assert(tys_of(args@)[0] == args@[0]@);
                    assert(decreases_to!(ty@ => args@[0]@));
                }
                self.convert_input_c(&args[0])?
            } else {
                Input::new_unchanged(as_tuple(args))
            };
            let wire = as_tuple(inner.get_sources());
            let sources = if is_vec {
                single(arr_path(wire))
            } else {
                single(TypeExpr::Ptr { mutable: true, elem: Box::new(wire) })
            };
            return Ok(Input::new_map_from(ty.duplicate(), sources));
        }
        if let TypeExpr::BareFn { .. } = ty {
            return self.convert_callback_c(ty);
        }
        Ok(Input::new_unchanged(ty.duplicate()))
    }

    /// The C mapping of a callback type: an `extern "C"` function pointer whose arguments are
    /// the lowered arguments of the callback, wrapped into a native closure.
    #[verifier::loop_isolation(false)]
    #[verifier::rlimit(50)]
    pub fn convert_callback_c(&self, ty: &TypeExpr) -> (r: Result<Input, CError>)
        requires
            ty@ is BareFn,
        ensures
            match r {
                Ok(i) => input_wf(i) && c_input(self.opaque_names(), ty@) == Ok::<InputView, CError>(i@),
                Err(e) => c_input(self.opaque_names(), ty@) == Err::<InputView, CError>(e),
            },
            r matches Ok(Input::Custom { conv: InputConv::Callback { call_args, ret_conv, .. }, sources, .. }) ==> (
                ty@ is BareFn
                && sources@.len() == 1
                && sources@[0]@ is BareFn
                && strs_of(call_args@) == given_names(sources@[0]@->BareFn_names)
                && (c_input(self.opaque_names(), *ty@->BareFn_ret) matches Ok(ri) && conv_fits(*ret_conv, ri))),
            r matches Ok(Input::Custom { conv: InputConv::Callback { arg_conv, .. }, .. }) ==> (
                ty@ is BareFn
                && arg_conv@.len() == 2 * ty@->BareFn_params.len()
                && forall|j: int| 0 <= j < ty@->BareFn_params.len() ==> lowers_callback_arg(
                    self.opaque_names(), arg_conv@, j, (#[trigger] ty@->BareFn_names[j])->Some_0, ty@->BareFn_params[j])),
        decreases ty@, 0nat,
    {
        let ghost opq = self.opaque_names();
        if let TypeExpr::BareFn { params, ret, .. } = ty {
            proof {
                lemma_param_tys_of(params@);
            }
            let ghost names = param_names(params@);
            let ghost ptys = crate::types::param_tys_of(params@);
            let mut k: usize = 0;
            while k < params.len()
                invariant
                    k <= params@.len(),
                    names == param_names(params@),
                    forall|j: int| 0 <= j < k ==> !((#[trigger] names[j]) is None),
                decreases params@.len() - k,
            {
                if params[k].name.is_none() {
                    proof {
                        assert(names[k as int] is None);
                    }
                    return Err(CError::UnnamedCallbackArguments);
                }
                k += 1;
            }
            let mut wire_params: Vec<BareParam> = Vec::new();
            let mut arg_conv: Vec<Stmt> = Vec::new();
            let mut call_args: Vec<String> = Vec::new();
            k = 0;
            proof {
                assert(strs_of(call_args@) =~= given_names(param_names(wire_params@)));
                assert(names.take(0) =~= Seq::<Option<Seq<char>>>::empty());
                assert(ptys.take(0) =~= Seq::<Ty>::empty());
                assert(param_names(wire_params@) =~= Seq::<Option<Seq<char>>>::empty());
                assert(crate::types::param_tys_of(wire_params@) =~= Seq::<Ty>::empty());
            }
            while k < params.len()
                invariant
                    k <= params@.len(),
                    opq == self.opaque_names(),
                    names == param_names(params@),
                    ptys == crate::types::param_tys_of(params@),
                    ptys.len() == params@.len(),
                    forall|j: int| 0 <= j < params@.len() ==> #[trigger] ptys[j] == params@[j].ty@,
                    forall|j: int| 0 <= j < params@.len() ==> !((#[trigger] names[j]) is None),
                    ty@ == (Ty::BareFn { names, params: ptys, ret: Box::new(ret@), extern_c: ty@->BareFn_extern_c }),
                    callback_wire(opq, names.take(k as int), ptys.take(k as int)) == Ok::<(Seq<Option<Seq<char>>>, Seq<Ty>), CError>(
                        (param_names(wire_params@), crate::types::param_tys_of(wire_params@)),
                    ),
                    strs_of(call_args@) == given_names(param_names(wire_params@)),
                    arg_conv@.len() == 2 * k,
                    forall|j: int| 0 <= j < k ==> lowers_callback_arg(opq, arg_conv@, j, (#[trigger] names[j])->Some_0, ptys[j]),
                decreases params@.len() - k,
            {
                let name = match &params[k].name {
                    Some(n) => n.clone(),
                    None => String::new(),
                };
                proof {
                    assert(decreases_to!(ty@ => ptys[k as int]));
                }
                let out = match self.convert_output_c(&params[k].ty) {
                    Ok(o) => o,
                    Err(e) => {
                        proof {
                            let n2 = names.take(k + 1);
                            let p2 = ptys.take(k + 1);
                            assert(n2.take(k as int) =~= names.take(k as int));
                            assert(p2.take(k as int) =~= ptys.take(k as int));
                            assert(p2[k as int] == params@[k as int].ty@);
                            assert(names.len() == ptys.len());
                            lemma_callback_wire_err(opq, names, ptys, k + 1, e);
                        }
                        return Err(e);
                    },
                };
                let e = CallbackArgument::expand(&name, &out);
                proof {
                    let n2 = names.take(k + 1);
                    let p2 = ptys.take(k + 1);
                    assert(n2.take(k as int) =~= names.take(k as int));
                    assert(p2.take(k as int) =~= ptys.take(k as int));
                    assert(p2[k as int] == params@[k as int].ty@);
                    assert(n2[k as int]->Some_0 == name@);
                    lemma_param_tys_of_append(wire_params@, e.args@);
                    lemma_param_tys_of(e.args@);
                    let o = out@;
                    assert(param_names(wire_params@ + e.args@) =~= param_names(wire_params@)
                        + Seq::new(o.targets.len(), |j: int| Some(suffixed_name(n2[k as int]->Some_0, o.suffixes[j]))));
                    assert(crate::types::param_tys_of(e.args@) =~= o.targets);
                }
                let mut more = e.args;
                let ghost ca_before = strs_of(call_args@);
                let mut j: usize = 0;
                while j < more.len()
                    invariant
                        j <= more@.len(),
                        forall|i: int| 0 <= i < more@.len() ==> (#[trigger] more@[i]).name is Some,
                        strs_of(call_args@) == ca_before + given_names(param_names(more@.take(j as int))),
                    decreases more@.len() - j,
                {
                    proof {
                        assert(more@.take(j + 1) =~= more@.take(j as int).push(more@[j as int]));
                        assert(param_names(more@.take(j + 1)) =~= param_names(more@.take(j as int)).push(crate::types::name_of(more@[j as int].name)));
                    }
                    let n = match &more[j].name {
                        Some(n) => n.clone(),
                        None => String::new(),
                    };
                    let ghost before_push = strs_of(call_args@);
                    call_args.push(n);
                    proof {
                        assert(n@ == more@[j as int].name->Some_0@);
                        assert(strs_of(call_args@) =~= before_push.push(n@));
                        assert(given_names(param_names(more@.take(j + 1))) =~= given_names(param_names(more@.take(j as int))).push(n@));
                        assert(strs_of(call_args@) =~= ca_before + given_names(param_names(more@.take(j + 1))));
                    }
                    j += 1;
                }
                proof {
                    assert(more@.take(more@.len() as int) =~= more@);
                }
                let ghost wp_before = wire_params@;
                let ghost more_all = more@;
                wire_params.append(&mut more);
                proof {
                    assert(param_names(wire_params@) =~= param_names(wp_before) + param_names(more_all));
                    assert(given_names(param_names(wire_params@)) =~= given_names(param_names(wp_before)) + given_names(param_names(more_all)));
                }
                let ghost ac_before = arg_conv@;
                let ghost econv = e.conv@;
                let mut conv = e.conv;
                arg_conv.append(&mut conv);
                proof {
                    assert(callback_argument_expansion(name@, out@, crate::mapping::output_conv_of(out), e));
                    assert forall|j: int| 0 <= j < k + 1 implies lowers_callback_arg(opq, arg_conv@, j, (#[trigger] names[j])->Some_0, ptys[j]) by {
                        if j < k {
                            assert(arg_conv@[2 * j] == ac_before[2 * j]);
                            assert(arg_conv@[2 * j + 1] == ac_before[2 * j + 1]);
                        } else {
                            assert(arg_conv@[2 * j] == econv[0]);
                            assert(arg_conv@[2 * j + 1] == econv[1]);
                            assert(names[j]->Some_0 == name@);
                        }
                    }
                }
                k += 1;
            }
            proof {
                assert(names.take(params@.len() as int) =~= names);
                assert(ptys.take(params@.len() as int) =~= ptys);
                assert(decreases_to!(ty@ => ret@));
            }
            let rin = self.convert_input_c(ret)?;
            let er = CallbackReturn::expand(rin);
            let wire_fn = TypeExpr::BareFn { params: wire_params, ret: Box::new(er.ret), extern_c: true };
            let conv = InputConv::Callback {
                params: crate::types::duplicate_params(params),
                arg_conv,
                call_args,
                ret_conv: Box::new(er.conv),
            };
            let sources = single(wire_fn);
            return Ok(Input::new_custom(ty.duplicate(), sources, conv));
        }
        proof {
            assert(false);
        }
        Err(CError::UnnamedCallbackArguments)
    }

    /// The C mapping of a type that flows out.
    pub fn convert_output_c(&self, ty: &TypeExpr) -> (r: Result<Output, CError>)
        ensures
            match r {
                Ok(o) => output_wf(o) && c_output(self.opaque_names(), ty@) == Ok::<(OutputView, LowerModel), CError>((o@, output_conv_of(o))),
                Err(e) => c_output(self.opaque_names(), ty@) == Err::<(OutputView, LowerModel), CError>(e),
            },
        decreases ty@,
    {
        if self.is_handle(ty) {
            return Ok(Output::ByReference(ty.duplicate()));
        }
        proof {
            assert(plain_path(seq!["u8"@]) == u8_ty());
            reveal_with_fuel(crate::types::ty_of, 3);
        }
        if match_fixed_type(ty, &one_name("String")) {
            let target = TypeExpr::Ptr { mutable: true, elem: Box::new(qualified_path("libc", "c_char")) };
            let r = Output::new_map_to_single(ty.duplicate(), target);
            assert(r@ == map_to_view(seq![mut_ptr(c_char_ty())], seq![Seq::empty()]));
            assert(output_conv_of(r) == LowerModel::MapTo(ty@));
            assert(c_output(self.opaque_names(), ty@) == Ok::<(OutputView, LowerModel), CError>((map_to_view(seq![mut_ptr(c_char_ty())], seq![Seq::empty()]), LowerModel::MapTo(ty@))));
            return Ok(r);
        }
        if let TypeExpr::Ref { mutable, elem } = ty {
            if let TypeExpr::Slice { elem: inner } = &**elem {
                if !*mutable && match_fixed_type(inner, &one_name("u8")) {
                    proof {
                        assert(plain_path(seq!["u8"@]) == u8_ty());
                    }
                    let target = TypeExpr::Ptr { mutable: false, elem: Box::new(simple_path("u8")) };
                    return Ok(Output::new_map_to_single(ty.duplicate(), target));
                }
            }
        }
        let vec_args = match_generic_type(ty, &one_name("Vec"));
        let generic = match vec_args {
            Some(a) => Some((a, true)),
            None => match match_generic_type(ty, &one_name("Option")) {
                Some(a) => Some((a, false)),
                None => None,
            },
        };
        if let Some((args, is_vec)) = generic {
            proof {
                lemma_tys_of(args@);
            }
            let inner = if args.len() == 1 {
                proof {
                    assert(tys_of(args@)[0] == args@[0]@);
                    assert(decreases_to!(ty@ => args@[0]@));
                }
                self.convert_output_c(&args[0])?
            } else {
                Output::new_unchanged(as_tuple(args))
            };
            let mut targets = inner.get_targets();
            proof {
                lemma_tys_of(targets@);
            }
            if is_vec {
                let mut wire: Vec<TypeExpr> = Vec::new();
                wire.push(TypeExpr::Ptr { mutable: true, elem: Box::new(as_tuple(targets)) });
                wire.push(simple_path("usize"));
                let mut suffixes: Vec<String> = Vec::new();
                suffixes.push(String::from_str("arr"));
                suffixes.push(String::from_str("len"));
                proof {
                    lemma_tys_of(wire@);
                    assert(strs_of(suffixes@) =~= seq!["arr"@, "len"@]);
                }
                let r = Output::new_map_to_suffix(ty.duplicate(), wire, suffixes);
                proof {
                    assert(r@.targets =~= seq![mut_ptr(tuple_of(inner@.targets)), named("usize"@, Seq::empty())]);
                }
                return Ok(r);
            }
            let pointer = targets.len() == 1 && match &targets[0] {
                TypeExpr::Ptr { .. } => true,
                _ => false,
            };
            if pointer {
                let ghost before = targets@;
                let t = targets.pop().unwrap();
                proof {
                    assert(before == targets@.push(t));
                    assert(t == before[0]);
                    assert(tys_of(before)[0] == t@);
                }
                let r = Output::new_map_to_single(ty.duplicate(), t);
                proof {
                    assert(r@.targets =~= inner@.targets);
                }
                return Ok(r);
            }
            let target = TypeExpr::Ptr { mutable: true, elem: Box::new(as_tuple(targets)) };
            return Ok(Output::new_map_to_single(ty.duplicate(), target));
        }
        if let Some(args) = match_generic_type(ty, &one_name("Result")) {
            proof {
                lemma_tys_of(args@);
            }
            if args.len() != 2 {
                return Err(CError::InvalidResult);
            }
            proof {
                assert(tys_of(args@)[0] == args@[0]@);
                assert(tys_of(args@)[1] == args@[1]@);
                assert(decreases_to!(ty@ => args@[0]@));
                assert(decreases_to!(ty@ => args@[1]@));
            }
            let ok = self.convert_output_c(&args[0])?;
            let err = self.convert_output_c(&args[1])?;
            let err_targets = err.get_targets();
            proof {
                lemma_tys_of(err_targets@);
            }
            if err_targets.len() != 1 {
                return Err(CError::MultipleErrorTypes);
            }
            return Ok(Output::Fallible { original: ty.duplicate(), ok: Box::new(ok), err: Box::new(err) });
        }
        Ok(Output::new_unchanged(ty.duplicate()))
    }
}

impl Lang for C {
    type Error = CError;

    open spec fn input_model(&self, t: Ty) -> Result<InputView, CError> {
        c_input(self.opaque_names(), t)
    }

    open spec fn output_model(&self, t: Ty) -> Result<(OutputView, LowerModel), CError> {
        c_output(self.opaque_names(), t)
    }

    open spec fn wraps(e: LangError) -> CError {
        CError::Lang(e)
    }

    fn lang_error(e: LangError) -> (r: CError) {
        CError::Lang(e)
    }

    fn convert_input(&self, ty: &TypeExpr) -> (r: Result<Input, CError>) {
        self.convert_input_c(ty)
    }

    fn convert_output(&self, ty: &TypeExpr) -> (r: Result<Output, CError>) {
        self.convert_output_c(ty)
    }
}

impl Backend for C {
    open spec fn fn_accepted(&self, f: FnDecl, mod_path: Seq<Seq<char>>) -> bool {
        self.fn_ok(f)
    }

    open spec fn struct_accepted(&self, st: StructDecl) -> bool {
        true
    }

    open spec fn impl_accepted(&self, imp: ImplDecl) -> bool {
        forall|k: int| 0 <= k < imp.methods@.len() ==> self.fn_ok(#[trigger] imp.methods@[k])
    }

    open spec fn trait_accepted(&self, tr: TraitDecl) -> bool {
        forall|k: int| 0 <= k < tr.methods@.len()
            ==> c_input(self.opaque_names(), method_fn_ty(#[trigger] tr.methods@[k])) is Ok
    }

    fn expose_function(&self, f: FnDecl, mod_path: &Vec<String>) -> (r: Result<ExposedFn, CError>) {
        let ghost fg = f;
        let r = C::expose_fn(self, f);
        proof {
            self.lemma_fn_exposed_ok(fg, fg.name@, r);
        }
        r
    }

    fn expose_structure(&self, st: StructDecl) -> (r: Result<ExposedStruct, CError>) {
        C::expose_struct(self, st)
    }

    fn expose_implementation(&self, imp: ImplDecl) -> (r: Result<ExposedImpl, CError>) {
        let ghost ig = imp;
        let r = C::expose_impl(self, imp);
        proof {
            match &r {
                Ok(x) => {
                    assert forall|k: int| 0 <= k < ig.methods@.len() implies self.fn_ok(#[trigger] ig.methods@[k]) by {
                        let name = method_symbol(ig.self_ty@, ig.methods@[k].name@);
                        assert(self.fn_exposed(ig.methods@[k], name, Ok::<ExposedFn, CError>(x.methods@[k])));
                        self.lemma_fn_exposed_ok(ig.methods@[k], name, Ok::<ExposedFn, CError>(x.methods@[k]));
                    }
                },
                Err(e) => {
                    let e = *e;
                    let k = choose|k: int| 0 <= k < ig.methods@.len() && #[trigger] self.fn_exposed(
                        ig.methods@[k],
                        method_symbol(ig.self_ty@, ig.methods@[k].name@),
                        Err::<ExposedFn, CError>(e),
                    );
                    self.lemma_fn_exposed_ok(ig.methods@[k], method_symbol(ig.self_ty@, ig.methods@[k].name@), Err::<ExposedFn, CError>(e));
                },
            }
        }
        r
    }

    fn expose_interface(&self, tr: TraitDecl) -> (r: Result<ExposedTrait, CError>) {
        let ghost tg = tr;
        let r = C::expose_trait(self, tr);
        proof {
            if let Ok(x) = &r {
                assert forall|k: int| 0 <= k < tg.methods@.len()
                    implies c_input(self.opaque_names(), method_fn_ty(#[trigger] tg.methods@[k])) is Ok by {
                    assert(self.slot_fits(tg.methods@[k], x.slots@[k]));
                }
            }
            if let Err(e) = r {
                let k = choose|k: int| 0 <= k < tg.methods@.len()
                    && c_input(self.opaque_names(), method_fn_ty(#[trigger] tg.methods@[k])) == Err::<InputView, CError>(e);
                assert(!(c_input(self.opaque_names(), method_fn_ty(tg.methods@[k])) is Ok));
            }
        }
        r
    }
}

} // verus!
