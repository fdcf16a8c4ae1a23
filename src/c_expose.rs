use vstd::prelude::*;

use crate::c::{c_input, c_output, CError, C};
use crate::dispatch::{adapts, forwarder_of, forwards, trampoline_of};
use crate::mapping::{CustomKind, Input, InputKind, InputView};
use crate::decl::{
    has_marker, Body, Emit, ExposeStructOpts, ExposedField, ExposedFn, ExposedImpl,
    ExposedStruct, FieldDecl, FnDecl, ImplDecl, Marker, StructDecl, TraitDecl, TraitMethodDecl,
    DispatchKind, DispatchSlot, ExposedTrait, Forwarder, Trampoline,
};
use crate::expand::{
    args_model, convert_fn_args, params_model, prologue_rebuilds, rebuilt_args, return_expansion, ExpandedReturn, Param,
    ParamModel, Return,
};
use crate::lang::{snake_of, ToSnakeCase};
use crate::types::{match_fixed_type, one_name, plain_path, qualified_path, BareParam, generic_path, named, strs_of, tys_of, wrapped_field_type, wrapped_ty, Ty, TypeExpr};

verus! {

/// The model of `Destroy<t>`: an owned value that the callee releases.
pub open spec fn destroy_of(t: Ty) -> Ty {
    named("Destroy"@, seq![t])
}

/// A destructor's parameter: its type wrapped in `Destroy`.
pub open spec fn destructor_param(p: ParamModel) -> ParamModel {
    match p {
        ParamModel::Typed { name, ty } => ParamModel::Typed { name, ty: destroy_of(ty) },
        ParamModel::Pattern { ty } => ParamModel::Pattern { ty: destroy_of(ty) },
        _ => p,
    }
}

pub open spec fn has_receiver(ps: Seq<ParamModel>) -> bool {
    exists|k: int| 0 <= k < ps.len() && (#[trigger] ps[k]) is Receiver
}

/// The parts of an emitted function that its return type decides.
pub open spec fn return_part(x: ExposedFn) -> ExpandedReturn {
    ExpandedReturn { ret: x.ret, extra_args: x.out_params, conv: x.epilogue, result: x.result }
}

impl C {
    /// Is `r` the C rewrite of the function `f`, emitted under the name `name`: a destructor's
    /// parameters are owned values, each parameter becomes its wire parameters, the return
    /// value is lowered, and the function gets a stable C symbol?
    pub open spec fn fn_exposed(&self, f: FnDecl, name: Seq<char>, r: Result<ExposedFn, CError>) -> bool {
        let ps = params_model(f.params@);
        let destructor = f.markers@.contains(Marker::Destructor);
        if destructor && has_receiver(ps) {
            r == Err::<ExposedFn, CError>(CError::DestructorReceiverArgument)
        } else {
            let ps2 = if destructor { ps.map_values(|p: ParamModel| destructor_param(p)) } else { ps };
            match args_model(*self, ps2) {
                Err(e) => r == Err::<ExposedFn, CError>(e),
                Ok(args) => match c_output(self.opaque_names(), f.ret@) {
                    Err(e) => r == Err::<ExposedFn, CError>(e),
                    Ok((o, l)) => r matches Ok(x) && {
                        &&& x.name@ == name
                        &&& x.source@ == f.name@
                        &&& x.emit@ == seq![Emit::ExternC]
                        &&& params_model(x.params@) == args
                        &&& prologue_rebuilds(rebuilt_args(*self, ps2), x.prologue@)
                        &&& return_expansion("__output"@, "__ptr_out"@, o, l, return_part(x))
                        &&& x.body == f.body
                    },
                },
            }
        }
    }

    /// Does the C backend accept the function `f`: a destructor takes no receiver, and every
    /// parameter and the return type have a mapping?
    pub open spec fn fn_ok(&self, f: FnDecl) -> bool {
        let ps = params_model(f.params@);
        let destructor = f.markers@.contains(Marker::Destructor);
        &&& !(destructor && has_receiver(ps))
        &&& args_model(*self, if destructor { ps.map_values(|p: ParamModel| destructor_param(p)) } else { ps }) is Ok
        &&& c_output(self.opaque_names(), f.ret@) is Ok
    }

    /// The C rewrite of a function succeeds exactly when the backend accepts it.
    pub proof fn lemma_fn_exposed_ok(&self, f: FnDecl, name: Seq<char>, r: Result<ExposedFn, CError>)
        requires
            self.fn_exposed(f, name, r),
        ensures
            r is Ok <==> self.fn_ok(f),
    {
    }

    /// A getter of a wrapped field is always accepted.
    pub proof fn lemma_getter_ok(&self, f: FnDecl)
        requires
            f.markers@ == seq![Marker::Getter],
            params_model(f.params@) == seq![ParamModel::Receiver { reference: true, mutable: true }],
            is_plain_int(f.ret@) || f.ret@ is Ptr,
        ensures
            self.fn_ok(f),
    {
        let ps = params_model(f.params@);
        assert(ps.take(0) =~= Seq::<ParamModel>::empty());
        assert(args_model(*self, ps.take(0)) == Ok::<Seq<ParamModel>, CError>(Seq::empty()));
        assert(!f.markers@.contains(Marker::Destructor)) by {
            assert(f.markers@[0] != Marker::Destructor);
        }
        assert(args_model(*self, ps) is Ok);
    }

    /// A setter of a wrapped field is always accepted.
    pub proof fn lemma_setter_ok(&self, f: FnDecl, name: Seq<char>, t: Ty)
        requires
            f.markers@ == seq![Marker::Setter],
            params_model(f.params@) == seq![
                ParamModel::Receiver { reference: true, mutable: true },
                ParamModel::Typed { name, ty: t },
            ],
            is_plain_int(t) || t is Ref,
            f.ret@ == Ty::Unit,
        ensures
            self.fn_ok(f),
    {
        let ps = params_model(f.params@);
        assert(ps.take(1).take(0) =~= Seq::<ParamModel>::empty());
        assert(ps.take(1) =~= seq![ParamModel::Receiver { reference: true, mutable: true }]);
        assert(ps.take(1)[0] is Receiver);
        assert(args_model(*self, ps.take(1).take(0)) == Ok::<Seq<ParamModel>, CError>(Seq::empty()));
        assert(args_model(*self, ps.take(1)) is Ok);
        assert(c_input(self.opaque_names(), t) is Ok);
        assert(!f.markers@.contains(Marker::Destructor)) by {
            assert(f.markers@[0] != Marker::Destructor);
        }
        assert(args_model(*self, ps) is Ok);
    }

    /// Wraps the type of each parameter of a destructor in `Destroy`; a receiver is refused.
    #[verifier::loop_isolation(false)]
    pub fn destructor_params(params: Vec<Param>) -> (r: Result<Vec<Param>, CError>)
        ensures
            match r {
                Ok(v) => !has_receiver(params_model(params@))
                    && params_model(v@) == params_model(params@).map_values(|p: ParamModel| destructor_param(p)),
                Err(e) => e == CError::DestructorReceiverArgument && has_receiver(params_model(params@)),
            },
    {
        let ghost all = params@;
        let n = params.len();
        let mut rest = params;
        let mut out: Vec<Param> = Vec::new();
        let mut k: usize = 0;
        while k < n
            invariant
                k <= n,
                n == all.len(),
                rest@ == all.subrange(k as int, n as int),
                out@.len() == k,
                forall|j: int| 0 <= j < k ==> !(#[trigger] all[j] is Receiver),
                forall|j: int| 0 <= j < k ==> param_model_of(#[trigger] out@[j]) == destructor_param(param_model_of(all[j])),
            decreases n - k,
        {
            let p = rest.remove(0);
            proof {
                assert(all.subrange(k as int, n as int).remove(0) =~= all.subrange(k + 1, n as int));
                assert(p == all[k as int]);
            }
            match p {
                Param::Receiver { .. } => {
                    proof {
                        assert(params_model(all)[k as int] is Receiver);
                        assert(has_receiver(params_model(all)));
                    }
                    return Err(CError::DestructorReceiverArgument);
                },
                Param::Typed { name, ty } => {
                    let mut args: Vec<TypeExpr> = Vec::new();
                    args.push(ty);
                    out.push(Param::Typed { name, ty: generic_path("Destroy", args) });
                    proof {
                        crate::types::lemma_tys_of(args@);
                        assert(tys_of(args@) =~= seq![args@[0]@]);
                    }
                },
                Param::Pattern { ty } => {
                    let mut args: Vec<TypeExpr> = Vec::new();
                    args.push(ty);
                    out.push(Param::Pattern { ty: generic_path("Destroy", args) });
                    proof {
                        crate::types::lemma_tys_of(args@);
                        assert(tys_of(args@) =~= seq![args@[0]@]);
                    }
                },
            }
            k += 1;
        }
        proof {
            assert(params_model(out@) =~= params_model(all).map_values(|p: ParamModel| destructor_param(p)));
            assert(!has_receiver(params_model(all))) by {
                assert forall|j: int| 0 <= j < all.len() implies !(#[trigger] params_model(all)[j] is Receiver) by {
                    assert(!(all[j] is Receiver));
                }
            }
        }
        Ok(out)
    }

    /// Rewrites the function `f` for the C boundary, under the name `name`.
    pub fn expose_fn_named(&self, f: FnDecl, name: String) -> (r: Result<ExposedFn, CError>)
        ensures
            self.fn_exposed(f, name@, r),
    {
        let ghost fg = f;
        let destructor = has_marker(&f.markers, Marker::Destructor);
        let FnDecl { name: source, params, ret, body, .. } = f;
        let params = if destructor {
            Self::destructor_params(params)?
        } else {
            params
        };
        let (args, prologue) = convert_fn_args(self, params)?;
        let ident = String::from_str("__output");
        let out = String::from_str("__ptr_out");
        let er = Return(ret).expand(&ident, &out, self)?;
        let mut emit: Vec<Emit> = Vec::new();
        emit.push(Emit::ExternC);
        proof {
            reveal_strlit("__output");
            reveal_strlit("__ptr_out");
        }
        Ok(ExposedFn {
            name,
            source,
            emit,
            params: args,
            out_params: er.extra_args,
            ret: er.ret,
            prologue,
            epilogue: er.conv,
            result: er.result,
            body,
        })
    }

    /// Rewrites the function `f` for the C boundary, under its own name.
    pub fn expose_fn(&self, f: FnDecl) -> (r: Result<ExposedFn, CError>)
        ensures
            self.fn_exposed(f, f.name@, r),
    {
        let name = f.name.clone();
        self.expose_fn_named(f, name)
    }
}

/// The snake-case forms of the segments of a path, joined by `_`.
pub open spec fn joined_snake(segs: Seq<Seq<char>>) -> Seq<char>
    decreases segs.len(),
{
    if segs.len() == 0 {
        Seq::empty()
    } else if segs.len() == 1 {
        snake_of(segs[0])
    } else {
        joined_snake(segs.take(segs.len() - 1)) + "_"@ + snake_of(segs[segs.len() - 1])
    }
}

/// The C symbol of the method `name` of an implementation block for `self_ty`: the
/// snake-case path of the type, `_`, and the method's name.
pub open spec fn method_symbol(self_ty: Ty, name: Seq<char>) -> Seq<char> {
    match self_ty {
        Ty::Path { segments, .. } => joined_snake(segments) + "_"@ + name,
        _ => name,
    }
}

pub fn join_snake(segs: &Vec<String>) -> (r: String)
    ensures
        r@ == joined_snake(strs_of(segs@)),
{
    let mut r = String::new();
    let mut k: usize = 0;
    let ghost ss = strs_of(segs@);
    proof {
        assert(ss.take(0) =~= Seq::<Seq<char>>::empty());
    }
    while k < segs.len()
        invariant
            k <= segs@.len(),
            ss == strs_of(segs@),
            r@ == joined_snake(ss.take(k as int)),
        decreases segs@.len() - k,
    {
        let sn = segs[k].to_snake_case();
        proof {
            let t = ss.take(k + 1);
            assert(t.take(k as int) =~= ss.take(k as int));
            assert(t[k as int] == segs@[k as int]@);
        }
        if k > 0 {
            r.append("_");
        }
        r.append(sn.as_str());
        proof {
            if k == 0 {
                assert(r@ =~= snake_of(ss[0]));
            }
        }
        k += 1;
    }
    proof {
        assert(ss.take(segs@.len() as int) =~= ss);
    }
    r
}

/// The models of the integer types whose fields are read and written as they are.
pub open spec fn is_plain_int(t: Ty) -> bool {
    ||| t == named("i8"@, Seq::empty()) ||| t == named("u8"@, Seq::empty())
    ||| t == named("i16"@, Seq::empty()) ||| t == named("u16"@, Seq::empty())
    ||| t == named("i32"@, Seq::empty()) ||| t == named("u32"@, Seq::empty())
    ||| t == named("i64"@, Seq::empty()) ||| t == named("u64"@, Seq::empty())
}

/// Does some option of the field ask for a getter?
pub open spec fn wants_get(f: FieldDecl) -> bool {
    exists|k: int| 0 <= k < f.opts@.len() && (#[trigger] f.opts@[k]) is Getter
}

/// Does some option of the field ask for a setter?
pub open spec fn wants_set(f: FieldDecl) -> bool {
    exists|k: int| 0 <= k < f.opts@.len() && (#[trigger] f.opts@[k]) is Setter
}

/// The storage type of a field: the wrapped store when it has accessors.
pub open spec fn stored_ty(f: FieldDecl) -> Ty {
    if wants_get(f) || wants_set(f) {
        wrapped_ty(f.ty@, "Store"@)
    } else {
        f.ty@
    }
}

/// The accessors that the fields of an opaque struct ask for, in order: `get_<field>`, then
/// `set_<field>`, field after field.
pub open spec fn accessor_names(fields: Seq<FieldDecl>) -> Seq<Seq<char>>
    decreases fields.len(),
{
    if fields.len() == 0 {
        Seq::empty()
    } else {
        let f = fields.last();
        accessor_names(fields.drop_last())
            + (if wants_get(f) { seq!["get_"@ + f.name@] } else { Seq::empty() })
            + (if wants_set(f) { seq!["set_"@ + f.name@] } else { Seq::empty() })
    }
}

/// The accessors that the fields of an opaque struct ask for, in order: whether each is a
/// getter, and its field.
pub open spec fn accessor_plan(fields: Seq<FieldDecl>) -> Seq<(bool, FieldDecl)>
    decreases fields.len(),
{
    if fields.len() == 0 {
        Seq::empty()
    } else {
        let f = fields.last();
        accessor_plan(fields.drop_last())
            + (if wants_get(f) { seq![(true, f)] } else { Seq::empty() })
            + (if wants_set(f) { seq![(false, f)] } else { Seq::empty() })
    }
}

/// Is `d` the getter of the field `f`: `get_<f>(&mut self) -> gty`, reading the field?
pub open spec fn is_getter_of(d: FnDecl, f: FieldDecl, gty: Ty) -> bool {
    &&& d.name@ == "get_"@ + f.name@
    &&& d.markers@ == seq![Marker::Getter]
    &&& params_model(d.params@) == seq![ParamModel::Receiver { reference: true, mutable: true }]
    &&& d.ret@ == gty
    &&& d.body matches Body::WrapGet { field, ty } && field@ == f.name@ && ty@ == f.ty@
}

/// Is `d` the setter of the field `f`: `set_<f>(&mut self, <f>: sty)`, writing the field?
pub open spec fn is_setter_of(d: FnDecl, f: FieldDecl, sty: Ty) -> bool {
    &&& d.name@ == "set_"@ + f.name@
    &&& d.markers@ == seq![Marker::Setter]
    &&& params_model(d.params@) == seq![
        ParamModel::Receiver { reference: true, mutable: true },
        ParamModel::Typed { name: f.name@, ty: sty },
    ]
    &&& d.ret@ == Ty::Unit
    &&& d.body matches Body::WrapSet { field, ty } && field@ == f.name@ && ty@ == f.ty@
}

/// The C getter type of a field of type `t`: an integer as it is, any other type as a pointer.
pub open spec fn c_getter_ty(t: Ty) -> Ty {
    if is_plain_int(t) { t } else { Ty::Ptr { mutable: true, elem: Box::new(t) } }
}

/// The C setter type of a field of type `t`: an integer as it is, any other type by reference.
pub open spec fn c_setter_ty(t: Ty) -> Ty {
    if is_plain_int(t) { t } else { Ty::Ref { mutable: false, elem: Box::new(t) } }
}

/// Is `d` the C accessor that `a` asks for?
pub open spec fn c_accessor(d: FnDecl, a: (bool, FieldDecl)) -> bool {
    if a.0 {
        is_getter_of(d, a.1, c_getter_ty(a.1.ty@))
    } else {
        is_setter_of(d, a.1, c_setter_ty(a.1.ty@))
    }
}

pub open spec fn decl_names(v: Seq<FnDecl>) -> Seq<Seq<char>> {
    v.map_values(|f: FnDecl| f.name@)
}

/// Do the options ask for a getter, and for a setter?
pub fn accessor_wishes(opts: &Vec<ExposeStructOpts>) -> (r: (bool, bool))
    ensures
        r.0 == exists|k: int| 0 <= k < opts@.len() && (#[trigger] opts@[k]) is Getter,
        r.1 == exists|k: int| 0 <= k < opts@.len() && (#[trigger] opts@[k]) is Setter,
{
    let mut get = false;
    let mut set = false;
    let mut k: usize = 0;
    while k < opts.len()
        invariant
            k <= opts@.len(),
            get == exists|j: int| 0 <= j < k && (#[trigger] opts@[j]) is Getter,
            set == exists|j: int| 0 <= j < k && (#[trigger] opts@[j]) is Setter,
        decreases opts@.len() - k,
    {
        if opts[k].is_get() {
            get = true;
        }
        if opts[k].is_set() {
            set = true;
        }
        k += 1;
    }
    (get, set)
}

/// Does the list of options hold `opaque`?
pub fn is_opaque(opts: &Vec<ExposeStructOpts>) -> (r: bool)
    ensures
        r == opts@.contains(ExposeStructOpts::Opaque),
{
    let mut k: usize = 0;
    while k < opts.len()
        invariant
            k <= opts@.len(),
            forall|j: int| 0 <= j < k ==> opts@[j] != ExposeStructOpts::Opaque,
        decreases opts@.len() - k,
    {
        if opts[k] == ExposeStructOpts::Opaque {
            proof {
                assert(opts@[k as int] == ExposeStructOpts::Opaque);
            }
            return true;
        }
        k += 1;
    }
    false
}

/// The getter `get_<field>(&mut self) -> getter_ty` of a wrapped field.
pub fn getter_decl(field: &String, field_ty: &TypeExpr, getter_ty: TypeExpr) -> (r: FnDecl)
    ensures
        r.name@ == "get_"@ + field@,
        r.markers@ == seq![Marker::Getter],
        params_model(r.params@) == seq![ParamModel::Receiver { reference: true, mutable: true }],
        r.ret == getter_ty,
        r.body matches Body::WrapGet { field: f, ty } && f@ == field@ && ty@ == field_ty@,
{
    let mut markers: Vec<Marker> = Vec::new();
    markers.push(Marker::Getter);
    let mut params: Vec<Param> = Vec::new();
    params.push(Param::Receiver { reference: true, mutable: true });
    proof {
        assert(params_model(params@) =~= seq![ParamModel::Receiver { reference: true, mutable: true }]);
    }
    FnDecl {
        name: crate::naming::join2("get_", field.as_str()),
        markers,
        params,
        ret: getter_ty,
        body: Body::WrapGet { field: field.clone(), ty: field_ty.duplicate() },
    }
}

/// The setter `set_<field>(&mut self, <field>: setter_ty)` of a wrapped field.
pub fn setter_decl(field: &String, field_ty: &TypeExpr, setter_ty: TypeExpr) -> (r: FnDecl)
    ensures
        r.name@ == "set_"@ + field@,
        r.markers@ == seq![Marker::Setter],
        params_model(r.params@) == seq![
            ParamModel::Receiver { reference: true, mutable: true },
            ParamModel::Typed { name: field@, ty: setter_ty@ },
        ],
        r.ret@ == Ty::Unit,
        r.body matches Body::WrapSet { field: f, ty } && f@ == field@ && ty@ == field_ty@,
{
    let mut markers: Vec<Marker> = Vec::new();
    markers.push(Marker::Setter);
    let ghost sv = setter_ty@;
    let mut params: Vec<Param> = Vec::new();
    params.push(Param::Receiver { reference: true, mutable: true });
    params.push(Param::Typed { name: field.clone(), ty: setter_ty });
    proof {
        assert(params_model(params@) =~= seq![
            ParamModel::Receiver { reference: true, mutable: true },
            ParamModel::Typed { name: field@, ty: sv },
        ]);
    }
    FnDecl {
        name: crate::naming::join2("set_", field.as_str()),
        markers,
        params,
        ret: TypeExpr::Unit,
        body: Body::WrapSet { field: field.clone(), ty: field_ty.duplicate() },
    }
}

impl C {
    /// The getter and setter types of a wrapped field: an integer as it is; any other type
    /// handed out as a pointer and taken in by reference.
    pub fn convert_getter_setter_ty(&self, ty: &TypeExpr) -> (r: (TypeExpr, TypeExpr))
        ensures
            is_plain_int(ty@) ==> r.0@ == ty@ && r.1@ == ty@,
            !is_plain_int(ty@) ==> r.0@ == (Ty::Ptr { mutable: true, elem: Box::new(ty@) })
                && r.1@ == (Ty::Ref { mutable: false, elem: Box::new(ty@) }),
    {
        let plain = match_fixed_type(ty, &one_name("i8")) || match_fixed_type(ty, &one_name("u8"))
            || match_fixed_type(ty, &one_name("i16")) || match_fixed_type(ty, &one_name("u16"))
            || match_fixed_type(ty, &one_name("i32")) || match_fixed_type(ty, &one_name("u32"))
            || match_fixed_type(ty, &one_name("i64")) || match_fixed_type(ty, &one_name("u64"));
        if plain {
            (ty.duplicate(), ty.duplicate())
        } else {
            (
                TypeExpr::Ptr { mutable: true, elem: Box::new(ty.duplicate()) },
                TypeExpr::Ref { mutable: false, elem: Box::new(ty.duplicate()) },
            )
        }
    }
}

impl C {
    /// The prefix of the C symbols of the methods of an implementation block for `self_ty`.
    pub fn symbol_of(self_ty: &TypeExpr, name: &String) -> (r: String)
        ensures
            r@ == method_symbol(self_ty@, name@),
    {
        match self_ty {
            TypeExpr::Path { segments, .. } => {
                let mut r = join_snake(segments);
                r.append("_");
                r.append(name.as_str());
                r
            },
            _ => name.clone(),
        }
    }

    /// Rewrites each method of an implementation block into a standalone C function named by
    /// `method_symbol`; the first refused method refuses the block.
    #[verifier::loop_isolation(false)]
    pub fn expose_impl(&self, imp: ImplDecl) -> (r: Result<ExposedImpl, CError>)
        ensures
            match r {
                Ok(x) => x.methods@.len() == imp.methods@.len() && x.self_ty == imp.self_ty && !x.py_methods
                    && forall|k: int| 0 <= k < imp.methods@.len() ==> #[trigger] self.fn_exposed(
                        imp.methods@[k],
                        method_symbol(imp.self_ty@, imp.methods@[k].name@),
                        Ok::<ExposedFn, CError>(x.methods@[k]),
                    ),
                Err(e) => exists|k: int| 0 <= k < imp.methods@.len()
                    && (forall|j: int| 0 <= j < k ==> self.fn_ok(#[trigger] imp.methods@[j]))
                    && #[trigger] self.fn_exposed(
                        imp.methods@[k],
                        method_symbol(imp.self_ty@, imp.methods@[k].name@),
                        Err::<ExposedFn, CError>(e),
                    ),
            },
    {
        let ImplDecl { self_ty, methods } = imp;
        let ghost all = methods@;
        let n = methods.len();
        let mut rest = methods;
        let mut out: Vec<ExposedFn> = Vec::new();
        let mut k: usize = 0;
        while k < n
            invariant
                k <= n,
                n == all.len(),
                rest@ == all.subrange(k as int, n as int),
                out@.len() == k,
                forall|j: int| 0 <= j < k ==> #[trigger] self.fn_exposed(
                    all[j],
                    method_symbol(self_ty@, all[j].name@),
                    Ok::<ExposedFn, CError>(out@[j]),
                ),
            decreases n - k,
        {
            let m = rest.remove(0);
            proof {
                assert(all.subrange(k as int, n as int).remove(0) =~= all.subrange(k + 1, n as int));
                assert(m == all[k as int]);
            }
            let symbol = Self::symbol_of(&self_ty, &m.name);
            match self.expose_fn_named(m, symbol) {
                Ok(x) => out.push(x),
                Err(e) => {
                    proof {
                        assert(self.fn_exposed(all[k as int], method_symbol(self_ty@, all[k as int].name@), Err::<ExposedFn, CError>(e)));
                        assert forall|j: int| 0 <= j < k implies self.fn_ok(#[trigger] all[j]) by {
                            self.lemma_fn_exposed_ok(all[j], method_symbol(self_ty@, all[j].name@), Ok::<ExposedFn, CError>(out@[j]));
                        }
                    }
                    return Err(e);
                },
            }
            k += 1;
        }
        Ok(ExposedImpl { self_ty, methods: out, py_methods: false })
    }

    /// Exposes a struct: opaque (kept behind a pointer) when its options say so, laid out as
    /// in C otherwise. Each field with accessor options is stored in its wrapped form, private
    /// to the crate; an opaque struct gets the getter and setter that the options ask for,
    /// as C functions.
    #[verifier::loop_isolation(false)]
    pub fn expose_struct(&self, st: StructDecl) -> (r: Result<ExposedStruct, CError>)
        ensures
            match r {
                Ok(x) => {
                    &&& x.name@ == st.name@
                    &&& x.repr_c == !st.opts@.contains(ExposeStructOpts::Opaque)
                    &&& !x.class && !x.subclass
                    &&& x.fields@.len() == st.fields@.len()
                    &&& forall|k: int| 0 <= k < st.fields@.len() ==> {
                        &&& (#[trigger] x.fields@[k]).name@ == st.fields@[k].name@
                        &&& x.fields@[k].ty@ == stored_ty(st.fields@[k])
                        &&& x.fields@[k].crate_only == (wants_get(st.fields@[k]) || wants_set(st.fields@[k]))
                    }
                    &&& !st.opts@.contains(ExposeStructOpts::Opaque) ==> x.accessors@.len() == 0
                    &&& st.opts@.contains(ExposeStructOpts::Opaque) ==> {
                        &&& x.accessors@.len() == accessor_names(st.fields@).len()
                        &&& x.accessors@.len() == accessor_plan(st.fields@).len()
                        &&& forall|j: int| 0 <= j < x.accessors@.len() ==>
                            (#[trigger] x.accessors@[j]).name@ == snake_of(st.name@) + "_"@ + accessor_names(st.fields@)[j]
                        &&& forall|j: int| 0 <= j < x.accessors@.len() ==>
                            self.c_accessor_exposed(st.name@, accessor_plan(st.fields@)[j], #[trigger] x.accessors@[j])
                    }
                },
                Err(_) => false,
            },
    {
        let StructDecl { name, opts, fields } = st;
        let opaque = is_opaque(&opts);
        proof {
            assert(accessor_names(fields@.take(0)) == Seq::<Seq<char>>::empty());
            assert(accessor_plan(fields@.take(0)) == Seq::<(bool, FieldDecl)>::empty());
        }
        let ghost all = fields@;
        let n = fields.len();
        let mut rest = fields;
        let mut out: Vec<ExposedField> = Vec::new();
        let mut accessors: Vec<FnDecl> = Vec::new();
        let mut k: usize = 0;
        while k < n
            invariant
                k <= n,
                n == all.len(),
                rest@ == all.subrange(k as int, n as int),
                out@.len() == k,
                !opaque ==> accessors@.len() == 0,
                opaque ==> decl_names(accessors@) == accessor_names(all.take(k as int)),
                opaque ==> accessors@.len() == accessor_plan(all.take(k as int)).len(),
                opaque ==> forall|j: int| 0 <= j < accessors@.len() ==> c_accessor(#[trigger] accessors@[j], accessor_plan(all.take(k as int))[j]),
                forall|j: int| 0 <= j < accessors@.len() ==> self.fn_ok(#[trigger] accessors@[j]),
                forall|j: int| 0 <= j < k ==> {
                    &&& (#[trigger] out@[j]).name@ == all[j].name@
                    &&& out@[j].ty@ == stored_ty(all[j])
                    &&& out@[j].crate_only == (wants_get(all[j]) || wants_set(all[j]))
                },
            decreases n - k,
        {
            let f = rest.remove(0);
            proof {
                assert(all.subrange(k as int, n as int).remove(0) =~= all.subrange(k + 1, n as int));
                assert(f == all[k as int]);
                assert(all.take(k + 1).drop_last() =~= all.take(k as int));
                assert(all.take(k + 1).last() == f);
            }
            let ghost acc_before = accessors@;
            let (get, set) = accessor_wishes(&f.opts);
            if opaque {
                let (getter_ty, setter_ty) = self.convert_getter_setter_ty(&f.ty);
                if get {
                    let g = getter_decl(&f.name, &f.ty, getter_ty);
                    proof {
                        self.lemma_getter_ok(g);
                    }
                    accessors.push(g);
                }
                if set {
                    let ghost sv = setter_ty@;
                    let d = setter_decl(&f.name, &f.ty, setter_ty);
                    proof {
                        self.lemma_setter_ok(d, f.name@, sv);
                    }
                    accessors.push(d);
                }
                proof {
                    let add = (if get { seq!["get_"@ + f.name@] } else { Seq::<Seq<char>>::empty() })
                        + (if set { seq!["set_"@ + f.name@] } else { Seq::<Seq<char>>::empty() });
                    assert(decl_names(accessors@) =~= decl_names(acc_before) + add);
                    assert(accessor_names(all.take(k + 1)) =~= accessor_names(all.take(k as int)) + add);
                    let padd = (if get { seq![(true, f)] } else { Seq::<(bool, FieldDecl)>::empty() })
                        + (if set { seq![(false, f)] } else { Seq::<(bool, FieldDecl)>::empty() });
                    let plan0 = accessor_plan(all.take(k as int));
                    assert(accessor_plan(all.take(k + 1)) =~= plan0 + padd);
                    assert forall|j: int| 0 <= j < accessors@.len() implies c_accessor(#[trigger] accessors@[j], (plan0 + padd)[j]) by {
                        if j < acc_before.len() {
                            assert(accessors@[j] == acc_before[j]);
                            assert((plan0 + padd)[j] == plan0[j]);
                        }
                    }
                }
            }
            let FieldDecl { name: fname, ty, .. } = f;
            if get || set {
                out.push(ExposedField { name: fname, ty: wrapped_field_type(ty, "Store"), crate_only: true });
            } else {
                out.push(ExposedField { name: fname, ty, crate_only: false });
            }
            k += 1;
        }
        let ghost acc = accessors@;
        proof {
            assert(all.take(n as int) =~= all);
        }
        let self_ty = TypeExpr::Path { segments: one_name(name.as_str()), args: Vec::new() };
        proof {
            assert(tys_of(Seq::<TypeExpr>::empty()) =~= Seq::<Ty>::empty());
            assert(self_ty@ == named(name@, Seq::empty()));
        }
        let imp = ImplDecl { self_ty, methods: accessors };
        let ghost imp_g = imp;
        let block = self.expose_impl(imp);
        match block {
            Ok(b) => {
                proof {
                    if opaque {
                        assert forall|j: int| 0 <= j < b.methods@.len() implies
                            (#[trigger] b.methods@[j]).name@ == snake_of(name@) + "_"@ + accessor_names(all)[j] by {
                            assert(imp_g.methods@ == acc);
                            assert(self.fn_exposed(acc[j], method_symbol(imp_g.self_ty@, acc[j].name@), Ok::<ExposedFn, CError>(b.methods@[j])));
                            assert(decl_names(acc)[j] == acc[j].name@);
                            assert(joined_snake(seq![name@]) == snake_of(name@));
                        }
                        assert forall|j: int| 0 <= j < b.methods@.len() implies
                            self.c_accessor_exposed(name@, accessor_plan(all)[j], #[trigger] b.methods@[j]) by {
                            assert(imp_g.methods@ == acc);
                            assert(self.fn_exposed(acc[j], method_symbol(imp_g.self_ty@, acc[j].name@), Ok::<ExposedFn, CError>(b.methods@[j])));
                            assert(joined_snake(seq![name@]) == snake_of(name@));
                            assert(method_symbol(imp_g.self_ty@, acc[j].name@) == snake_of(name@) + "_"@ + acc[j].name@);
                            assert(c_accessor(acc[j], accessor_plan(all)[j]));
                        }
                    }
                }
                Ok(ExposedStruct { name, repr_c: !opaque, class: false, subclass: false, fields: out, accessors: b.methods })
            },
            Err(e) => {
                proof {
                    assert(imp_g.methods@ == acc);
                    let k = choose|k: int| 0 <= k < imp_g.methods@.len() && #[trigger] self.fn_exposed(
                        imp_g.methods@[k],
                        method_symbol(imp_g.self_ty@, imp_g.methods@[k].name@),
                        Err::<ExposedFn, CError>(e),
                    );
                    self.lemma_fn_exposed_ok(imp_g.methods@[k], method_symbol(imp_g.self_ty@, imp_g.methods@[k].name@), Err::<ExposedFn, CError>(e));
                }
                Err(e)
            },
        }
    }
}

/// The model of `*mut libc::c_void`: the receiver handle of a dispatch object.
pub open spec fn void_ptr() -> Ty {
    Ty::Ptr { mutable: true, elem: Box::new(plain_path(seq!["libc"@, "c_void"@])) }
}

/// The callback parameter that stands for a method parameter.
pub open spec fn slot_param(p: ParamModel) -> (Option<Seq<char>>, Ty) {
    match p {
        ParamModel::Typed { name, ty } => (Some(name), ty),
        ParamModel::Pattern { ty } => (None, ty),
        ParamModel::Receiver { .. } => (None, void_ptr()),
    }
}

/// The parameters of a method's callback: the receiver handle `this` first, then the
/// method's parameters after its receiver.
pub open spec fn slot_params(ps: Seq<ParamModel>) -> Seq<(Option<Seq<char>>, Ty)> {
    let rest = if ps.len() > 0 && ps[0] is Receiver { ps.skip(1) } else { ps };
    seq![(Some("this"@), void_ptr())] + rest.map_values(|p: ParamModel| slot_param(p))
}

/// The callback type of a method of an interface.
pub open spec fn method_fn_ty(m: TraitMethodDecl) -> Ty {
    let sp = slot_params(params_model(m.params@));
    Ty::BareFn {
        names: sp.map_values(|q: (Option<Seq<char>>, Ty)| q.0),
        params: sp.map_values(|q: (Option<Seq<char>>, Ty)| q.1),
        ret: Box::new(m.ret@),
        extern_c: false,
    }
}

/// The native method that a method of an interface stands for.
pub open spec fn original_of(m: TraitMethodDecl) -> Seq<char> {
    match m.original {
        Some(o) => o@,
        None => m.name@,
    }
}

/// The name of the dispatch struct of an interface.
pub open spec fn dispatch_name(name: Seq<char>) -> Seq<char> {
    name + "Struct"@
}

impl C {
    /// The callback type that a method of an interface is called through.
    pub fn method_callback_type(m: &TraitMethodDecl) -> (r: TypeExpr)
        ensures
            r@ == method_fn_ty(*m),
    {
        let ghost pm = params_model(m.params@);
        let mut params: Vec<BareParam> = Vec::new();
        params.push(BareParam {
            name: Some(String::from_str("this")),
            ty: TypeExpr::Ptr { mutable: true, elem: Box::new(qualified_path("libc", "c_void")) },
        });
        let start: usize = if m.params.len() > 0 && matches!(m.params[0], Param::Receiver { .. }) { 1 } else { 0 };
        let ghost rest = if pm.len() > 0 && pm[0] is Receiver { pm.skip(1) } else { pm };
        proof {
            assert(rest =~= pm.subrange(start as int, pm.len() as int));
        }
        let mut k: usize = start;
        while k < m.params.len()
            invariant
                start <= k <= m.params@.len(),
                pm == params_model(m.params@),
                params@.len() == 1 + (k - start),
                params@[0].name matches Some(n) && n@ == "this"@,
                params@[0].ty@ == void_ptr(),
                forall|j: int| start <= j < k ==> crate::types::name_of((#[trigger] params@[1 + j - start]).name) == slot_param(pm[j]).0
                    && params@[1 + j - start].ty@ == slot_param(pm[j]).1,
            decreases m.params@.len() - k,
        {
            let q = match &m.params[k] {
                Param::Typed { name, ty } => BareParam { name: Some(name.clone()), ty: ty.duplicate() },
                Param::Pattern { ty } => BareParam { name: None, ty: ty.duplicate() },
                Param::Receiver { .. } => BareParam {
                    name: None,
                    ty: TypeExpr::Ptr { mutable: true, elem: Box::new(qualified_path("libc", "c_void")) },
                },
            };
            params.push(q);
            k += 1;
        }
        let r = TypeExpr::BareFn { params, ret: Box::new(m.ret.duplicate()), extern_c: false };
        proof {
            let sp = slot_params(pm);
            crate::types::lemma_param_tys_of(params@);
            assert(sp.len() == params@.len());
            assert forall|i: int| 1 <= i < params@.len() implies
                crate::types::name_of(#[trigger] params@[i].name) == sp[i].0 && params@[i].ty@ == sp[i].1 by {
                let j = i - 1 + start;
                assert(params@[1 + j - start] == params@[i]);
                assert(rest[i - 1] == pm[j]);
                assert(sp[i] == slot_param(rest[i - 1]));
            }
            assert(crate::types::param_names(params@) =~= sp.map_values(|q: (Option<Seq<char>>, Ty)| q.0));
            assert forall|i: int| 0 <= i < params@.len() implies
                #[trigger] crate::types::param_tys_of(params@)[i] == sp.map_values(|q: (Option<Seq<char>>, Ty)| q.1)[i] by {
                assert(crate::types::param_tys_of(params@)[i] == params@[i].ty@);
                if i >= 1 {
                    let j = i - 1 + start;
                    assert(params@[1 + j - start] == params@[i]);
                    assert(rest[i - 1] == pm[j]);
                    assert(params@[i].ty@ == sp[i].1);
                }
            }
            assert(crate::types::param_tys_of(params@) =~= sp.map_values(|q: (Option<Seq<char>>, Ty)| q.1));
        }
        r
    }

    /// Is `x` the C rewrite, for the struct `owner`, of the accessor that `a` asks for?
    pub open spec fn c_accessor_exposed(&self, owner: Seq<char>, a: (bool, FieldDecl), x: ExposedFn) -> bool {
        exists|d: FnDecl| c_accessor(d, a) && #[trigger] self.fn_exposed(d, snake_of(owner) + "_"@ + d.name@, Ok::<ExposedFn, CError>(x))
    }

    /// Is `slot` the slot of the method `m`: named as the method, holding the foreign callback
    /// that the C mapping gives for the method's callback type, wrapped by its conversion?
    pub open spec fn slot_fits(&self, m: TraitMethodDecl, slot: DispatchSlot) -> bool {
        &&& slot.name@ == m.name@
        &&& slot.original@ == original_of(m)
        &&& slot.conv is Callback
        &&& c_input(self.opaque_names(), method_fn_ty(m)) matches Ok(i)
            && i.sources == seq![slot.wire@]
            && i.kind == InputKind::Custom(CustomKind::Callback)
    }

    /// The slot of the method `m` of an interface.
    pub fn slot_of(&self, m: &TraitMethodDecl) -> (r: Result<DispatchSlot, CError>)
        ensures
            match r {
                Ok(slot) => self.slot_fits(*m, slot),
                Err(e) => c_input(self.opaque_names(), method_fn_ty(*m)) == Err::<InputView, CError>(e),
            },
    {
        let fn_ty = Self::method_callback_type(m);
        let input = self.convert_input_c(&fn_ty)?;
        match input {
            Input::Custom { sources, conv, .. } => {
                proof {
                    crate::types::lemma_tys_of(sources@);
                }
                if sources.len() == 1 {
                    let mut sources = sources;
                    let wire = sources.pop().unwrap();
                    let original = match &m.original {
                        Some(o) => o.clone(),
                        None => m.name.clone(),
                    };
                    Ok(DispatchSlot { name: m.name.clone(), original, wire, conv })
                } else {
                    proof {
                        assert(false);
                    }
                    Err(CError::UnnamedCallbackArguments)
                }
            },
            _ => {
                proof {
                    assert(false);
                }
                Err(CError::UnnamedCallbackArguments)
            },
        }
    }

    /// Synthesizes the dispatch object of an interface: a struct `<Name>Struct` with one slot
    /// per method, holding the foreign callback through which the method is called; the C
    /// functions `<name>_struct_new` and `<name>_struct_destroy` that create and release it;
    /// the implementation of the interface on it, where each method calls its slot with the
    /// receiver handle first; and the adapter from any native implementer, where each method's
    /// trampoline calls the implementer's original method and keeps the implementer. The first
    /// refused method refuses the interface.
    #[verifier::loop_isolation(false)]
    pub fn expose_trait(&self, tr: TraitDecl) -> (r: Result<ExposedTrait, CError>)
        ensures
            match r {
                Ok(x) => {
                    &&& x.name@ == tr.name@
                    &&& x.kind == DispatchKind::Callbacks
                    &&& x.struct_name@ == dispatch_name(tr.name@)
                    &&& x.constructor@ == snake_of(dispatch_name(tr.name@)) + "_new"@
                    &&& x.destructor@ == snake_of(dispatch_name(tr.name@)) + "_destroy"@
                    &&& strs_of(x.supertrait@) == strs_of(tr.supertrait@)
                    &&& x.slots@.len() == tr.methods@.len()
                    &&& x.forwarders@.len() == tr.methods@.len()
                    &&& x.trampolines@.len() == tr.methods@.len()
                    &&& forall|k: int| 0 <= k < tr.methods@.len() ==> {
                        &&& self.slot_fits(tr.methods@[k], #[trigger] x.slots@[k])
                        &&& forwards(tr.methods@[k], tr.methods@[k].name@, seq!["this"@], x.forwarders@[k])
                        &&& adapts(tr.methods@[k], tr.methods@[k].name@, x.trampolines@[k])
                    }
                },
                Err(e) => exists|k: int| 0 <= k < tr.methods@.len()
                    && (forall|j: int| 0 <= j < k ==> c_input(self.opaque_names(), method_fn_ty(#[trigger] tr.methods@[j])) is Ok)
                    && c_input(self.opaque_names(), method_fn_ty(#[trigger] tr.methods@[k])) == Err::<InputView, CError>(e),
            },
    {
        let TraitDecl { name, supertrait, methods } = tr;
        let ghost all = methods@;
        let mut slots: Vec<DispatchSlot> = Vec::new();
        let mut forwarders: Vec<Forwarder> = Vec::new();
        let mut trampolines: Vec<Trampoline> = Vec::new();
        let mut k: usize = 0;
        while k < methods.len()
            invariant
                k <= all.len(),
                methods@ == all,
                slots@.len() == k,
                forwarders@.len() == k,
                trampolines@.len() == k,
                forall|j: int| 0 <= j < k ==> {
                    &&& self.slot_fits(all[j], #[trigger] slots@[j])
                    &&& forwards(all[j], all[j].name@, seq!["this"@], forwarders@[j])
                    &&& adapts(all[j], all[j].name@, trampolines@[j])
                },
            decreases all.len() - k,
        {
            let m = &methods[k];
            match self.slot_of(m) {
                Ok(slot) => slots.push(slot),
                Err(e) => {
                    proof {
                        assert forall|j: int| 0 <= j < k implies c_input(self.opaque_names(), method_fn_ty(#[trigger] all[j])) is Ok by {
                            assert(self.slot_fits(all[j], slots@[j]));
                        }
                    }
                    return Err(e);
                },
            }
            let mut lead: Vec<String> = Vec::new();
            lead.push(String::from_str("this"));
            proof {
                assert(strs_of(lead@) =~= seq!["this"@]);
            }
            forwarders.push(forwarder_of(m, m.name.clone(), lead));
            trampolines.push(trampoline_of(m, m.name.clone()));
            k += 1;
        }
        let struct_name = crate::naming::join2(name.as_str(), "Struct");
        let snake = struct_name.to_snake_case();
        let constructor = crate::naming::join2(snake.as_str(), "_new");
        let destructor = crate::naming::join2(snake.as_str(), "_destroy");
        let supertrait2 = crate::types::clone_string_vec(&supertrait);
        Ok(ExposedTrait {
            name,
            kind: DispatchKind::Callbacks,
            struct_name,
            constructor,
            destructor,
            supertrait: supertrait2,
            slots,
            forwarders,
            trampolines,
        })
    }
}

pub open spec fn param_model_of(p: Param) -> ParamModel {
    crate::expand::param_model(p)
}

} // verus!
