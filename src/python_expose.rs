use vstd::prelude::*;

use crate::c_expose::{
    accessor_names, accessor_plan, accessor_wishes, is_getter_of, is_setter_of, decl_names, dispatch_name, getter_decl, is_opaque, method_fn_ty, original_of, setter_decl,
    stored_ty, wants_get, wants_set,
};
use crate::decl::{
    has_marker, DispatchKind, DispatchSlot, Forwarder, Trampoline, Emit, ExposeStructOpts, ExposedField, ExposedFn, ExposedImpl,
    ExposedStruct, ExposedTrait, FieldDecl, FnDecl, ImplDecl, Marker, StructDecl, TraitDecl,
};
use crate::expand::{
    args_model, convert_fn_args, params_model, prologue_rebuilds, rebuilt_args, Param, ParamModel,
    Return,
};
use crate::mapping::{LowerModel, OutputConv, Stmt};
use crate::python::{PythonError, Python};
use crate::dispatch::{adapts, forwarder_of, forwards, trampoline_of};
use crate::types::{strs_of, wrapped_field_type, wrapped_ty, Ty, TypeExpr};

verus! {

/// Filtering keeps a sequence whose every element passes as it is.
pub proof fn lemma_filter_keeps_all<A>(s: Seq<A>, pred: spec_fn(A) -> bool)
    requires
        forall|j: int| 0 <= j < s.len() ==> pred(#[trigger] s[j]),
    ensures
        s.filter(pred) == s,
    decreases s.len(),
{
    reveal(Seq::filter);
    if s.len() > 0 {
        lemma_filter_keeps_all(s.drop_last(), pred);
        assert(s.drop_last().push(s.last()) =~= s);
    }
}

/// The attributes of a method of an exposed implementation block.
pub open spec fn method_emit(f: FnDecl) -> Seq<Emit> {
    let ps = params_model(f.params@);
    if f.markers@.contains(Marker::Constructor) {
        seq![Emit::PyNew]
    } else if f.markers@.contains(Marker::Getter) {
        seq![Emit::PyGetter]
    } else if f.markers@.contains(Marker::Setter) {
        seq![Emit::PySetter]
    } else if ps.len() == 0 || !(ps[0] is Receiver) {
        seq![Emit::PyStaticMethod]
    } else {
        Seq::empty()
    }
}

/// Is `d` the accessor that `a` asks for, typed by the field's `WrappedStructField` getter and
/// setter types?
pub open spec fn py_accessor(d: FnDecl, a: (bool, FieldDecl)) -> bool {
    if a.0 {
        is_getter_of(d, a.1, wrapped_ty(a.1.ty@, "Getter"@))
    } else {
        is_setter_of(d, a.1, wrapped_ty(a.1.ty@, "Setter"@))
    }
}

impl Python {
    /// Is `x` the method of the host runtime's class for the accessor that `a` asks for?
    pub open spec fn py_accessor_exposed(&self, a: (bool, FieldDecl), x: ExposedFn) -> bool {
        exists|d: FnDecl| py_accessor(d, a) && (#[trigger] args_model(*self, params_model(d.params@)) matches Ok(args)
            && self.fn_rewritten(d, args, x) && x.emit@ == method_emit(d))
    }

    /// The parameters of an accessor, a receiver and at most one plain parameter of a
    /// projection type, always have a mapping.
    pub proof fn lemma_accessor_args_ok(&self, ps: Seq<ParamModel>, n: Seq<char>, t: Ty)
        requires
            ps == seq![ParamModel::Receiver { reference: true, mutable: true }]
                || (t is Projection && ps == seq![
                    ParamModel::Receiver { reference: true, mutable: true },
                    ParamModel::Typed { name: n, ty: t },
                ]),
        ensures
            args_model(*self, ps) is Ok,
    {
        if ps.len() == 1 {
            assert(ps.take(0) =~= Seq::<ParamModel>::empty());
            assert(args_model(*self, ps.take(0)) == Ok::<Seq<ParamModel>, PythonError>(Seq::empty()));
        } else {
            assert(ps.take(1).take(0) =~= Seq::<ParamModel>::empty());
            assert(ps.take(1) =~= seq![ParamModel::Receiver { reference: true, mutable: true }]);
            assert(args_model(*self, ps.take(1).take(0)) == Ok::<Seq<ParamModel>, PythonError>(Seq::empty()));
            assert(args_model(*self, ps.take(1)) is Ok);
            assert(crate::python::py_input(t) is Ok);
        }
    }

    /// Is `x` the rewrite of `f` for the host runtime: each parameter becomes its wire
    /// parameters, the value is returned as it is, and the attributes are `emit(args)`?
    pub open spec fn fn_rewritten(&self, f: FnDecl, args: Seq<ParamModel>, x: ExposedFn) -> bool {
        &&& x.name@ == f.name@
        &&& x.source@ == f.name@
        &&& params_model(x.params@) == args
        &&& prologue_rebuilds(rebuilt_args(*self, params_model(f.params@)), x.prologue@)
        &&& x.out_params@.len() == 0
        &&& x.ret@ == f.ret@
        &&& x.epilogue@.len() == 1
        &&& x.epilogue@[0] matches Stmt::Lower { name, lower } && name@ == "__output"@ && lower == OutputConv::PassThrough
        &&& x.result matches Some(n) && n@ == "__output"@
        &&& x.body == f.body
    }

    /// Rewrites `f` for the host runtime with the attributes `emit`.
    pub fn rewrite_fn(&self, f: FnDecl, emit: Vec<Emit>) -> (r: Result<ExposedFn, PythonError>)
        ensures
            match args_model(*self, params_model(f.params@)) {
                Err(e) => r == Err::<ExposedFn, PythonError>(e),
                Ok(args) => r matches Ok(x) && self.fn_rewritten(f, args, x) && x.emit == emit,
            },
    {
        let FnDecl { name, params, ret, body, .. } = f;
        let (args, prologue) = convert_fn_args(self, params)?;
        let ident = String::from_str("__output");
        let out = String::from_str("__ptr_out");
        let ghost rv = ret@;
        let er = match Return(ret).expand(&ident, &out, self) {
            Ok(er) => er,
            Err(e) => {
                proof {
                    assert(false);
                }
                return Err(e);
            },
        };
        proof {
            reveal_strlit("__output");
            assert(er.ret@ == crate::types::tuple_of(seq![rv]));
        }
        let source = name.clone();
        let x = ExposedFn {
            name,
            source,
            emit,
            params: args,
            out_params: er.extra_args,
            ret: er.ret,
            prologue,
            epilogue: er.conv,
            result: er.result,
            body,
        };
        proof {
            assert(x.epilogue@[0] matches Stmt::Lower { name, lower } && name@ == "__output"@ && crate::mapping::lower_model(lower) == LowerModel::PassThrough);
        }
        Ok(x)
    }

    /// Exposes a function of the module at `mod_path` as a function of the module object;
    /// a function outside of any exposed module is refused.
    pub fn expose_fn(&self, f: FnDecl, mod_path: &Vec<String>) -> (r: Result<ExposedFn, PythonError>)
        ensures
            mod_path@.len() == 0 ==> r == Err::<ExposedFn, PythonError>(PythonError::NakedFunction),
            mod_path@.len() > 0 ==> match args_model(*self, params_model(f.params@)) {
                Err(e) => r == Err::<ExposedFn, PythonError>(e),
                Ok(args) => r matches Ok(x) && self.fn_rewritten(f, args, x) && x.emit@ == seq![Emit::PyFunction],
            },
    {
        if mod_path.len() == 0 {
            return Err(PythonError::NakedFunction);
        }
        let mut emit: Vec<Emit> = Vec::new();
        emit.push(Emit::PyFunction);
        self.rewrite_fn(f, emit)
    }

    /// Exposes an implementation block as the methods of a class: destructors are dropped,
    /// since the host runtime releases objects itself; a constructor becomes the class's
    /// constructor, and a method without a receiver a static method.
    #[verifier::loop_isolation(false)]
    pub fn expose_impl(&self, imp: ImplDecl) -> (r: Result<ExposedImpl, PythonError>)
        ensures
            match r {
                Ok(x) => {
                    let kept = imp.methods@.filter(|m: FnDecl| !m.markers@.contains(Marker::Destructor));
                    &&& x.methods@.len() == kept.len()
                    &&& x.self_ty == imp.self_ty
                    &&& x.py_methods
                    &&& forall|k: int| 0 <= k < kept.len() ==> (args_model(*self, params_model(kept[k].params@)) matches Ok(args)
                        && self.fn_rewritten(kept[k], args, #[trigger] x.methods@[k])
                        && x.methods@[k].emit@ == method_emit(kept[k]))
                },
                Err(e) => exists|k: int| 0 <= k < imp.methods@.len()
                    && !imp.methods@[k].markers@.contains(Marker::Destructor)
                    && args_model(*self, params_model((#[trigger] imp.methods@[k]).params@)) == Err::<Seq<ParamModel>, PythonError>(e),
            },
            r is Ok ==> forall|k: int| 0 <= k < imp.methods@.len() && !(#[trigger] imp.methods@[k]).markers@.contains(Marker::Destructor)
                ==> args_model(*self, params_model(imp.methods@[k].params@)) is Ok,
    {
        let ImplDecl { self_ty, methods } = imp;
        let ghost all = methods@;
        let ghost pred = |m: FnDecl| !m.markers@.contains(Marker::Destructor);
        let n = methods.len();
        let mut rest = methods;
        let mut out: Vec<ExposedFn> = Vec::new();
        let mut k: usize = 0;
        proof {
            assert(all.take(0).filter(pred) =~= Seq::<FnDecl>::empty());
        }
        while k < n
            invariant
                k <= n,
                n == all.len(),
                rest@ == all.subrange(k as int, n as int),
                out@.len() == all.take(k as int).filter(pred).len(),
                forall|j: int| 0 <= j < k && !(#[trigger] all[j]).markers@.contains(Marker::Destructor)
                    ==> args_model(*self, params_model(all[j].params@)) is Ok,
                forall|j: int| 0 <= j < out@.len() ==> (args_model(*self, params_model(all.take(k as int).filter(pred)[j].params@)) matches Ok(args)
                    && self.fn_rewritten(all.take(k as int).filter(pred)[j], args, #[trigger] out@[j])
                    && out@[j].emit@ == method_emit(all.take(k as int).filter(pred)[j])),
            decreases n - k,
        {
            let m = rest.remove(0);
            proof {
                assert(all.subrange(k as int, n as int).remove(0) =~= all.subrange(k + 1, n as int));
                assert(m == all[k as int]);
                reveal(Seq::filter);
                assert(all.take(k + 1).drop_last() =~= all.take(k as int));
                assert(all.take(k + 1).last() == m);
            }
            if !has_marker(&m.markers, Marker::Destructor) {
                let constructor = has_marker(&m.markers, Marker::Constructor);
                let getter = has_marker(&m.markers, Marker::Getter);
                let setter = has_marker(&m.markers, Marker::Setter);
                let is_static = m.params.len() == 0 || !matches!(m.params[0], Param::Receiver { .. });
                let ghost mg = m;
                let mut emit: Vec<Emit> = Vec::new();
                if constructor {
                    emit.push(Emit::PyNew);
                } else if getter {
                    emit.push(Emit::PyGetter);
                } else if setter {
                    emit.push(Emit::PySetter);
                } else if is_static {
                    emit.push(Emit::PyStaticMethod);
                }
                match self.rewrite_fn(m, emit) {
                    Ok(x) => {
                        proof {
                            assert(x.emit@ =~= method_emit(mg));
                        }
                        out.push(x);
                    },
                    Err(e) => {
                        proof {
                            assert(pred(all[k as int]));
                        }
                        return Err(e);
                    },
                }
            }
            k += 1;
        }
        proof {
            assert(all.take(n as int) =~= all);
        }
        Ok(ExposedImpl { self_ty, methods: out, py_methods: true })
    }
}

impl Python {
    /// Exposes a struct as a class of the host runtime, which scripts may subclass when its
    /// options say so. Each field with accessor options is stored in its wrapped form, private
    /// to the crate; an opaque struct gets the getter and setter that the options ask for, typed
    /// by the field's `WrappedStructField` getter and setter types.
    #[verifier::loop_isolation(false)]
    pub fn expose_struct(&self, st: StructDecl) -> (r: Result<ExposedStruct, PythonError>)
        ensures
            match r {
                Ok(x) => {
                    &&& x.name@ == st.name@
                    &&& !x.repr_c && x.class
                    &&& x.subclass == st.opts@.contains(ExposeStructOpts::Subclass)
                    &&& x.fields@.len() == st.fields@.len()
                    &&& forall|k: int| 0 <= k < st.fields@.len() ==> {
                        &&& (#[trigger] x.fields@[k]).name@ == st.fields@[k].name@
                        &&& x.fields@[k].ty@ == stored_ty(st.fields@[k])
                        &&& x.fields@[k].crate_only == (wants_get(st.fields@[k]) || wants_set(st.fields@[k]))
                    }
                    &&& !st.opts@.contains(ExposeStructOpts::Opaque) ==> x.accessors@.len() == 0
                    &&& st.opts@.contains(ExposeStructOpts::Opaque) ==> {
                        &&& x.accessors@.len() == accessor_names(st.fields@).len()
                        &&& x.accessors@.len() == accessor_plan(st.fields@).len()
                        &&& forall|j: int| 0 <= j < x.accessors@.len() ==>
                            (#[trigger] x.accessors@[j]).name@ == accessor_names(st.fields@)[j]
                        &&& forall|j: int| 0 <= j < x.accessors@.len() ==>
                            self.py_accessor_exposed(accessor_plan(st.fields@)[j], #[trigger] x.accessors@[j])
                    }
                },
                Err(_) => false,
            },
    {
        let StructDecl { name, opts, fields } = st;
        proof {
            assert(accessor_names(fields@.take(0)) == Seq::<Seq<char>>::empty());
            assert(accessor_plan(fields@.take(0)) == Seq::<(bool, FieldDecl)>::empty());
        }
        let opaque = is_opaque(&opts);
        let mut subclass = false;
        let mut j: usize = 0;
        while j < opts.len()
            invariant
                j <= opts@.len(),
                subclass == exists|i: int| 0 <= i < j && opts@[i] == ExposeStructOpts::Subclass,
            decreases opts@.len() - j,
        {
            if opts[j] == ExposeStructOpts::Subclass {
                subclass = true;
            }
            j += 1;
        }
        proof {
            if subclass {
                let i = choose|i: int| 0 <= i < opts@.len() && opts@[i] == ExposeStructOpts::Subclass;
                assert(opts@.contains(opts@[i]));
            }
        }
        let ghost all = fields@;
        let n = fields.len();
        let mut rest = fields;
        let mut out: Vec<ExposedField> = Vec::new();
        let mut accessors: Vec<FnDecl> = Vec::new();
        let mut k: usize = 0;
        while k < n
            invariant
                k <= n,
                n == all.len(),
                rest@ == all.subrange(k as int, n as int),
                out@.len() == k,
                !opaque ==> accessors@.len() == 0,
                opaque ==> decl_names(accessors@) == accessor_names(all.take(k as int)),
                opaque ==> accessors@.len() == accessor_plan(all.take(k as int)).len(),
                opaque ==> forall|j: int| 0 <= j < accessors@.len() ==> py_accessor(#[trigger] accessors@[j], accessor_plan(all.take(k as int))[j]),
                forall|j: int| 0 <= j < accessors@.len() ==> !(#[trigger] accessors@[j]).markers@.contains(Marker::Destructor)
                    && args_model(*self, params_model(accessors@[j].params@)) is Ok,
                forall|j: int| 0 <= j < k ==> {
                    &&& (#[trigger] out@[j]).name@ == all[j].name@
                    &&& out@[j].ty@ == stored_ty(all[j])
                    &&& out@[j].crate_only == (wants_get(all[j]) || wants_set(all[j]))
                },
            decreases n - k,
        {
            let f = rest.remove(0);
            proof {
                assert(all.subrange(k as int, n as int).remove(0) =~= all.subrange(k + 1, n as int));
                assert(f == all[k as int]);
            }
            proof {
                assert(all.take(k + 1).drop_last() =~= all.take(k as int));
                assert(all.take(k + 1).last() == f);
            }
            let ghost acc_before = accessors@;
            let (get, set) = accessor_wishes(&f.opts);
            if opaque {
                if get {
                    let g = getter_decl(&f.name, &f.ty, wrapped_field_type(f.ty.duplicate(), "Getter"));
                    proof {
                        self.lemma_accessor_args_ok(params_model(g.params@), f.name@, Ty::Unit);
                    }
                    accessors.push(g);
                }
                if set {
                    let st_ty = wrapped_field_type(f.ty.duplicate(), "Setter");
                    let ghost sv = st_ty@;
                    let d = setter_decl(&f.name, &f.ty, st_ty);
                    proof {
                        self.lemma_accessor_args_ok(params_model(d.params@), f.name@, sv);
                    }
                    accessors.push(d);
                }
                proof {
                    let add = (if get { seq!["get_"@ + f.name@] } else { Seq::<Seq<char>>::empty() })
                        + (if set { seq!["set_"@ + f.name@] } else { Seq::<Seq<char>>::empty() });
                    assert(decl_names(accessors@) =~= decl_names(acc_before) + add);
                    assert(accessor_names(all.take(k + 1)) =~= accessor_names(all.take(k as int)) + add);
                    let padd = (if get { seq![(true, f)] } else { Seq::<(bool, FieldDecl)>::empty() })
                        + (if set { seq![(false, f)] } else { Seq::<(bool, FieldDecl)>::empty() });
                    let plan0 = accessor_plan(all.take(k as int));
                    assert(accessor_plan(all.take(k + 1)) =~= plan0 + padd);
                    assert forall|j: int| 0 <= j < accessors@.len() implies py_accessor(#[trigger] accessors@[j], (plan0 + padd)[j]) by {
                        if j < acc_before.len() {
                            assert(accessors@[j] == acc_before[j]);
                            assert((plan0 + padd)[j] == plan0[j]);
                        }
                    }
                    assert forall|j: int| 0 <= j < accessors@.len() implies !(#[trigger] accessors@[j]).markers@.contains(Marker::Destructor)
                        && args_model(*self, params_model(accessors@[j].params@)) is Ok by {
                        if j >= acc_before.len() {
                            assert(accessors@[j].markers@ == seq![Marker::Getter] || accessors@[j].markers@ == seq![Marker::Setter]);
                            assert(accessors@[j].markers@[0] != Marker::Destructor);
                        }
                    }
                }
            }
            let FieldDecl { name: fname, ty, .. } = f;
            if get || set {
                out.push(ExposedField { name: fname, ty: wrapped_field_type(ty, "Store"), crate_only: true });
            } else {
                out.push(ExposedField { name: fname, ty, crate_only: false });
            }
            k += 1;
        }
        let ghost acc = accessors@;
        proof {
            assert(all.take(n as int) =~= all);
            lemma_filter_keeps_all(acc, |m: FnDecl| !m.markers@.contains(Marker::Destructor));
        }
        let imp = ImplDecl {
            self_ty: TypeExpr::Path { segments: crate::types::one_name(name.as_str()), args: Vec::new() },
            methods: accessors,
        };
        let ghost imp_g = imp;
        let block = self.expose_impl(imp);
        match block {
            Ok(b) => {
                proof {
                    if opaque {
                        assert(imp_g.methods@ == acc);
                        assert forall|j: int| 0 <= j < b.methods@.len() implies
                            (#[trigger] b.methods@[j]).name@ == accessor_names(all)[j] by {
                            assert(decl_names(acc)[j] == acc[j].name@);
                        }
                        assert forall|j: int| 0 <= j < b.methods@.len() implies
                            self.py_accessor_exposed(accessor_plan(all)[j], #[trigger] b.methods@[j]) by {
                            assert(py_accessor(acc[j], accessor_plan(all)[j]));
                            assert(args_model(*self, params_model(acc[j].params@)) is Ok);
                        }
                    }
                }
                Ok(ExposedStruct { name, repr_c: false, class: true, subclass, fields: out, accessors: b.methods })
            },
            Err(e) => {
                proof {
                    assert(imp_g.methods@ == acc);
                }
                Err(e)
            },
        }
    }

    /// Synthesizes the dispatch class of an interface: `<Name>Struct`, a class that scripts
    /// may subclass, built by `new`, which holds either a native implementer or a script
    /// object. Each method `m` of the interface calls the method `rust_<original>` of the
    /// class, which calls the native implementer's original method when it holds one, and the
    /// script object's method of the same name otherwise.
    pub fn expose_trait(&self, tr: TraitDecl) -> (r: ExposedTrait)
        ensures
            r.name@ == tr.name@,
            r.kind == DispatchKind::ScriptClass,
            r.struct_name@ == dispatch_name(tr.name@),
            r.constructor@ == "new"@,
            r.destructor@.len() == 0,
            strs_of(r.supertrait@) == strs_of(tr.supertrait@),
            r.slots@.len() == tr.methods@.len(),
            r.forwarders@.len() == tr.methods@.len(),
            r.trampolines@.len() == tr.methods@.len(),
            forall|k: int| 0 <= k < tr.methods@.len() ==> {
                &&& (#[trigger] r.slots@[k]).name@ == "rust_"@ + original_of(tr.methods@[k])
                &&& r.slots@[k].original@ == original_of(tr.methods@[k])
                &&& r.slots@[k].wire@ == method_fn_ty(tr.methods@[k])
                &&& forwards(tr.methods@[k], "rust_"@ + original_of(tr.methods@[k]), Seq::empty(), r.forwarders@[k])
                &&& adapts(tr.methods@[k], "rust_"@ + original_of(tr.methods@[k]), r.trampolines@[k])
            },
    {
        let TraitDecl { name, supertrait, methods } = tr;
        let mut slots: Vec<DispatchSlot> = Vec::new();
        let mut forwarders: Vec<Forwarder> = Vec::new();
        let mut trampolines: Vec<Trampoline> = Vec::new();
        let mut k: usize = 0;
        while k < methods.len()
            invariant
                k <= methods@.len(),
                slots@.len() == k,
                forwarders@.len() == k,
                trampolines@.len() == k,
                forall|j: int| 0 <= j < k ==> {
                    &&& (#[trigger] slots@[j]).name@ == "rust_"@ + original_of(methods@[j])
                    &&& slots@[j].original@ == original_of(methods@[j])
                    &&& slots@[j].wire@ == method_fn_ty(methods@[j])
                    &&& forwards(methods@[j], "rust_"@ + original_of(methods@[j]), Seq::empty(), forwarders@[j])
                    &&& adapts(methods@[j], "rust_"@ + original_of(methods@[j]), trampolines@[j])
                },
            decreases methods@.len() - k,
        {
            let m = &methods[k];
            let original = match &m.original {
                Some(o) => o.clone(),
                None => m.name.clone(),
            };
            let slot_name = crate::naming::join2("rust_", original.as_str());
            let wire = crate::c::C::method_callback_type(m);
            let lead: Vec<String> = Vec::new();
            proof {
                assert(strs_of(lead@) =~= Seq::<Seq<char>>::empty());
            }
            forwarders.push(forwarder_of(m, slot_name.clone(), lead));
            trampolines.push(trampoline_of(m, slot_name.clone()));
            slots.push(DispatchSlot { name: slot_name, original, wire, conv: crate::mapping::InputConv::PassThrough });
            k += 1;
        }
        let struct_name = crate::naming::join2(name.as_str(), "Struct");
        ExposedTrait {
            name,
            kind: DispatchKind::ScriptClass,
            struct_name,
            constructor: String::from_str("new"),
            destructor: String::new(),
            supertrait: crate::types::clone_string_vec(&supertrait),
            slots,
            forwarders,
            trampolines,
        }
    }
}

} // verus!
