use vstd::prelude::*;

use crate::expand::{args_model, params_model};
use crate::decl::{Marker, ExposedFn, ExposedImpl, ExposedStruct, ExposedTrait, FnDecl, ImplDecl, StructDecl, TraitDecl};
use crate::lang::{Backend, Lang, LangError};
use crate::mapping::{
    input_wf, CustomKind, Input, InputConv, InputKind, InputView,
    LowerModel, Output, OutputKind, OutputView,
};
use crate::types::{
    generic_args, lemma_tys_of, match_generic_type, one_name, tys_of, Ty, TypeExpr,
};

verus! {

/// Errors of the dynamic-object backend.
#[derive(Debug, Clone, Copy, PartialEq, Eq, Structural)]
pub enum PythonError {
    /// A function exposed outside of any exposed module.
    NakedFunction,
    /// An argument of a callback type has no name.
    UnnamedCallbackArguments,
    Lang(LangError),
}

/// The dynamic-object backend: classes, methods, properties, and object lifetimes that the
/// host runtime manages.
pub struct Python;

/// The model of the foreign callable object type.
pub open spec fn py_callable_ty() -> Ty {
    Ty::Path { segments: seq!["crate"@, "python_callback"@, "PyCb"@], args: Seq::empty() }
}

/// The model of a managed reference to a `t`.
pub open spec fn py_ref_ty(t: Ty) -> Ty {
    Ty::Path { segments: seq!["pyo3"@, "PyRef"@], args: seq![t] }
}

/// The dynamic-object mapping of a type that flows in.
pub open spec fn py_input(t: Ty) -> Result<InputView, PythonError> {
    if t is BareFn {
        if exists|k: int| 0 <= k < t->BareFn_names.len() && (#[trigger] t->BareFn_names[k]) is None {
            Err(PythonError::UnnamedCallbackArguments)
        } else {
            Ok(InputView { kind: InputKind::Custom(CustomKind::PyCallback), target: t, sources: seq![py_callable_ty()] })
        }
    } else if generic_args(t, seq!["Vec"@]) is Some && t->Path_args.len() == 1 && t->Path_args[0] is Ref {
        Ok(InputView {
            kind: InputKind::Custom(CustomKind::DerefRefs),
            target: t,
            sources: seq![Ty::Path { segments: seq!["Vec"@], args: seq![py_ref_ty(*t->Path_args[0]->Ref_elem)] }],
        })
    } else {
        Ok(InputView { kind: InputKind::Unchanged, target: t, sources: seq![t] })
    }
}

impl Python {
    /// The dynamic-object mapping of a type that flows in: callbacks become callable
    /// objects, lists of borrows become lists of managed references, the rest is unchanged.
    #[verifier::loop_isolation(false)]
    pub fn convert_input_py(&self, ty: &TypeExpr) -> (r: Result<Input, PythonError>)
        ensures
            match r {
                Ok(i) => input_wf(i) && py_input(ty@) == Ok::<InputView, PythonError>(i@),
                Err(e) => py_input(ty@) == Err::<InputView, PythonError>(e),
            },
            r matches Ok(Input::Custom { conv: InputConv::DerefRefs { ty: t }, .. }) ==> t@ == ty@,
            r matches Ok(Input::Custom { conv: InputConv::PyCallback { params, ret }, .. }) ==> (ty@ is BareFn
                && ret@ == *ty@->BareFn_ret
                && crate::types::param_names(params@) == ty@->BareFn_names
                && crate::types::param_tys_of(params@) == ty@->BareFn_params),
    {
        if let TypeExpr::BareFn { params, ret, .. } = ty {
            proof {
                crate::types::lemma_param_tys_of(params@);
            }
            let mut k: usize = 0;
            while k < params.len()
                invariant
                    k <= params@.len(),
                    forall|j: int| 0 <= j < k ==> !((#[trigger] params@[j]).name is None),
                decreases params@.len() - k,
            {
                if params[k].name.is_none() {
                    proof {
                        assert(ty@->BareFn_names[k as int] is None);
                    }
                    return Err(PythonError::UnnamedCallbackArguments);
                }
                k += 1;
            }
            proof {
                assert forall|j: int| 0 <= j < ty@->BareFn_names.len() implies !((#[trigger] ty@->BareFn_names[j]) is None) by {
                    assert(!(params@[j].name is None));
                }
            }
            let conv = InputConv::PyCallback {
                params: crate::types::duplicate_params(params),
                ret: (**ret).duplicate(),
            };
            let mut segments: Vec<String> = Vec::new();
            segments.push(String::from_str("crate"));
            segments.push(String::from_str("python_callback"));
            segments.push(String::from_str("PyCb"));
            let callable = TypeExpr::Path { segments, args: Vec::new() };
            proof {
                assert(crate::types::strs_of(segments@) =~= seq!["crate"@, "python_callback"@, "PyCb"@]);
                assert(tys_of(Seq::<TypeExpr>::empty()) =~= Seq::<Ty>::empty());
            }
            let sources = crate::c::single(callable);
            return Ok(Input::new_custom(ty.duplicate(), sources, conv));
        }
        if let Some(args) = match_generic_type(ty, &one_name("Vec")) {
            proof {
                lemma_tys_of(args@);
            }
            if args.len() == 1 {
                if let TypeExpr::Ref { elem, .. } = &args[0] {
                    let mut psegs: Vec<String> = Vec::new();
                    psegs.push(String::from_str("pyo3"));
                    psegs.push(String::from_str("PyRef"));
                    let py_ref = TypeExpr::Path { segments: psegs, args: crate::c::single((**elem).duplicate()) };
                    let list = crate::types::generic_path("Vec", crate::c::single(py_ref));
                    proof {
                        assert(crate::types::strs_of(psegs@) =~= seq!["pyo3"@, "PyRef"@]);
                        assert(tys_of(args@)[0] == args@[0]@);
                    }
                    let conv = InputConv::DerefRefs { ty: ty.duplicate() };
                    return Ok(Input::new_custom(ty.duplicate(), crate::c::single(list), conv));
                }
                proof {
                    assert(tys_of(args@)[0] == args@[0]@);
                }
            }
        }
        Ok(Input::new_unchanged(ty.duplicate()))
    }
}

impl Lang for Python {
    type Error = PythonError;

    open spec fn input_model(&self, t: Ty) -> Result<InputView, PythonError> {
        py_input(t)
    }

    /// Every type flows out unchanged: the host runtime converts it.
    open spec fn output_model(&self, t: Ty) -> Result<(OutputView, LowerModel), PythonError> {
        Ok((OutputView { kind: OutputKind::Unchanged, targets: seq![t], suffixes: seq![Seq::empty()] }, LowerModel::PassThrough))
    }

    open spec fn wraps(e: LangError) -> PythonError {
        PythonError::Lang(e)
    }

    fn lang_error(e: LangError) -> (r: PythonError) {
        PythonError::Lang(e)
    }

    fn convert_input(&self, ty: &TypeExpr) -> (r: Result<Input, PythonError>) {
        self.convert_input_py(ty)
    }

    fn convert_output(&self, ty: &TypeExpr) -> (r: Result<Output, PythonError>) {
        Ok(Output::new_unchanged(ty.duplicate()))
    }
}

impl Backend for Python {
    open spec fn fn_accepted(&self, f: FnDecl, mod_path: Seq<Seq<char>>) -> bool {
        mod_path.len() > 0 && args_model(*self, params_model(f.params@)) is Ok
    }

    open spec fn struct_accepted(&self, st: StructDecl) -> bool {
        true
    }

    open spec fn impl_accepted(&self, imp: ImplDecl) -> bool {
        forall|k: int| 0 <= k < imp.methods@.len() && !(#[trigger] imp.methods@[k]).markers@.contains(Marker::Destructor)
            ==> args_model(*self, params_model(imp.methods@[k].params@)) is Ok
    }

    open spec fn trait_accepted(&self, tr: TraitDecl) -> bool {
        true
    }

    fn expose_function(&self, f: FnDecl, mod_path: &Vec<String>) -> (r: Result<ExposedFn, PythonError>) {
        Python::expose_fn(self, f, mod_path)
    }

    fn expose_structure(&self, st: StructDecl) -> (r: Result<ExposedStruct, PythonError>) {
        Python::expose_struct(self, st)
    }

    fn expose_implementation(&self, imp: ImplDecl) -> (r: Result<ExposedImpl, PythonError>) {
        Python::expose_impl(self, imp)
    }

    fn expose_interface(&self, tr: TraitDecl) -> (r: Result<ExposedTrait, PythonError>) {
        Ok(Python::expose_trait(self, tr))
    }
}

} // verus!
