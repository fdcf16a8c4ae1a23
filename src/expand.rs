use vstd::prelude::*;

use crate::lang::{Lang, LangError};
use crate::mapping::{
    custom_kind, input_wf, lower_model, output_conv_of, output_wf, Input, InputConv, InputKind, InputView,
    LowerModel, Output, OutputConv, OutputKind, OutputView, Stmt, mut_ptr,
};
use crate::naming::{
    suffixed_ident, suffixed_name, temp_ident, temp_name, wire_name, wire_param_name,
};
use crate::types::{
    as_tuple, lemma_tys_of, named, simple_path, strs_of, tuple_of, tys_of, BareParam, Ty, TypeExpr,
};

verus! {

/// A parameter of a declared function.
#[derive(Debug, PartialEq, Eq)]
pub enum Param {
    /// `self`, `&self` or `&mut self`.
    Receiver { reference: bool, mutable: bool },
    /// `name: ty`.
    Typed { name: String, ty: TypeExpr },
    /// A parameter bound by any other pattern.
    Pattern { ty: TypeExpr },
}

impl Param {
    /// A copy of the parameter, with the same model.
    pub fn duplicate(&self) -> (r: Param)
        ensures
            param_model(r) == param_model(*self),
    {
        match self {
            Param::Receiver { reference, mutable } => Param::Receiver { reference: *reference, mutable: *mutable },
            Param::Typed { name, ty } => Param::Typed { name: name.clone(), ty: ty.duplicate() },
            Param::Pattern { ty } => Param::Pattern { ty: ty.duplicate() },
        }
    }
}

/// Is `p` the parameter `name: ty`?
pub open spec fn is_typed(p: Param, name: Seq<char>, ty: Ty) -> bool {
    p matches Param::Typed { name: n, ty: t } && n@ == name && t@ == ty
}

/// Does the conversion `c` carry out the input mapping `i`?
pub open spec fn conv_fits(c: InputConv, i: InputView) -> bool {
    match i.kind {
        InputKind::Unchanged => c == InputConv::PassThrough,
        InputKind::MapFrom => c matches InputConv::MapFrom { target } && target@ == i.target,
        InputKind::Custom(k) => !(c is PassThrough) && !(c is MapFrom) && custom_kind(c) == k,
    }
}

/// The model of a parameter.
pub enum ParamModel {
    Receiver { reference: bool, mutable: bool },
    Typed { name: Seq<char>, ty: Ty },
    Pattern { ty: Ty },
}

pub open spec fn param_model(p: Param) -> ParamModel {
    match p {
        Param::Receiver { reference, mutable } => ParamModel::Receiver { reference, mutable },
        Param::Typed { name, ty } => ParamModel::Typed { name: name@, ty: ty@ },
        Param::Pattern { ty } => ParamModel::Pattern { ty: ty@ },
    }
}

pub open spec fn params_model(ps: Seq<Param>) -> Seq<ParamModel> {
    ps.map_values(|p: Param| param_model(p))
}

/// The wire parameters `__<name>_<k>` that carry the wire types `sources`.
pub open spec fn wire_params(name: Seq<char>, sources: Seq<Ty>) -> Seq<ParamModel> {
    Seq::new(sources.len(), |k: int| ParamModel::Typed { name: wire_param_name(name, k as nat), ty: sources[k] })
}

/// The wire parameters that replace the parameters `ps` under `lang`, in order, or the
/// first error met.
pub open spec fn args_model<L: Lang>(lang: L, ps: Seq<ParamModel>) -> Result<Seq<ParamModel>, L::Error>
    decreases ps.len(),
{
    if ps.len() == 0 {
        Ok(Seq::empty())
    } else {
        let k = ps.len() - 1;
        match args_model(lang, ps.take(k)) {
            Err(e) => Err(e),
            Ok(front) => match ps[k] {
                ParamModel::Receiver { .. } => Ok(front.push(ps[k])),
                ParamModel::Pattern { .. } => Err(L::wraps(LangError::ComplexPatternFnArg)),
                ParamModel::Typed { name, ty } => match lang.input_model(ty) {
                    Err(e) => Err(e),
                    Ok(i) => Ok(front + wire_params(name, i.sources)),
                },
            },
        }
    }
}

/// The parameters that are rebuilt from wire values, in order, with their input mappings
/// under `lang`.
pub open spec fn rebuilt_args<L: Lang>(lang: L, ps: Seq<ParamModel>) -> Seq<(Seq<char>, InputView)>
    decreases ps.len(),
{
    if ps.len() == 0 {
        Seq::empty()
    } else {
        rebuilt_args(lang, ps.drop_last()) + match ps.last() {
            ParamModel::Typed { name, ty } => match lang.input_model(ty) {
                Ok(i) => seq![(name, i)],
                Err(_) => Seq::empty(),
            },
            _ => Seq::empty(),
        }
    }
}

/// Does `conv` rebuild the arguments `args`, in order: for each, the grouping of its wire
/// parameters into `_temp_<name>`, then the rebuilding of `name` by its mapping's conversion?
pub open spec fn prologue_rebuilds(args: Seq<(Seq<char>, InputView)>, conv: Seq<Stmt>) -> bool {
    &&& conv.len() == 2 * args.len()
    &&& forall|j: int| 0 <= j < args.len() ==> rebuild_pair(conv, j, #[trigger] args[j])
}

/// Do the statements `2j` and `2j + 1` of `conv` rebuild the argument `a.0` under the input
/// mapping `a.1`: its wire parameters `__<name>_<k>` grouped, then converted?
pub open spec fn rebuild_pair(conv: Seq<Stmt>, j: int, a: (Seq<char>, InputView)) -> bool {
    &&& conv[2 * j] matches Stmt::Group { name: g, parts }
        && g@ == temp_name(a.0)
        && parts@.len() == a.1.sources.len()
        && forall|k: int| 0 <= k < parts@.len() ==> (#[trigger] parts@[k])@ == wire_param_name(a.0, k as nat)
    &&& conv[2 * j + 1] matches Stmt::Rebuild { name: n, source, conv: c }
        && n@ == a.0 && source@ == temp_name(a.0) && conv_fits(c, a.1)
}

/// Once a prefix of the parameters is refused, so is every longer prefix.
pub proof fn lemma_args_model_err<L: Lang>(lang: L, ps: Seq<ParamModel>, m: int, e: L::Error)
    requires
        0 <= m <= ps.len(),
        args_model(lang, ps.take(m)) == Err::<Seq<ParamModel>, L::Error>(e),
    ensures
        args_model(lang, ps) == Err::<Seq<ParamModel>, L::Error>(e),
    decreases ps.len() - m,
{
    if m < ps.len() {
        let p2 = ps.take(m + 1);
        assert(p2.take(m) =~= ps.take(m));
        assert(args_model(lang, p2) == Err::<Seq<ParamModel>, L::Error>(e));
        lemma_args_model_err(lang, ps, m + 1, e);
    } else {
        assert(ps.take(m) =~= ps);
    }
}

/// Replaces each parameter by its wire parameters under `lang`, and gathers the statements
/// that rebuild them, in order.
#[verifier::loop_isolation(false)]
pub fn convert_fn_args<L: Lang>(lang: &L, params: Vec<Param>) -> (r: Result<(Vec<Param>, Vec<Stmt>), L::Error>)
    ensures
        match r {
            Ok((args, conv)) => args_model(*lang, params_model(params@)) == Ok::<Seq<ParamModel>, L::Error>(params_model(args@))
                && prologue_rebuilds(rebuilt_args(*lang, params_model(params@)), conv@),
            Err(e) => args_model(*lang, params_model(params@)) == Err::<Seq<ParamModel>, L::Error>(e),
        },
{
    let ghost pm = params_model(params@);
    let mut args: Vec<Param> = Vec::new();
    let mut conv: Vec<Stmt> = Vec::new();
    let n = params.len();
    let ghost all = params@;
    let mut rest = params;
    let mut k: usize = 0;
    proof {
        assert(pm.take(0) =~= Seq::<ParamModel>::empty());
        assert(params_model(args@) =~= Seq::<ParamModel>::empty());
        assert(rebuilt_args(*lang, pm.take(0)) =~= Seq::<(Seq<char>, InputView)>::empty());
    }
    while k < n
        invariant
            k <= n,
            n == pm.len(),
            rest@ == all.subrange(k as int, n as int),
            pm == params_model(all),
            args_model(*lang, pm.take(k as int)) == Ok::<Seq<ParamModel>, L::Error>(params_model(args@)),
            prologue_rebuilds(rebuilt_args(*lang, pm.take(k as int)), conv@),
        decreases n - k,
    {
        let p = rest.remove(0);
        let ghost pv = param_model(p);
        let ghost pg = p;
        proof {
            assert(all.subrange(k as int, n as int).remove(0) =~= all.subrange(k + 1, n as int));
            assert(pv == pm[k as int]);
        }
        let ghost before = args@;
        let e = match Argument(p).expand(lang) {
            Ok(e) => e,
            Err(err) => {
                proof {
                    let p2 = pm.take(k + 1);
                    assert(p2.take(k as int) =~= pm.take(k as int));
                    assert(p2[k as int] == pv);
                    lemma_args_model_err(*lang, pm, k + 1, err);
                }
                return Err(err);
            },
        };
        let ghost added = e.args@;
        let ghost econv = e.conv@;
        let mut more = e.args;
        args.append(&mut more);
        let ghost conv_before = conv@;
        let mut c = e.conv;
        conv.append(&mut c);
        proof {
            let p2 = pm.take(k + 1);
            assert(p2.take(k as int) =~= pm.take(k as int));
            assert(p2[k as int] == pv);
            assert(params_model(args@) =~= params_model(before) + params_model(added));
            match pg {
                Param::Typed { name, ty } => {
                    let i = lang.input_model(ty@)->Ok_0;
                    assert(argument_expansion(name@, i, added, econv));
                    assert forall|j: int| 0 <= j < added.len() implies #[trigger] params_model(added)[j] == wire_params(name@, i.sources)[j] by {
                        assert(is_typed(added[j], wire_param_name(name@, j as nat), i.sources[j]));
                    }
                    assert(params_model(added) =~= wire_params(name@, i.sources));
                    assert(pv == (ParamModel::Typed { name: name@, ty: ty@ }));
                    assert(args_model(*lang, p2) == Ok::<Seq<ParamModel>, L::Error>(params_model(before) + wire_params(name@, i.sources)));
                    let old_names = rebuilt_args(*lang, pm.take(k as int));
                    assert(p2.drop_last() =~= pm.take(k as int));
                    assert(rebuilt_args(*lang, p2) == old_names + seq![(name@, i)]);
                    let new_names = old_names + seq![(name@, i)];
                    assert(econv.len() == 2);
                    assert(conv@.len() == 2 * new_names.len());
                    assert forall|j: int| 0 <= j < new_names.len() implies rebuild_pair(conv@, j, #[trigger] new_names[j]) by {
                        if j < old_names.len() {
                            assert(new_names[j] == old_names[j]);
                            assert(2 * j + 1 < conv_before.len());
                            assert(rebuild_pair(conv_before, j, old_names[j]));
                            assert(conv@[2 * j] == conv_before[2 * j]);
                            assert(conv@[2 * j + 1] == conv_before[2 * j + 1]);
                        } else {
                            assert(j == old_names.len());
                            assert(2 * j == conv_before.len());
                            assert(new_names[j] == (name@, i));
                            assert(conv@[2 * j] == econv[0]);
                            assert(conv@[2 * j + 1] == econv[1]);
                        }
                    }
                    assert(prologue_rebuilds(new_names, conv@));
                    assert(prologue_rebuilds(rebuilt_args(*lang, p2), conv@));
                },
                Param::Receiver { .. } => {
                    assert(p2.drop_last() =~= pm.take(k as int));
                    assert(rebuilt_args(*lang, p2) =~= rebuilt_args(*lang, pm.take(k as int)));
                    assert(conv@ =~= conv_before);
                    assert(prologue_rebuilds(rebuilt_args(*lang, p2), conv@));
                    assert(params_model(added) =~= seq![pv]);
                    assert(args_model(*lang, p2) == Ok::<Seq<ParamModel>, L::Error>(params_model(before).push(pv)));
                    assert(params_model(before).push(pv) =~= params_model(before) + seq![pv]);
                },
                _ => {},
            }
        }
        k += 1;
    }
    proof {
        assert(pm.take(n as int) =~= pm);
    }
    Ok((args, conv))
}

/// An argument of a declared function.
pub struct Argument(pub Param);

/// The wire parameters that replace an argument, and the statements that rebuild it.
pub struct ExpandedArgument {
    pub args: Vec<Param>,
    pub conv: Vec<Stmt>,
}

/// Do `args` and `conv` replace the argument `name` under the input mapping `i`: one wire
/// parameter `__<name>_<k>` per wire type, grouped into `_temp_<name>`, from which `name` is
/// rebuilt?
pub open spec fn argument_expansion(name: Seq<char>, i: InputView, args: Seq<Param>, conv: Seq<Stmt>) -> bool {
    &&& args.len() == i.sources.len()
    &&& forall|k: int| 0 <= k < args.len() ==> is_typed(#[trigger] args[k], wire_param_name(name, k as nat), i.sources[k])
    &&& conv.len() == 2
    &&& conv[0] matches Stmt::Group { name: g, parts }
        && g@ == temp_name(name)
        && parts@.len() == args.len()
        && forall|k: int| 0 <= k < parts@.len() ==> (#[trigger] parts@[k])@ == wire_param_name(name, k as nat)
    &&& conv[1] matches Stmt::Rebuild { name: n, source, conv: c }
        && n@ == name && source@ == temp_name(name) && conv_fits(c, i)
}

impl Argument {
    /// Replaces the argument by its wire parameters under the input mapping `input`, which
    /// `lang` gave for its type.
    pub fn expand_with(name: String, input: Input) -> (r: ExpandedArgument)
        requires
            input_wf(input),
        ensures
            argument_expansion(name@, input@, r.args@, r.conv@),
    {
        let ghost iv = input@;
        let temp = temp_ident(&name);
        let expanded = input.expand();
        let types = expanded.types;
        proof {
            lemma_tys_of(types@);
        }
        let mut args: Vec<Param> = Vec::new();
        let mut parts: Vec<String> = Vec::new();
        let mut k: usize = 0;
        let n = types.len();
        let ghost tv = types@;
        while k < n
            invariant
                k <= n,
                n == tv.len(),
                types@ == tv,
                args@.len() == k,
                parts@.len() == k,
                forall|j: int| 0 <= j < k ==> is_typed(#[trigger] args@[j], wire_param_name(name@, j as nat), tv[j]@),
                forall|j: int| 0 <= j < k ==> (#[trigger] parts@[j])@ == wire_param_name(name@, j as nat),
            decreases n - k,
        {
            let t = types[k].duplicate();
            let w = wire_name(&name, k);
            let w2 = wire_name(&name, k);
            args.push(Param::Typed { name: w, ty: t });
            parts.push(w2);
            k += 1;
        }
        let mut conv: Vec<Stmt> = Vec::new();
        let temp2 = temp_ident(&name);
        conv.push(Stmt::Group { name: temp, parts });
        conv.push(Stmt::Rebuild { name, source: temp2, conv: expanded.conv });
        proof {
            assert(tys_of(tv) == iv.sources);
            assert forall|j: int| 0 <= j < args@.len() implies is_typed(#[trigger] args@[j], wire_param_name(name@, j as nat), iv.sources[j]) by {
                assert(tys_of(tv)[j] == tv[j]@);
            }
        }
        ExpandedArgument { args, conv }
    }

    /// Replaces the argument by the wire parameters of its type under `lang`, with the
    /// statements that rebuild it. A receiver passes through unchanged.
    pub fn expand<L: Lang>(self, lang: &L) -> (r: Result<ExpandedArgument, L::Error>)
        ensures
            match self.0 {
                Param::Receiver { .. } => r matches Ok(e) && e.args@ == seq![self.0] && e.conv@.len() == 0,
                Param::Pattern { .. } => r == Err::<ExpandedArgument, L::Error>(L::wraps(LangError::ComplexPatternFnArg)),
                Param::Typed { name, ty } => match lang.input_model(ty@) {
                    Ok(i) => r matches Ok(e) && argument_expansion(name@, i, e.args@, e.conv@),
                    Err(err) => r == Err::<ExpandedArgument, L::Error>(err),
                },
            },
    {
        match self.0 {
            Param::Receiver { reference, mutable } => {
                let mut args: Vec<Param> = Vec::new();
                args.push(Param::Receiver { reference, mutable });
                Ok(ExpandedArgument { args, conv: Vec::new() })
            },
            Param::Pattern { .. } => Err(L::lang_error(LangError::ComplexPatternFnArg)),
            Param::Typed { name, ty } => {
                let input = lang.convert_input(&ty)?;
                Ok(Argument::expand_with(name, input))
            },
        }
    }
}

/// The return type of a declared function (`()` when it declares none).
pub struct Return(pub TypeExpr);

/// The new return type, the out-parameters added for it, and the statements that lower the
/// body's value (bound to the name `result`, when the function yields it).
pub struct ExpandedReturn {
    pub ret: TypeExpr,
    pub extra_args: Vec<Param>,
    pub conv: Vec<Stmt>,
    pub result: Option<String>,
}

/// The model of the status code type.
pub open spec fn status_ty() -> Ty {
    named("i32"@, Seq::empty())
}

/// Do `e`'s parts lower a value named `ident` under the output mapping `(o, l)`, with the
/// out-parameter `out`?
pub open spec fn return_expansion(ident: Seq<char>, out: Seq<char>, o: OutputView, l: LowerModel, e: ExpandedReturn) -> bool {
    match o.kind {
        OutputKind::ByReference => {
            &&& e.ret@ == Ty::Unit
            &&& e.extra_args@.len() == 1
            &&& is_typed(e.extra_args@[0], out, mut_ptr(tuple_of(o.targets)))
            &&& e.conv@.len() == 2
            &&& e.conv@[0] matches Stmt::Lower { name, lower } && name@ == ident && lower_model(lower) == l
            &&& e.conv@[1] matches Stmt::WriteOut { out: w, name } && w@ == out && name@ == ident
            &&& e.result.is_none()
        },
        OutputKind::Fallible => {
            &&& e.ret@ == status_ty()
            &&& e.extra_args@.len() == 1
            &&& is_typed(e.extra_args@[0], out, mut_ptr(tuple_of(o.targets)))
            &&& e.conv@.len() == 1
            &&& e.conv@[0] matches Stmt::Status { name, ok, out: w }
                && name@ == ident && w@ == out && l == LowerModel::Fallible(Box::new(lower_model(ok)))
            &&& e.result matches Some(n) && n@ == ident
        },
        _ => {
            &&& e.ret@ == tuple_of(o.targets)
            &&& e.extra_args@.len() == 0
            &&& e.conv@.len() == 1
            &&& e.conv@[0] matches Stmt::Lower { name, lower } && name@ == ident && lower_model(lower) == l
            &&& e.result matches Some(n) && n@ == ident
        },
    }
}

impl Return {
    /// Lowers a returned value under the output mapping `output`.
    pub fn expand_with(ident: &String, arg_name: &String, output: &Output) -> (r: ExpandedReturn)
        requires
            output_wf(*output),
        ensures
            return_expansion(ident@, arg_name@, output@, output_conv_of(*output), r),
    {
        let expanded = output.expand();
        let ty = as_tuple(expanded.ty);
        let mut conv: Vec<Stmt> = Vec::new();
        match output {
            Output::ByReference(_) => {
                let mut extra_args: Vec<Param> = Vec::new();
                extra_args.push(Param::Typed { name: arg_name.clone(), ty: TypeExpr::Ptr { mutable: true, elem: Box::new(ty) } });
                conv.push(Stmt::Lower { name: ident.clone(), lower: expanded.conv });
                conv.push(Stmt::WriteOut { out: arg_name.clone(), name: ident.clone() });
                ExpandedReturn { ret: TypeExpr::Unit, extra_args, conv, result: None }
            },
            Output::Fallible { .. } => {
                let mut extra_args: Vec<Param> = Vec::new();
                extra_args.push(Param::Typed { name: arg_name.clone(), ty: TypeExpr::Ptr { mutable: true, elem: Box::new(ty) } });
                let ok = match expanded.conv {
                    OutputConv::Fallible { ok } => *ok,
                    other => other,
                };
                conv.push(Stmt::Status { name: ident.clone(), ok, out: arg_name.clone() });
                ExpandedReturn { ret: simple_path("i32"), extra_args, conv, result: Some(ident.clone()) }
            },
            _ => {
                conv.push(Stmt::Lower { name: ident.clone(), lower: expanded.conv });
                ExpandedReturn { ret: ty, extra_args: Vec::new(), conv, result: Some(ident.clone()) }
            },
        }
    }

    /// Lowers the value that the function body returns, under `lang`'s mapping of the return
    /// type: bound to `ident`, and written through the out-parameter `arg_name` where the
    /// mapping hands the value out by reference or as the success arm of a status.
    pub fn expand<L: Lang>(self, ident: &String, arg_name: &String, lang: &L) -> (r: Result<ExpandedReturn, L::Error>)
        ensures
            match lang.output_model(self.0@) {
                Ok((o, l)) => r matches Ok(e) && return_expansion(ident@, arg_name@, o, l, e),
                Err(err) => r == Err::<ExpandedReturn, L::Error>(err),
            },
    {
        let output = lang.convert_output(&self.0)?;
        Ok(Return::expand_with(ident, arg_name, &output))
    }
}

/// A named argument of a callback type.
pub struct CallbackArgument(pub BareParam);

/// The wire arguments of a callback argument, and the statements that lower it into them.
pub struct ExpandedCallbackArgument {
    pub args: Vec<BareParam>,
    pub conv: Vec<Stmt>,
}

/// Do `args` and `conv` lower the callback argument `ident` under the output mapping
/// `(o, l)`: one wire argument per wire type, named by its suffix, split out of the lowered
/// value?
pub open spec fn callback_argument_expansion(ident: Seq<char>, o: OutputView, l: LowerModel, e: ExpandedCallbackArgument) -> bool {
    &&& e.args@.len() == o.targets.len()
    &&& forall|k: int| 0 <= k < e.args@.len() ==> {
        &&& (#[trigger] e.args@[k]).name matches Some(n) && n@ == suffixed_name(ident, o.suffixes[k])
        &&& e.args@[k].ty@ == o.targets[k]
    }
    &&& e.conv@.len() == 2
    &&& e.conv@[0] matches Stmt::Lower { name, lower } && name@ == ident && lower_model(lower) == l
    &&& e.conv@[1] matches Stmt::Ungroup { parts, name }
        && name@ == ident
        && parts@.len() == e.args@.len()
        && forall|k: int| 0 <= k < parts@.len() ==> (#[trigger] parts@[k])@ == suffixed_name(ident, o.suffixes[k])
}

impl CallbackArgument {
    /// Lowers the callback argument `ident` under the output mapping `output`.
    pub fn expand(ident: &String, output: &Output) -> (r: ExpandedCallbackArgument)
        requires
            output_wf(*output),
        ensures
            callback_argument_expansion(ident@, output@, output_conv_of(*output), r),
    {
        let expanded = output.expand();
        let ghost tv = expanded.ty@;
        proof {
            lemma_tys_of(tv);
        }
        let n = expanded.ty.len();
        let types = expanded.ty;
        let mut args: Vec<BareParam> = Vec::new();
        let mut parts: Vec<String> = Vec::new();
        let mut k: usize = 0;
        while k < n
            invariant
                k <= n,
                n == tv.len(),
                n == expanded.suffix@.len(),
                types@ == tv,
                args@.len() == k,
                parts@.len() == k,
                forall|j: int| 0 <= j < k ==> {
                    &&& (#[trigger] args@[j]).name matches Some(s) && s@ == suffixed_name(ident@, expanded.suffix@[j]@)
                    &&& args@[j].ty@ == tv[j]@
                },
                forall|j: int| 0 <= j < k ==> (#[trigger] parts@[j])@ == suffixed_name(ident@, expanded.suffix@[j]@),
            decreases n - k,
        {
            let t = types[k].duplicate();
            let a = suffixed_ident(ident, &expanded.suffix[k]);
            let b = suffixed_ident(ident, &expanded.suffix[k]);
            args.push(BareParam { name: Some(a), ty: t });
            parts.push(b);
            k += 1;
        }
        let mut conv: Vec<Stmt> = Vec::new();
        conv.push(Stmt::Lower { name: ident.clone(), lower: expanded.conv });
        conv.push(Stmt::Ungroup { parts, name: ident.clone() });
        proof {
            let o = output@;
            assert(tys_of(tv) == o.targets);
            assert(strs_of(expanded.suffix@) == o.suffixes);
            assert forall|j: int| 0 <= j < args@.len() implies {
                &&& (#[trigger] args@[j]).name matches Some(s) && s@ == suffixed_name(ident@, o.suffixes[j])
                &&& args@[j].ty@ == o.targets[j]
            } by {
                assert(tys_of(tv)[j] == tv[j]@);
                assert(strs_of(expanded.suffix@)[j] == expanded.suffix@[j]@);
            }
            assert forall|j: int| 0 <= j < parts@.len() implies (#[trigger] parts@[j])@ == suffixed_name(ident@, o.suffixes[j]) by {
                assert(strs_of(expanded.suffix@)[j] == expanded.suffix@[j]@);
            }
        }
        ExpandedCallbackArgument { args, conv }
    }
}

/// The return type of a callback type.
pub struct CallbackReturn(pub TypeExpr);

/// The wire return type of a callback, and the conversion that rebuilds its answer.
pub struct ExpandedCallbackReturn {
    pub ret: TypeExpr,
    pub conv: InputConv,
}

impl CallbackReturn {
    /// The callback's wire return type under the input mapping `input`: its wire types
    /// folded into one.
    pub fn expand(input: Input) -> (r: ExpandedCallbackReturn)
        requires
            input_wf(input),
        ensures
            r.ret@ == tuple_of(input@.sources),
            conv_fits(r.conv, input@),
    {
        let ghost iv = input@;
        let expanded = input.expand();
        ExpandedCallbackReturn { ret: as_tuple(expanded.types), conv: expanded.conv }
    }
}

} // verus!
