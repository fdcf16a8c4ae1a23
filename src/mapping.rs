use vstd::prelude::*;

use crate::naming::decimal;
use crate::naming::to_decimal;
use crate::types::{clone_string_vec, duplicate_all, lemma_tys_of, strs_of, tys_of, BareParam, Ty, TypeExpr};

verus! {

/// How an argument is rebuilt, from the value grouped out of its wire parameters.
#[derive(Debug, PartialEq, Eq)]
pub enum InputConv {
    /// The wire value is the value itself.
    PassThrough,
    /// `<target>::map_from(source)`.
    MapFrom { target: TypeExpr },
    /// A native closure around a foreign function pointer: each argument is lowered by
    /// `arg_conv` into the wire arguments `call_args`, the pointer is called, and its result
    /// is rebuilt by `ret_conv`.
    Callback { params: Vec<BareParam>, arg_conv: Vec<Stmt>, call_args: Vec<String>, ret_conv: Box<InputConv> },
    /// A native closure that calls a foreign callable object and extracts its answer.
    PyCallback { params: Vec<BareParam>, ret: TypeExpr },
    /// A list of native borrows, taken from a list of managed references.
    DerefRefs { ty: TypeExpr },
}

/// The conversion that rebuilds an argument.
pub type ExpandedInputConversion = InputConv;

/// The conversion that rebuilds a callback's answer.
pub type ExpandedCallbackReturnConversion = InputConv;

/// The statements that rebuild an argument.
pub type ExpandedArgumentConversion = Vec<Stmt>;

/// The statements that lower a returned value.
pub type ExpandedReturnConversion = Vec<Stmt>;

/// The statements that lower a callback argument into its wire arguments.
pub type ExpandedCallbackArgumentConversion = Vec<Stmt>;

/// The conversion that lowers a value.
pub type ExpandedOutputConversion = OutputConv;

impl InputConv {
    /// The wire value is the argument itself.
    pub fn pass_through() -> (r: InputConv)
        ensures
            r == InputConv::PassThrough,
    {
        InputConv::PassThrough
    }

    /// `<ty>::map_from(source)`.
    pub fn map_from(ty: TypeExpr) -> (r: InputConv)
        ensures
            r == (InputConv::MapFrom { target: ty }),
    {
        InputConv::MapFrom { target: ty }
    }
}

impl OutputConv {
    /// The value is its own wire value.
    pub fn pass_through() -> (r: OutputConv)
        ensures
            r == OutputConv::PassThrough,
    {
        OutputConv::PassThrough
    }

    /// `value.map_to()`, from a value of type `original`.
    pub fn map_to(original: TypeExpr) -> (r: OutputConv)
        ensures
            r == (OutputConv::MapTo { original }),
    {
        OutputConv::MapTo { original }
    }

    /// The value moves to the heap and its pointer is the wire value.
    pub fn by_reference() -> (r: OutputConv)
        ensures
            r == OutputConv::ByReference,
    {
        OutputConv::ByReference
    }
}

/// How a value is lowered to its wire form, rebinding its own name.
#[derive(Debug, PartialEq, Eq)]
pub enum OutputConv {
    PassThrough,
    /// `let v: original = v; let v = v.map_to();`
    MapTo { original: TypeExpr },
    /// `let v = Box::into_raw(Box::new(v));`
    ByReference,
    /// The success value of a fallible result, lowered by `ok`.
    Fallible { ok: Box<OutputConv> },
}

/// A statement of the conversion code spliced around a function body.
#[derive(Debug, PartialEq, Eq)]
pub enum Stmt {
    /// `let name = (parts, ...);`, or `let name = part;` for a single part.
    Group { name: String, parts: Vec<String> },
    /// `let name = <conv applied to source>;`
    Rebuild { name: String, source: String, conv: InputConv },
    /// The output conversion of `name`.
    Lower { name: String, lower: OutputConv },
    /// `let (parts, ...) = name;`
    Ungroup { parts: Vec<String>, name: String },
    /// `unsafe { *out = name; }`
    WriteOut { out: String, name: String },
    /// Splits the fallible `name`: on success the value is lowered by `ok` and written through
    /// `out`, and `name` becomes the status zero; on failure `name` becomes the error's
    /// platform code and `out` is left unwritten.
    Status { name: String, ok: OutputConv, out: String },
}

/// The kinds of custom input mappings.
pub enum CustomKind {
    Callback,
    PyCallback,
    DerefRefs,
}

pub enum InputKind {
    Unchanged,
    MapFrom,
    Custom(CustomKind),
}

/// The model of an input mapping: the source type, the wire types and the kind of conversion.
pub struct InputView {
    pub kind: InputKind,
    pub target: Ty,
    pub sources: Seq<Ty>,
}

pub open spec fn custom_kind(c: InputConv) -> CustomKind {
    match c {
        InputConv::Callback { .. } => CustomKind::Callback,
        InputConv::PyCallback { .. } => CustomKind::PyCallback,
        _ => CustomKind::DerefRefs,
    }
}

/// Does a custom mapping carry a conversion of its own?
pub open spec fn input_wf(i: Input) -> bool {
    i matches Input::Custom { conv, .. } ==> !(conv is PassThrough) && !(conv is MapFrom)
}

/// A type mapping for a value that flows in across the boundary.
#[derive(Debug, PartialEq, Eq)]
pub enum Input {
    /// The type is left as it is.
    Unchanged(TypeExpr),
    /// The value is rebuilt from the wire types `sources` by `MapFrom`.
    MapFrom { target: TypeExpr, sources: Vec<TypeExpr> },
    /// The value is rebuilt from the wire types `sources` by a conversion of its own.
    Custom { target: TypeExpr, sources: Vec<TypeExpr>, conv: InputConv },
}

impl View for Input {
    type V = InputView;

    open spec fn view(&self) -> InputView {
        match *self {
            Input::Unchanged(t) => InputView { kind: InputKind::Unchanged, target: t@, sources: seq![t@] },
            Input::MapFrom { target, sources } => InputView {
                kind: InputKind::MapFrom,
                target: target@,
                sources: tys_of(sources@),
            },
            Input::Custom { target, sources, conv } => InputView {
                kind: InputKind::Custom(custom_kind(conv)),
                target: target@,
                sources: tys_of(sources@),
            },
        }
    }
}

/// An input mapping applied to the name of its grouped wire value.
pub struct ExpandedInput {
    pub types: Vec<TypeExpr>,
    pub conv: InputConv,
}

impl Input {
    pub fn new_unchanged(ty: TypeExpr) -> (r: Input)
        ensures
            r@ == (InputView { kind: InputKind::Unchanged, target: ty@, sources: seq![ty@] }),
            input_wf(r),
    {
        Input::Unchanged(ty)
    }

    pub fn new_map_from(target: TypeExpr, sources: Vec<TypeExpr>) -> (r: Input)
        ensures
            r@ == (InputView { kind: InputKind::MapFrom, target: target@, sources: tys_of(sources@) }),
            input_wf(r),
    {
        Input::MapFrom { target, sources }
    }

    pub fn new_custom(target: TypeExpr, sources: Vec<TypeExpr>, conv: InputConv) -> (r: Input)
        requires
            !(conv is PassThrough) && !(conv is MapFrom),
        ensures
            input_wf(r),
            r@ == (InputView {
                kind: InputKind::Custom(custom_kind(conv)),
                target: target@,
                sources: tys_of(sources@),
            }),
            r == (Input::Custom { target, sources, conv }),
    {
        Input::Custom { target, sources, conv }
    }

    /// The wire types of the mapping.
    pub fn get_sources(&self) -> (r: Vec<TypeExpr>)
        ensures
            tys_of(r@) == self@.sources,
    {
        match self {
            Input::Unchanged(t) => {
                let mut r: Vec<TypeExpr> = Vec::new();
                r.push(t.duplicate());
                proof {
                    lemma_tys_of(r@);
                    assert(tys_of(r@) =~= seq![t@]);
                }
                r
            },
            Input::MapFrom { sources, .. } => duplicate_all(sources),
            Input::Custom { sources, .. } => duplicate_all(sources),
        }
    }

    /// The wire types, and the conversion that rebuilds the value from them.
    pub fn expand(self) -> (r: ExpandedInput)
        ensures
            tys_of(r.types@) == self@.sources,
            match self {
                Input::Unchanged(_) => r.conv == InputConv::PassThrough,
                Input::MapFrom { target, .. } => r.conv == (InputConv::MapFrom { target }),
                Input::Custom { conv, .. } => r.conv == conv,
            },
    {
        match self {
            Input::Unchanged(t) => {
                let ghost tv = t@;
                let mut types: Vec<TypeExpr> = Vec::new();
                types.push(t);
                proof {
                    lemma_tys_of(types@);
                    assert(tys_of(types@) =~= seq![tv]);
                }
                ExpandedInput { types, conv: InputConv::PassThrough }
            },
            Input::MapFrom { target, sources } => ExpandedInput {
                types: sources,
                conv: InputConv::MapFrom { target },
            },
            Input::Custom { sources, conv, .. } => ExpandedInput { types: sources, conv },
        }
    }
}

pub enum OutputKind {
    Unchanged,
    MapTo,
    ByReference,
    Fallible,
}

/// The model of an output mapping: the kind, the wire types and their name suffixes.
pub struct OutputView {
    pub kind: OutputKind,
    pub targets: Seq<Ty>,
    pub suffixes: Seq<Seq<char>>,
}

/// A type mapping for a value that flows out across the boundary.
#[derive(Debug, PartialEq, Eq)]
pub enum Output {
    /// The type is left as it is.
    Unchanged(TypeExpr),
    /// The value is lowered to the wire types `targets` by `MapTo`; each wire value is told
    /// apart by its suffix.
    MapTo { original: TypeExpr, targets: Vec<TypeExpr>, suffixes: Vec<String> },
    /// The value is moved to the heap and handed out as a pointer.
    ByReference(TypeExpr),
    /// A fallible value: the success arm is lowered by `ok`, the error arm by `err`, which has a
    /// single wire type and travels through the platform's error channel.
    Fallible { original: TypeExpr, ok: Box<Output>, err: Box<Output> },
}

/// The model of the pointer type that hands out a value of type `t`.
pub open spec fn mut_ptr(t: Ty) -> Ty {
    Ty::Ptr { mutable: true, elem: Box::new(t) }
}

pub open spec fn output_view(o: Output) -> OutputView
    decreases o,
{
    match o {
        Output::Unchanged(t) => OutputView { kind: OutputKind::Unchanged, targets: seq![t@], suffixes: seq![Seq::empty()] },
        Output::MapTo { targets, suffixes, .. } => OutputView {
            kind: OutputKind::MapTo,
            targets: tys_of(targets@),
            suffixes: strs_of(suffixes@),
        },
        Output::ByReference(t) => OutputView {
            kind: OutputKind::ByReference,
            targets: seq![mut_ptr(t@)],
            suffixes: seq![Seq::empty()],
        },
        Output::Fallible { ok, .. } => OutputView {
            kind: OutputKind::Fallible,
            targets: output_view(*ok).targets,
            suffixes: output_view(*ok).suffixes,
        },
    }
}

/// The model of an output conversion.
pub enum LowerModel {
    PassThrough,
    MapTo(Ty),
    ByReference,
    Fallible(Box<LowerModel>),
}

pub open spec fn lower_model(c: OutputConv) -> LowerModel
    decreases c,
{
    match c {
        OutputConv::PassThrough => LowerModel::PassThrough,
        OutputConv::MapTo { original } => LowerModel::MapTo(original@),
        OutputConv::ByReference => LowerModel::ByReference,
        OutputConv::Fallible { ok } => LowerModel::Fallible(Box::new(lower_model(*ok))),
    }
}

/// The model of the output conversion of a mapping.
pub open spec fn output_conv_of(o: Output) -> LowerModel
    decreases o,
{
    match o {
        Output::Unchanged(_) => LowerModel::PassThrough,
        Output::MapTo { original, .. } => LowerModel::MapTo(original@),
        Output::ByReference(_) => LowerModel::ByReference,
        Output::Fallible { ok, .. } => LowerModel::Fallible(Box::new(output_conv_of(*ok))),
    }
}

/// Is the mapping well formed: one suffix per wire type, at every level?
pub open spec fn output_wf(o: Output) -> bool
    decreases o,
{
    match o {
        Output::MapTo { targets, suffixes, .. } => targets@.len() == suffixes@.len(),
        Output::Fallible { ok, err, .. } => output_wf(*ok) && output_wf(*err),
        _ => true,
    }
}

impl View for Output {
    type V = OutputView;

    open spec fn view(&self) -> OutputView {
        output_view(*self)
    }
}

/// An output mapping's wire types, their suffixes, and its conversion.
pub struct ExpandedOutput {
    pub ty: Vec<TypeExpr>,
    pub suffix: Vec<String>,
    pub conv: OutputConv,
}

/// Suffixes `0`, `1`, ... for `n` wire types.
pub open spec fn index_suffixes(n: nat) -> Seq<Seq<char>> {
    Seq::new(n, |i: int| decimal(i as nat))
}

impl Output {
    pub fn new_unchanged(ty: TypeExpr) -> (r: Output)
        ensures
            r == Output::Unchanged(ty),
            output_wf(r),
    {
        Output::Unchanged(ty)
    }

    pub fn new_map_to_suffix(original: TypeExpr, targets: Vec<TypeExpr>, suffixes: Vec<String>) -> (r: Output)
        requires
            targets@.len() == suffixes@.len(),
        ensures
            r == (Output::MapTo { original, targets, suffixes }),
            output_wf(r),
    {
        Output::MapTo { original, targets, suffixes }
    }

    /// Maps to the given wire types, with the suffixes `0`, `1`, ...
    pub fn new_map_to(original: TypeExpr, targets: Vec<TypeExpr>) -> (r: Output)
        ensures
            r@ == (OutputView {
                kind: OutputKind::MapTo,
                targets: tys_of(targets@),
                suffixes: index_suffixes(targets@.len()),
            }),
            output_conv_of(r) == LowerModel::MapTo(original@),
            output_wf(r),
    {
        let mut suffixes: Vec<String> = Vec::new();
        let mut i: usize = 0;
        while i < targets.len()
            invariant
                i <= targets@.len(),
                suffixes@.len() == i,
                forall|j: int| 0 <= j < i ==> #[trigger] suffixes@[j]@ == decimal(j as nat),
            decreases targets@.len() - i,
        {
            suffixes.push(to_decimal(i));
            i += 1;
        }
        assert(strs_of(suffixes@) =~= index_suffixes(targets@.len()));
        Output::MapTo { original, targets, suffixes }
    }

    /// Maps to one wire type, with an empty suffix.
    pub fn new_map_to_single(original: TypeExpr, target: TypeExpr) -> (r: Output)
        ensures
            r@ == (OutputView { kind: OutputKind::MapTo, targets: seq![target@], suffixes: seq![Seq::empty()] }),
            output_conv_of(r) == LowerModel::MapTo(original@),
            output_wf(r),
    {
        let ghost tv = target@;
        let mut targets: Vec<TypeExpr> = Vec::new();
        targets.push(target);
        let mut suffixes: Vec<String> = Vec::new();
        suffixes.push(String::new());
        proof {
            lemma_tys_of(targets@);
            assert(tys_of(targets@) =~= seq![tv]);
            assert(strs_of(suffixes@) =~= seq![Seq::<char>::empty()]);
        }
        Output::MapTo { original, targets, suffixes }
    }

    /// The wire types of the mapping.
    pub fn get_targets(&self) -> (r: Vec<TypeExpr>)
        ensures
            tys_of(r@) == self@.targets,
        decreases self,
    {
        match self {
            Output::Unchanged(t) => {
                let mut r: Vec<TypeExpr> = Vec::new();
                r.push(t.duplicate());
                proof {
                    lemma_tys_of(r@);
                    assert(tys_of(r@) =~= seq![t@]);
                }
                r
            },
            Output::ByReference(t) => {
                let mut r: Vec<TypeExpr> = Vec::new();
                r.push(TypeExpr::Ptr { mutable: true, elem: Box::new(t.duplicate()) });
                proof {
                    lemma_tys_of(r@);
                    assert(tys_of(r@) =~= seq![mut_ptr(t@)]);
                }
                r
            },
            Output::MapTo { targets, .. } => duplicate_all(targets),
            Output::Fallible { ok, .. } => (**ok).get_targets(),
        }
    }

    /// The wire types, their suffixes and the conversion of the mapping.
    pub fn expand(&self) -> (r: ExpandedOutput)
        requires
            output_wf(*self),
        ensures
            tys_of(r.ty@) == self@.targets,
            strs_of(r.suffix@) == self@.suffixes,
            r.ty@.len() == r.suffix@.len(),
            lower_model(r.conv) == output_conv_of(*self),
        decreases self,
    {
        match self {
            Output::Fallible { ok, .. } => {
                let inner = (**ok).expand();
                ExpandedOutput { ty: inner.ty, suffix: inner.suffix, conv: OutputConv::Fallible { ok: Box::new(inner.conv) } }
            },
            Output::MapTo { original, targets, suffixes } => {
                proof {
                    lemma_tys_of(targets@);
                }
                ExpandedOutput {
                    ty: duplicate_all(targets),
                    suffix: clone_string_vec(suffixes),
                    conv: OutputConv::MapTo { original: original.duplicate() },
                }
            },
            _ => {
                let ty = self.get_targets();
                let mut suffix: Vec<String> = Vec::new();
                suffix.push(String::new());
                proof {
                    lemma_tys_of(ty@);
                    assert(strs_of(suffix@) =~= seq![Seq::<char>::empty()]);
                }
                let conv = match self {
                    Output::ByReference(_) => OutputConv::ByReference,
                    _ => OutputConv::PassThrough,
                };
                ExpandedOutput { ty, suffix, conv }
            },
        }
    }
}

} // verus!
