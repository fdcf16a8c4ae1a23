use vstd::prelude::*;

use crate::expand::Param;
use crate::lang::LangError;
use crate::mapping::{InputConv, Stmt};
use crate::types::TypeExpr;

verus! {

/// Role markers on a declared function.
#[derive(Debug, Clone, Copy, PartialEq, Eq, Structural)]
pub enum Marker {
    Constructor,
    Destructor,
    Getter,
    Setter,
}

/// The body of a function: its own, or an accessor that the engine synthesizes for a field.
#[derive(Debug, PartialEq, Eq)]
pub enum Body {
    /// The body written in the declaration.
    Native,
    /// `<ty as WrappedStructField>::wrap_get(&mut self.field)`.
    WrapGet { field: String, ty: TypeExpr },
    /// `self.field = <ty as WrappedStructField>::wrap_set(field);`.
    WrapSet { field: String, ty: TypeExpr },
}

/// A declared function or method.
pub struct FnDecl {
    pub name: String,
    pub markers: Vec<Marker>,
    pub params: Vec<Param>,
    pub ret: TypeExpr,
    pub body: Body,
}

/// Attributes that an emitted function carries.
#[derive(Debug, Clone, Copy, PartialEq, Eq, Structural)]
pub enum Emit {
    /// `#[no_mangle] pub extern "C"`.
    ExternC,
    /// A function of the module object.
    PyFunction,
    /// The constructor of its class.
    PyNew,
    /// A method that takes no receiver.
    PyStaticMethod,
    PyGetter,
    PySetter,
}

/// A function rewritten for the boundary: the wire parameters, the statements that rebuild
/// the arguments (`prologue`), the original body, and the statements that lower its value
/// (`epilogue`), which the function then yields as `result`, if any.
pub struct ExposedFn {
    pub name: String,
    /// The name of the declared function it rewrites.
    pub source: String,
    pub emit: Vec<Emit>,
    pub params: Vec<Param>,
    /// Out-parameters appended after `params`.
    pub out_params: Vec<Param>,
    pub ret: TypeExpr,
    pub prologue: Vec<Stmt>,
    pub epilogue: Vec<Stmt>,
    pub result: Option<String>,
    pub body: Body,
}

/// Options of a struct export annotation.
#[derive(Debug, Clone, Copy, PartialEq, Eq, Structural, Hash)]
pub enum ExposeStructOpts {
    Opaque,
    Getter { is_simple: bool },
    Setter { is_simple: bool },
    Subclass,
}

/// The option named by one word of an export annotation.
pub open spec fn struct_opt_of(word: Seq<char>) -> Option<ExposeStructOpts> {
    if word == "opaque"@ {
        Some(ExposeStructOpts::Opaque)
    } else if word == "get"@ {
        Some(ExposeStructOpts::Getter { is_simple: false })
    } else if word == "set"@ {
        Some(ExposeStructOpts::Setter { is_simple: false })
    } else if word == "get_simple"@ {
        Some(ExposeStructOpts::Getter { is_simple: true })
    } else if word == "set_simple"@ {
        Some(ExposeStructOpts::Setter { is_simple: true })
    } else if word == "subclass"@ {
        Some(ExposeStructOpts::Subclass)
    } else {
        None
    }
}

impl ExposeStructOpts {
    /// Reads one option of a struct export annotation.
    pub fn parse(word: &str) -> (r: Result<ExposeStructOpts, LangError>)
        ensures
            match struct_opt_of(word@) {
                Some(o) => r == Ok::<ExposeStructOpts, LangError>(o),
                None => r == Err::<ExposeStructOpts, LangError>(LangError::ExposeStructAttrError),
            },
    {
        let w = String::from_str(word);
        if w == String::from_str("opaque") {
            Ok(ExposeStructOpts::Opaque)
        } else if w == String::from_str("get") {
            Ok(ExposeStructOpts::Getter { is_simple: false })
        } else if w == String::from_str("set") {
            Ok(ExposeStructOpts::Setter { is_simple: false })
        } else if w == String::from_str("get_simple") {
            Ok(ExposeStructOpts::Getter { is_simple: true })
        } else if w == String::from_str("set_simple") {
            Ok(ExposeStructOpts::Setter { is_simple: true })
        } else if w == String::from_str("subclass") {
            Ok(ExposeStructOpts::Subclass)
        } else {
            Err(LangError::ExposeStructAttrError)
        }
    }

    /// Does the option ask for a getter?
    pub fn is_get(&self) -> (r: bool)
        ensures
            r == (*self is Getter),
    {
        match self {
            ExposeStructOpts::Getter { .. } => true,
            _ => false,
        }
    }

    /// Does the option ask for a setter?
    pub fn is_set(&self) -> (r: bool)
        ensures
            r == (*self is Setter),
    {
        match self {
            ExposeStructOpts::Setter { .. } => true,
            _ => false,
        }
    }
}

/// Reads the options of a struct export annotation; the first malformed one refuses them all.
pub fn parse_struct_opts(words: &Vec<String>) -> (r: Result<Vec<ExposeStructOpts>, LangError>)
    ensures
        match r {
            Ok(opts) => opts@.len() == words@.len() && forall|k: int| 0 <= k < words@.len() ==> struct_opt_of(#[trigger] words@[k]@) == Some(opts@[k]),
            Err(e) => e == LangError::ExposeStructAttrError && exists|k: int| 0 <= k < words@.len() && struct_opt_of(#[trigger] words@[k]@).is_none(),
        },
{
    let mut opts: Vec<ExposeStructOpts> = Vec::new();
    let mut k: usize = 0;
    while k < words.len()
        invariant
            k <= words@.len(),
            opts@.len() == k,
            forall|j: int| 0 <= j < k ==> struct_opt_of(#[trigger] words@[j]@) == Some(opts@[j]),
        decreases words@.len() - k,
    {
        match ExposeStructOpts::parse(words[k].as_str()) {
            Ok(o) => opts.push(o),
            Err(e) => {
                proof {
                    assert(struct_opt_of(words@[k as int]@).is_none());
                }
                return Err(e);
            },
        }
        k += 1;
    }
    Ok(opts)
}

/// Reads one option of an interface method's export annotation, `key = value`: only
/// `original`, which names the native method that the method stands for, is known.
pub fn parse_trait_option(key: &str, value: &str) -> (r: Result<String, LangError>)
    ensures
        key@ == "original"@ ==> (r matches Ok(v) && v@ == value@),
        key@ != "original"@ ==> r == Err::<String, LangError>(LangError::ExposeTraitAttrError),
{
    if String::from_str(key) == String::from_str("original") {
        Ok(String::from_str(value))
    } else {
        Err(LangError::ExposeTraitAttrError)
    }
}

/// A field of a declared struct, with the options of its own export annotation.
pub struct FieldDecl {
    pub name: String,
    pub ty: TypeExpr,
    pub opts: Vec<ExposeStructOpts>,
}

/// A declared struct with named fields.
pub struct StructDecl {
    pub name: String,
    pub opts: Vec<ExposeStructOpts>,
    pub fields: Vec<FieldDecl>,
}

/// A field as emitted: its storage type, and whether it became private to the crate.
pub struct ExposedField {
    pub name: String,
    pub ty: TypeExpr,
    pub crate_only: bool,
}

/// A struct as emitted, with the accessors synthesized for its fields.
pub struct ExposedStruct {
    pub name: String,
    /// Laid out in memory as C lays it out.
    pub repr_c: bool,
    /// Exposed as a class of the host runtime, which scripts may subclass when `subclass`.
    pub class: bool,
    pub subclass: bool,
    pub fields: Vec<ExposedField>,
    pub accessors: Vec<ExposedFn>,
}

/// A declared implementation block.
pub struct ImplDecl {
    pub self_ty: TypeExpr,
    pub methods: Vec<FnDecl>,
}

/// An implementation block as emitted.
pub struct ExposedImpl {
    pub self_ty: TypeExpr,
    pub methods: Vec<ExposedFn>,
    /// The block holds the methods of a class of the host runtime (`#[pymethods]`).
    pub py_methods: bool,
}

/// A method of a declared interface; `original` names the native method it stands for.
pub struct TraitMethodDecl {
    pub name: String,
    pub original: Option<String>,
    pub params: Vec<Param>,
    pub ret: TypeExpr,
}

/// A declared interface, whose first supertrait is the native interface it exposes.
pub struct TraitDecl {
    pub name: String,
    pub supertrait: Vec<String>,
    pub methods: Vec<TraitMethodDecl>,
}

/// One slot of a dispatch object: the wire type of its callable and, for the C backend, the
/// conversion that wraps a foreign function pointer into it.
pub struct DispatchSlot {
    pub name: String,
    pub original: String,
    pub wire: TypeExpr,
    pub conv: InputConv,
}

/// How the dispatch object of an interface reaches its implementer.
#[derive(Debug, Clone, Copy, PartialEq, Eq, Structural)]
pub enum DispatchKind {
    /// A struct of foreign callbacks with a receiver handle and a destructor slot.
    Callbacks,
    /// A class of the host runtime that holds either a native implementer or a script object.
    ScriptClass,
}

/// A method of the interface implemented on the dispatch object: it calls `slot` with the
/// arguments `call_args` (for callbacks, the receiver handle `this` first).
pub struct Forwarder {
    pub method: String,
    pub params: Vec<Param>,
    pub ret: TypeExpr,
    pub slot: String,
    pub call_args: Vec<String>,
}

/// The adapter of one method for a native implementer: it reaches the implementer through
/// the receiver, calls its method `original` with the arguments `arg_names`, and, when
/// `keeps_receiver`, leaves the implementer in place for later calls.
pub struct Trampoline {
    pub name: String,
    pub original: String,
    pub params: Vec<Param>,
    pub ret: TypeExpr,
    pub arg_names: Vec<String>,
    pub keeps_receiver: bool,
}

/// The dispatch object synthesized for an interface: its struct, the functions that create
/// and release it, one slot per method, the implementation of the interface on it
/// (`forwarders`), and the adapter from any native implementer (`trampolines`).
pub struct ExposedTrait {
    pub name: String,
    pub kind: DispatchKind,
    pub struct_name: String,
    pub constructor: String,
    pub destructor: String,
    pub supertrait: Vec<String>,
    pub slots: Vec<DispatchSlot>,
    pub forwarders: Vec<Forwarder>,
    pub trampolines: Vec<Trampoline>,
}

/// Does the list of markers hold `m`?
pub fn has_marker(markers: &Vec<Marker>, m: Marker) -> (r: bool)
    ensures
        r == markers@.contains(m),
{
    let mut k: usize = 0;
    while k < markers.len()
        invariant
            k <= markers@.len(),
            forall|j: int| 0 <= j < k ==> markers@[j] != m,
        decreases markers@.len() - k,
    {
        if markers[k] == m {
            proof {
                assert(markers@[k as int] == m);
            }
            return true;
        }
        k += 1;
    }
    false
}

} // verus!
