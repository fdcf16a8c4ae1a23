use vstd::prelude::*;

use crate::mapping::{input_wf, output_conv_of, output_wf, Input, InputView, LowerModel, Output, OutputView};
use crate::decl::{ExposedFn, ExposedImpl, ExposedStruct, ExposedTrait, FnDecl, ImplDecl, StructDecl, TraitDecl};
use crate::types::{strs_of, Ty, TypeExpr};

verus! {

/// Errors shared by every backend.
#[derive(Debug, Clone, Copy, PartialEq, Eq, Structural)]
pub enum LangError {
    /// A function parameter is bound by a pattern other than a plain name.
    ComplexPatternFnArg,
    /// More than one heap-allocated type returned through one by-reference output.
    MultipleTypesByReference,
    /// Malformed options in an interface export annotation.
    ExposeTraitAttrError,
    /// Malformed options in a struct export annotation.
    ExposeStructAttrError,
}

/// What a target backend supplies: its type mappings, in both directions.
pub trait Lang {
    type Error;

    /// The mapping of a type flowing in, or the error that refuses it.
    spec fn input_model(&self, t: Ty) -> Result<InputView, Self::Error>;

    /// The mapping of a type flowing out (its wire model and its conversion), or the error
    /// that refuses it.
    spec fn output_model(&self, t: Ty) -> Result<(OutputView, LowerModel), Self::Error>;

    /// The backend's error for a shared error.
    spec fn wraps(e: LangError) -> Self::Error;

    fn lang_error(e: LangError) -> (r: Self::Error)
        ensures
            r == Self::wraps(e),
    ;

    fn convert_input(&self, ty: &TypeExpr) -> (r: Result<Input, Self::Error>)
        ensures
            match r {
                Ok(i) => input_wf(i) && self.input_model(ty@) == Ok::<InputView, Self::Error>(i@),
                Err(e) => self.input_model(ty@) == Err::<InputView, Self::Error>(e),
            },
    ;

    fn convert_output(&self, ty: &TypeExpr) -> (r: Result<Output, Self::Error>)
        ensures
            match r {
                Ok(o) => output_wf(o) && self.output_model(ty@) == Ok::<(OutputView, LowerModel), Self::Error>(
                    (o@, output_conv_of(o)),
                ),
                Err(e) => self.output_model(ty@) == Err::<(OutputView, LowerModel), Self::Error>(e),
            },
    ;
}

/// What a target backend emits for each kind of annotated declaration.
pub trait Backend: Lang {
    /// Does the backend accept the function `f` of the module at `mod_path`?
    spec fn fn_accepted(&self, f: FnDecl, mod_path: Seq<Seq<char>>) -> bool;

    spec fn struct_accepted(&self, st: StructDecl) -> bool;

    spec fn impl_accepted(&self, imp: ImplDecl) -> bool;

    spec fn trait_accepted(&self, tr: TraitDecl) -> bool;

    /// Exposes a function of the module at `mod_path`.
    fn expose_function(&self, f: FnDecl, mod_path: &Vec<String>) -> (r: Result<ExposedFn, Self::Error>)
        ensures
            r is Ok <==> self.fn_accepted(f, strs_of(mod_path@)),
    ;

    /// Exposes a struct.
    fn expose_structure(&self, st: StructDecl) -> (r: Result<ExposedStruct, Self::Error>)
        ensures
            r is Ok <==> self.struct_accepted(st),
    ;

    /// Exposes an implementation block.
    fn expose_implementation(&self, imp: ImplDecl) -> (r: Result<ExposedImpl, Self::Error>)
        ensures
            r is Ok <==> self.impl_accepted(imp),
    ;

    /// Synthesizes the dispatch object of an interface.
    fn expose_interface(&self, tr: TraitDecl) -> (r: Result<ExposedTrait, Self::Error>)
        ensures
            r is Ok <==> self.trait_accepted(tr),
    ;
}

/// Whether a character has the Unicode `Uppercase` property.
pub uninterp spec fn upper_char(c: char) -> bool;

/// The Unicode lowercase mapping of a character (one or more characters).
pub uninterp spec fn lower_chars(c: char) -> Seq<char>;

/// Relies on `char::is_uppercase`: whether `c` has the Unicode `Uppercase` property.
#[verifier::external_body]
fn is_upper(c: char) -> (r: bool)
    ensures
        r == upper_char(c),
{
    c.is_uppercase()
}

/// Relies on `char::to_lowercase`: the lowercase mapping of `c`, collected into a string.
#[verifier::external_body]
fn lowercase_of(c: char) -> (r: String)
    ensures
        r@ == lower_chars(c),
{
    c.to_lowercase().collect()
}

/// Relies on `String::push`: appends one character.
#[verifier::external_body]
fn push_char(s: &mut String, c: char)
    ensures
        final(s)@ == old(s)@.push(c),
{
    s.push(c)
}

/// The snake-case form of a name: each uppercase character becomes its lowercase mapping,
/// preceded by `_` unless it starts the name.
pub open spec fn snake_of(s: Seq<char>) -> Seq<char>
    decreases s.len(),
{
    if s.len() == 0 {
        Seq::empty()
    } else {
        let k = s.len() - 1;
        let c = s[k];
        snake_of(s.take(k)) + if upper_char(c) {
            (if k > 0 { seq!['_'] } else { Seq::empty() }) + lower_chars(c)
        } else {
            seq![c]
        }
    }
}

pub trait ToSnakeCase {
    spec fn snake_model(&self) -> Seq<char>;

    fn to_snake_case(&self) -> (r: String)
        ensures
            r@ == self.snake_model(),
    ;
}

impl ToSnakeCase for str {
    open spec fn snake_model(&self) -> Seq<char> {
        snake_of(self@)
    }

    fn to_snake_case(&self) -> (r: String) {
        let n = self.unicode_len();
        let mut r = String::new();
        let mut i: usize = 0;
        proof {
            assert(self@.take(0) =~= Seq::<char>::empty());
        }
        while i < n
            invariant
                n == self@.len(),
                i <= n,
                r@ == snake_of(self@.take(i as int)),
            decreases n - i,
        {
            let c = self.get_char(i);
            let ghost before = r@;
            if is_upper(c) {
                if i > 0 {
                    push_char(&mut r, '_');
                }
                let low = lowercase_of(c);
                r.append(low.as_str());
            } else {
                push_char(&mut r, c);
            }
            proof {
                let t = self@.take(i + 1);
                assert(t.take(i as int) =~= self@.take(i as int));
                assert(t[i as int] == c);
                if upper_char(c) && i > 0 {
                    assert(r@ =~= before + seq!['_'] + lower_chars(c));
                } else if upper_char(c) {
                    assert(r@ =~= before + lower_chars(c));
                    assert(Seq::<char>::empty() + lower_chars(c) =~= lower_chars(c));
                } else {
                    assert(r@ =~= before + seq![c]);
                }
            }
            i += 1;
        }
        proof {
            assert(self@.take(n as int) =~= self@);
        }
        r
    }
}

impl ToSnakeCase for String {
    open spec fn snake_model(&self) -> Seq<char> {
        snake_of(self@)
    }

    fn to_snake_case(&self) -> (r: String) {
        self.as_str().to_snake_case()
    }
}

} // verus!
