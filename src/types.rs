use vstd::prelude::*;

verus! {

/// A native type expression, as read from a declaration.
#[derive(Debug, PartialEq, Eq)]
pub enum TypeExpr {
    Unit,
    SelfType,
    /// A path such as `std::string::String`; `args` are the generic arguments of its last segment.
    Path { segments: Vec<String>, args: Vec<TypeExpr> },
    Ref { mutable: bool, elem: Box<TypeExpr> },
    Ptr { mutable: bool, elem: Box<TypeExpr> },
    Array { elem: Box<TypeExpr>, len: usize },
    Slice { elem: Box<TypeExpr> },
    Tuple { elems: Vec<TypeExpr> },
    BareFn { params: Vec<BareParam>, ret: Box<TypeExpr>, extern_c: bool },
    /// `<ty as trait_path>::name`.
    Projection { ty: Box<TypeExpr>, trait_path: Vec<String>, name: String },
}

/// A parameter of a bare function type.
#[derive(Debug, PartialEq, Eq)]
pub struct BareParam {
    pub name: Option<String>,
    pub ty: TypeExpr,
}

/// The mathematical model of a `TypeExpr`.
pub enum Ty {
    Unit,
    SelfType,
    Path { segments: Seq<Seq<char>>, args: Seq<Ty> },
    Ref { mutable: bool, elem: Box<Ty> },
    Ptr { mutable: bool, elem: Box<Ty> },
    Array { elem: Box<Ty>, len: nat },
    Slice { elem: Box<Ty> },
    Tuple { elems: Seq<Ty> },
    BareFn { names: Seq<Option<Seq<char>>>, params: Seq<Ty>, ret: Box<Ty>, extern_c: bool },
    Projection { ty: Box<Ty>, trait_path: Seq<Seq<char>>, name: Seq<char> },
}

pub open spec fn strs_of(s: Seq<String>) -> Seq<Seq<char>> {
    s.map_values(|x: String| x@)
}

pub open spec fn name_of(n: Option<String>) -> Option<Seq<char>> {
    match n {
        Some(s) => Some(s@),
        None => None,
    }
}

/// The names of the parameters of a bare function type.
pub open spec fn param_names(ps: Seq<BareParam>) -> Seq<Option<Seq<char>>> {
    ps.map_values(|p: BareParam| name_of(p.name))
}

pub open spec fn ty_of(t: TypeExpr) -> Ty
    decreases t,
{
    match t {
        TypeExpr::Unit => Ty::Unit,
        TypeExpr::SelfType => Ty::SelfType,
        TypeExpr::Path { segments, args } => Ty::Path { segments: strs_of(segments@), args: tys_of(args@) },
        TypeExpr::Ref { mutable, elem } => Ty::Ref { mutable, elem: Box::new(ty_of(*elem)) },
        TypeExpr::Ptr { mutable, elem } => Ty::Ptr { mutable, elem: Box::new(ty_of(*elem)) },
        TypeExpr::Array { elem, len } => Ty::Array { elem: Box::new(ty_of(*elem)), len: len as nat },
        TypeExpr::Slice { elem } => Ty::Slice { elem: Box::new(ty_of(*elem)) },
        TypeExpr::Tuple { elems } => Ty::Tuple { elems: tys_of(elems@) },
        TypeExpr::BareFn { params, ret, extern_c } => Ty::BareFn {
            names: param_names(params@),
            params: param_tys_of(params@),
            ret: Box::new(ty_of(*ret)),
            extern_c,
        },
        TypeExpr::Projection { ty, trait_path, name } => Ty::Projection {
            ty: Box::new(ty_of(*ty)),
            trait_path: strs_of(trait_path@),
            name: name@,
        },
    }
}

pub open spec fn tys_of(s: Seq<TypeExpr>) -> Seq<Ty>
    decreases s,
{
    if s.len() == 0 {
        Seq::empty()
    } else {
        seq![ty_of(s[0])] + tys_of(s.subrange(1, s.len() as int))
    }
}

pub open spec fn param_tys_of(s: Seq<BareParam>) -> Seq<Ty>
    decreases s,
{
    if s.len() == 0 {
        Seq::empty()
    } else {
        seq![ty_of(s[0].ty)] + param_tys_of(s.subrange(1, s.len() as int))
    }
}

impl View for TypeExpr {
    type V = Ty;

    open spec fn view(&self) -> Ty {
        ty_of(*self)
    }
}


pub proof fn lemma_tys_of(s: Seq<TypeExpr>)
    ensures
        tys_of(s).len() == s.len(),
        forall|i: int| 0 <= i < s.len() ==> #[trigger] tys_of(s)[i] == ty_of(s[i]),
    decreases s.len(),
{
    if s.len() > 0 {
        lemma_tys_of(s.subrange(1, s.len() as int));
        assert forall|i: int| 0 <= i < s.len() implies #[trigger] tys_of(s)[i] == ty_of(s[i]) by {
            if i > 0 {
                assert(s.subrange(1, s.len() as int)[i - 1] == s[i]);
            }
        }
    }
}

pub proof fn lemma_param_tys_of(s: Seq<BareParam>)
    ensures
        param_tys_of(s).len() == s.len(),
        forall|i: int| 0 <= i < s.len() ==> #[trigger] param_tys_of(s)[i] == ty_of(s[i].ty),
    decreases s.len(),
{
    if s.len() > 0 {
        lemma_param_tys_of(s.subrange(1, s.len() as int));
        assert forall|i: int| 0 <= i < s.len() implies #[trigger] param_tys_of(s)[i] == ty_of(s[i].ty) by {
            if i > 0 {
                assert(s.subrange(1, s.len() as int)[i - 1] == s[i]);
            }
        }
    }
}

/// Two sequences of type expressions have the same models.
pub proof fn lemma_tys_of_ext(a: Seq<TypeExpr>, b: Seq<TypeExpr>)
    requires
        a.len() == b.len(),
        forall|i: int| 0 <= i < a.len() ==> ty_of(#[trigger] a[i]) == ty_of(b[i]),
    ensures
        tys_of(a) == tys_of(b),
{
    lemma_tys_of(a);
    lemma_tys_of(b);
    assert(tys_of(a) =~= tys_of(b));
}

pub fn clone_string_vec(v: &Vec<String>) -> (r: Vec<String>)
    ensures
        strs_of(r@) == strs_of(v@),
        r@.len() == v@.len(),
{
    let mut r: Vec<String> = Vec::new();
    let mut i: usize = 0;
    while i < v.len()
        invariant
            i <= v@.len(),
            r@.len() == i,
            forall|j: int| 0 <= j < i ==> #[trigger] r@[j]@ == v@[j]@,
        decreases v@.len() - i,
    {
        r.push(v[i].clone());
        i += 1;
    }
    assert(strs_of(r@) =~= strs_of(v@));
    r
}

impl TypeExpr {
    /// A copy of the type expression with the same model.
    pub fn duplicate(&self) -> (r: TypeExpr)
        ensures
            r@ == self@,
        decreases self,
    {
        match self {
            TypeExpr::Unit => TypeExpr::Unit,
            TypeExpr::SelfType => TypeExpr::SelfType,
            TypeExpr::Path { segments, args } => {
                let segments = clone_string_vec(segments);
                let args = duplicate_all(args);
                TypeExpr::Path { segments, args }
            },
            TypeExpr::Ref { mutable, elem } => TypeExpr::Ref {
                mutable: *mutable,
                elem: Box::new((**elem).duplicate()),
            },
            TypeExpr::Ptr { mutable, elem } => TypeExpr::Ptr {
                mutable: *mutable,
                elem: Box::new((**elem).duplicate()),
            },
            TypeExpr::Array { elem, len } => TypeExpr::Array {
                elem: Box::new((**elem).duplicate()),
                len: *len,
            },
            TypeExpr::Slice { elem } => TypeExpr::Slice { elem: Box::new((**elem).duplicate()) },
            TypeExpr::Tuple { elems } => TypeExpr::Tuple { elems: duplicate_all(elems) },
            TypeExpr::BareFn { params, ret, extern_c } => {
                let out = duplicate_params(params);
                TypeExpr::BareFn { params: out, ret: Box::new((**ret).duplicate()), extern_c: *extern_c }
            },
            TypeExpr::Projection { ty, trait_path, name } => TypeExpr::Projection {
                ty: Box::new((**ty).duplicate()),
                trait_path: clone_string_vec(trait_path),
                name: name.clone(),
            },
        }
    }
}

/// Copies of each parameter, with the same names and models.
pub fn duplicate_params(params: &Vec<BareParam>) -> (out: Vec<BareParam>)
    ensures
        param_tys_of(out@) == param_tys_of(params@),
        param_names(out@) == param_names(params@),
        out@.len() == params@.len(),
    decreases params,
{
    let mut out: Vec<BareParam> = Vec::new();
    let mut i: usize = 0;
    while i < params.len()
        invariant
            i <= params@.len(),
            out@.len() == i,
            forall|j: int| 0 <= j < i ==> (#[trigger] out@[j]).ty@ == params@[j].ty@
                && name_of(out@[j].name) == name_of(params@[j].name),
        decreases params@.len() - i,
    {
        let name = match &params[i].name {
            Some(n) => Some(n.clone()),
            None => None,
        };
        assert(decreases_to!(params => params@[i as int].ty)) by {
            assert(decreases_to!(params => params@));
        }
        out.push(BareParam { name, ty: params[i].ty.duplicate() });
        i += 1;
    }
    proof {
        lemma_param_tys_of(out@);
        lemma_param_tys_of(params@);
        assert(param_tys_of(out@) =~= param_tys_of(params@));
        assert(param_names(out@) =~= param_names(params@));
    }
    out
}

/// Copies of each type expression, with the same models.
pub fn duplicate_all(v: &Vec<TypeExpr>) -> (r: Vec<TypeExpr>)
    ensures
        r@.len() == v@.len(),
        tys_of(r@) == tys_of(v@),
        forall|j: int| 0 <= j < v@.len() ==> #[trigger] r@[j]@ == v@[j]@,
    decreases v,
{
    let mut r: Vec<TypeExpr> = Vec::new();
    let mut i: usize = 0;
    while i < v.len()
        invariant
            i <= v@.len(),
            r@.len() == i,
            forall|j: int| 0 <= j < i ==> #[trigger] r@[j]@ == v@[j]@,
        decreases v@.len() - i,
    {
        assert(decreases_to!(v => v@[i as int])) by {
            assert(decreases_to!(v => v@));
        }
        r.push(v[i].duplicate());
        i += 1;
    }
    proof {
        assert forall|j: int| 0 <= j < r@.len() implies ty_of(#[trigger] r@[j]) == ty_of(v@[j]) by {
            assert(r@[j]@ == v@[j]@);
        }
        lemma_tys_of_ext(r@, v@);
    }
    r
}


/// The model of a list of types folded into one type position.
pub open spec fn tuple_of(s: Seq<Ty>) -> Ty {
    if s.len() == 0 {
        Ty::Unit
    } else if s.len() == 1 {
        s[0]
    } else {
        Ty::Tuple { elems: s }
    }
}

/// The model of a path type without generic arguments.
pub open spec fn plain_path(segments: Seq<Seq<char>>) -> Ty {
    Ty::Path { segments, args: Seq::empty() }
}

/// The model of a one-segment path type with the given generic arguments.
pub open spec fn named(name: Seq<char>, args: Seq<Ty>) -> Ty {
    Ty::Path { segments: seq![name], args }
}

/// Does `t` name exactly the path `segments`, with no generic arguments?
pub open spec fn is_fixed(t: Ty, segments: Seq<Seq<char>>) -> bool {
    t == plain_path(segments)
}

/// The generic arguments of `t` when `t` is an instance of the container `segments`.
pub open spec fn generic_args(t: Ty, segments: Seq<Seq<char>>) -> Option<Seq<Ty>> {
    match t {
        Ty::Path { segments: s, args } => if s == segments && args.len() > 0 {
            Some(args)
        } else {
            None
        },
        _ => None,
    }
}

/// Fold a list of types into a single type: `()` for none, the type itself for one,
/// and an ordered tuple otherwise.
pub fn as_tuple(types: Vec<TypeExpr>) -> (r: TypeExpr)
    ensures
        r@ == tuple_of(tys_of(types@)),
{
    proof {
        lemma_tys_of(types@);
    }
    if types.len() == 0 {
        TypeExpr::Unit
    } else if types.len() == 1 {
        let mut types = types;
        let r = types.pop().unwrap();
        r
    } else {
        TypeExpr::Tuple { elems: types }
    }
}

/// Are the two lists of names equal?
pub fn same_strings(a: &Vec<String>, b: &Vec<String>) -> (r: bool)
    ensures
        r == (strs_of(a@) == strs_of(b@)),
{
    if a.len() != b.len() {
        proof {
            assert(strs_of(a@).len() != strs_of(b@).len());
        }
        return false;
    }
    let mut i: usize = 0;
    while i < a.len()
        invariant
            a@.len() == b@.len(),
            i <= a@.len(),
            forall|j: int| 0 <= j < i ==> #[trigger] a@[j]@ == b@[j]@,
        decreases a@.len() - i,
    {
        if a[i] != b[i] {
            proof {
                assert(strs_of(a@)[i as int] != strs_of(b@)[i as int]);
            }
            return false;
        }
        i += 1;
    }
    assert(strs_of(a@) =~= strs_of(b@));
    true
}

/// Does `ty` name exactly `path`, without generic arguments?
pub fn match_fixed_type(ty: &TypeExpr, path: &Vec<String>) -> (r: bool)
    ensures
        r == is_fixed(ty@, strs_of(path@)),
{
    match ty {
        TypeExpr::Path { segments, args } => {
            proof {
                lemma_tys_of(args@);
            }
            if args.len() != 0 {
                return false;
            }
            let r = same_strings(segments, path);
            proof {
                if r {
                    assert(tys_of(args@) =~= Seq::<Ty>::empty());
                }
            }
            r
        },
        _ => false,
    }
}

/// When `ty` is an instance of the generic container `path`, its type arguments in
/// declaration order.
pub fn match_generic_type(ty: &TypeExpr, path: &Vec<String>) -> (r: Option<Vec<TypeExpr>>)
    ensures
        match r {
            Some(v) => generic_args(ty@, strs_of(path@)) == Some(tys_of(v@)),
            None => generic_args(ty@, strs_of(path@)).is_none(),
        },
{
    match ty {
        TypeExpr::Path { segments, args } => {
            proof {
                lemma_tys_of(args@);
            }
            if args.len() == 0 || !same_strings(segments, path) {
                return None;
            }
            Some(duplicate_all(args))
        },
        _ => None,
    }
}

/// A path of one segment, without generic arguments.
pub fn simple_path(name: &str) -> (r: TypeExpr)
    ensures
        r@ == named(name@, Seq::empty()),
{
    let mut segments: Vec<String> = Vec::new();
    segments.push(String::from_str(name));
    let r = TypeExpr::Path { segments, args: Vec::new() };
    proof {
        assert(strs_of(segments@) =~= seq![name@]);
        assert(tys_of(Seq::<TypeExpr>::empty()) =~= Seq::<Ty>::empty());
    }
    r
}

/// A path of one segment, with generic arguments.
pub fn generic_path(name: &str, args: Vec<TypeExpr>) -> (r: TypeExpr)
    ensures
        r@ == named(name@, tys_of(args@)),
{
    let mut segments: Vec<String> = Vec::new();
    segments.push(String::from_str(name));
    proof {
        assert(strs_of(segments@) =~= seq![name@]);
    }
    TypeExpr::Path { segments, args }
}

/// A path of two segments, without generic arguments.
pub fn qualified_path(first: &str, second: &str) -> (r: TypeExpr)
    ensures
        r@ == plain_path(seq![first@, second@]),
{
    let mut segments: Vec<String> = Vec::new();
    segments.push(String::from_str(first));
    segments.push(String::from_str(second));
    proof {
        assert(strs_of(segments@) =~= seq![first@, second@]);
        assert(tys_of(Seq::<TypeExpr>::empty()) =~= Seq::<Ty>::empty());
    }
    TypeExpr::Path { segments, args: Vec::new() }
}

/// `<ty as crate::common::WrappedStructField>::name`: the storage, getter or setter type of a
/// wrapped struct field.
pub fn wrapped_field_type(ty: TypeExpr, name: &str) -> (r: TypeExpr)
    ensures
        r@ == wrapped_ty(ty@, name@),
{
    let mut trait_path: Vec<String> = Vec::new();
    trait_path.push(String::from_str("crate"));
    trait_path.push(String::from_str("common"));
    trait_path.push(String::from_str("WrappedStructField"));
    proof {
        assert(strs_of(trait_path@) =~= seq!["crate"@, "common"@, "WrappedStructField"@]);
    }
    TypeExpr::Projection { ty: Box::new(ty), trait_path, name: String::from_str(name) }
}

pub open spec fn wrapped_ty(t: Ty, name: Seq<char>) -> Ty {
    Ty::Projection { ty: Box::new(t), trait_path: seq!["crate"@, "common"@, "WrappedStructField"@], name }
}

/// A list holding one name.
pub fn one_name(name: &str) -> (r: Vec<String>)
    ensures
        strs_of(r@) == seq![name@],
{
    let mut r: Vec<String> = Vec::new();
    r.push(String::from_str(name));
    proof {
        assert(strs_of(r@) =~= seq![name@]);
    }
    r
}

} // verus!
