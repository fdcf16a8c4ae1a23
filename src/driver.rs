use vstd::prelude::*;

use crate::decl::{ExposedFn, ExposedImpl, ExposedStruct, ExposedTrait, FnDecl, ImplDecl, StructDecl, TraitDecl};
use crate::lang::Backend;
use crate::types::{clone_string_vec, strs_of, Ty, TypeExpr};

verus! {

/// An annotated item of a module.
pub enum Item {
    Mod(ModuleDecl),
    Fn(FnDecl),
    Struct(StructDecl),
    Impl(ImplDecl),
    Trait(TraitDecl),
}

/// A module and its annotated items.
pub struct ModuleDecl {
    pub name: String,
    pub items: Vec<Item>,
}

/// An entry of a module's export manifest, registered when the module is initialized.
#[derive(Debug, PartialEq, Eq)]
pub enum ModuleItem {
    Function(String),
    Structure(String),
    Module(String),
    Trait(String),
}

/// An emitted item.
pub enum ExposedItem {
    Mod(ExposedModule),
    Fn(ExposedFn),
    Struct(ExposedStruct),
    Impl(ExposedImpl),
    Trait(ExposedTrait),
}

/// An emitted module: its items, and the manifest of what it exports. A module at the top of
/// the tree is the one that the host runtime initializes.
pub struct ExposedModule {
    pub name: String,
    pub path: Vec<String>,
    pub items: Vec<ExposedItem>,
    pub exports: Vec<ModuleItem>,
    pub top_level: bool,
}

/// The model of a manifest entry.
pub enum Export {
    Function(Seq<char>),
    Structure(Seq<char>),
    Module(Seq<char>),
    Trait(Seq<char>),
}

pub open spec fn export_model(e: ModuleItem) -> Export {
    match e {
        ModuleItem::Function(n) => Export::Function(n@),
        ModuleItem::Structure(n) => Export::Structure(n@),
        ModuleItem::Module(n) => Export::Module(n@),
        ModuleItem::Trait(n) => Export::Trait(n@),
    }
}

/// What an emitted item adds to its module's manifest: every item but an implementation
/// block, under its emitted name (the dispatch struct's, for an interface).
pub open spec fn export_of(i: ExposedItem) -> Seq<Export> {
    match i {
        ExposedItem::Mod(m) => seq![Export::Module(m.name@)],
        ExposedItem::Fn(f) => seq![Export::Function(f.name@)],
        ExposedItem::Struct(s) => seq![Export::Structure(s.name@)],
        ExposedItem::Impl(_) => Seq::empty(),
        ExposedItem::Trait(t) => seq![Export::Trait(t.struct_name@)],
    }
}

/// The manifest of a module whose emitted items are `items`, in order.
pub open spec fn manifest(items: Seq<ExposedItem>) -> Seq<Export>
    decreases items.len(),
{
    if items.len() == 0 {
        Seq::empty()
    } else {
        manifest(items.drop_last()) + export_of(items.last())
    }
}

/// Is `e` the emitted form of the same kind of item as `d`?
pub open spec fn same_kind(d: Item, e: ExposedItem) -> bool {
    match d {
        Item::Mod(_) => e is Mod,
        Item::Fn(_) => e is Fn,
        Item::Struct(_) => e is Struct,
        Item::Impl(_) => e is Impl,
        Item::Trait(_) => e is Trait,
    }
}

/// Does `lang` accept every declaration of the module `m`, nested modules included, when `m`
/// stands in the module at `path`?
pub open spec fn module_accepted<L: Backend>(lang: L, m: ModuleDecl, path: Seq<Seq<char>>) -> bool
    decreases m,
{
    items_accepted(lang, m.items@, path.push(m.name@))
}

/// Does `lang` accept every one of the items of the module at `path`?
pub open spec fn items_accepted<L: Backend>(lang: L, items: Seq<Item>, path: Seq<Seq<char>>) -> bool
    decreases items,
{
    if items.len() == 0 {
        true
    } else {
        items_accepted(lang, items.drop_last(), path) && item_accepted(lang, items.last(), path)
    }
}

pub open spec fn item_accepted<L: Backend>(lang: L, i: Item, path: Seq<Seq<char>>) -> bool
    decreases i,
{
    match i {
        Item::Mod(m) => module_accepted(lang, m, path),
        Item::Fn(f) => lang.fn_accepted(f, path),
        Item::Struct(s) => lang.struct_accepted(s),
        Item::Impl(imp) => lang.impl_accepted(imp),
        Item::Trait(t) => lang.trait_accepted(t),
    }
}

/// A refused generation pass: the declaration that the backend refused, and its error.
#[derive(Debug)]
pub struct Refusal<E> {
    pub declaration: String,
    pub error: E,
}

/// The name of an item, as a diagnostic names it: an implementation block by its type.
pub open spec fn item_name(i: Item) -> Seq<char> {
    match i {
        Item::Mod(m) => m.name@,
        Item::Fn(f) => f.name@,
        Item::Struct(s) => s.name@,
        Item::Impl(imp) => match imp.self_ty@ {
            Ty::Path { segments, .. } => if segments.len() > 0 { segments.last() } else { Seq::empty() },
            _ => Seq::empty(),
        },
        Item::Trait(t) => t.name@,
    }
}

/// The first declaration among `items` that `lang` refuses, looking into nested modules.
pub open spec fn first_refusal<L: Backend>(lang: L, items: Seq<Item>, path: Seq<Seq<char>>) -> Option<Seq<char>>
    decreases items,
{
    if items.len() == 0 {
        None
    } else {
        match first_refusal(lang, items.drop_last(), path) {
            Some(n) => Some(n),
            None => if item_accepted(lang, items.last(), path) {
                None
            } else {
                Some(refused_name(lang, items.last(), path))
            },
        }
    }
}

/// The declaration that a diagnostic names for the refused item `i`: inside a module, the
/// first refused declaration of the module.
pub open spec fn refused_name<L: Backend>(lang: L, i: Item, path: Seq<Seq<char>>) -> Seq<char>
    decreases i,
{
    match i {
        Item::Mod(m) => match first_refusal(lang, m.items@, path.push(m.name@)) {
            Some(n) => n,
            None => m.name@,
        },
        _ => item_name(i),
    }
}

/// Every item of `items` is accepted exactly when none is refused.
pub proof fn lemma_first_refusal<L: Backend>(lang: L, items: Seq<Item>, path: Seq<Seq<char>>)
    ensures
        items_accepted(lang, items, path) <==> first_refusal(lang, items, path) is None,
    decreases items.len(),
{
    if items.len() > 0 {
        lemma_first_refusal(lang, items.drop_last(), path);
    }
}

/// Once a prefix of the items has a first refusal, it is the first refusal of them all.
pub proof fn lemma_first_refusal_prefix<L: Backend>(lang: L, items: Seq<Item>, path: Seq<Seq<char>>, m: int, n: Seq<char>)
    requires
        0 <= m <= items.len(),
        first_refusal(lang, items.take(m), path) == Some(n),
    ensures
        first_refusal(lang, items, path) == Some(n),
    decreases items.len() - m,
{
    if m < items.len() {
        assert(items.take(m + 1).drop_last() =~= items.take(m));
        lemma_first_refusal_prefix(lang, items, path, m + 1, n);
    } else {
        assert(items.take(m) =~= items);
    }
}

/// Once a prefix of the items is refused, so are all of them.
pub proof fn lemma_items_refused<L: Backend>(lang: L, items: Seq<Item>, path: Seq<Seq<char>>, m: int)
    requires
        0 <= m <= items.len(),
        !items_accepted(lang, items.take(m), path),
    ensures
        !items_accepted(lang, items, path),
    decreases items.len() - m,
{
    if m < items.len() {
        assert(items.take(m + 1).drop_last() =~= items.take(m));
        lemma_items_refused(lang, items, path, m + 1);
    } else {
        assert(items.take(m) =~= items);
    }
}

/// The name by which a diagnostic names an item.
pub fn declaration_name(item: &Item) -> (r: String)
    ensures
        r@ == item_name(*item),
{
    match item {
        Item::Mod(m) => m.name.clone(),
        Item::Fn(f) => f.name.clone(),
        Item::Struct(s) => s.name.clone(),
        Item::Impl(imp) => match &imp.self_ty {
            TypeExpr::Path { segments, .. } => {
                if segments.len() > 0 {
                    proof {
                        assert(strs_of(segments@).last() == segments@[segments@.len() - 1]@);
                    }
                    segments[segments.len() - 1].clone()
                } else {
                    String::new()
                }
            },
            _ => String::new(),
        },
        Item::Trait(t) => t.name.clone(),
    }
}

/// Walks a module once, outermost first: each annotated item goes to `lang`, and each nested
/// module is finished before its parent, so that the parent's manifest is complete. The first
/// refused item refuses the whole module.
#[verifier::loop_isolation(false)]
pub fn analyze_module<L: Backend>(lang: &L, module: ModuleDecl, path: &Vec<String>) -> (r: Result<ExposedModule, Refusal<L::Error>>)
    ensures
        r is Ok <==> module_accepted(*lang, module, strs_of(path@)),
        r matches Err(rf) ==> first_refusal(*lang, module.items@, strs_of(path@).push(module.name@)) == Some(rf.declaration@),
        r matches Ok(m) ==> {
            &&& m.name@ == module.name@
            &&& strs_of(m.path@) == strs_of(path@).push(module.name@)
            &&& m.top_level == (path@.len() == 0)
            &&& m.items@.len() == module.items@.len()
            &&& forall|k: int| 0 <= k < m.items@.len() ==> same_kind(module.items@[k], #[trigger] m.items@[k])
            &&& m.exports@.map_values(|e: ModuleItem| export_model(e)) == manifest(m.items@)
        },
    decreases module,
{
    let ModuleDecl { name, items } = module;
    let mut inner_path = clone_string_vec(path);
    inner_path.push(name.clone());
    proof {
        assert(strs_of(inner_path@) =~= strs_of(path@).push(name@));
    }
    let ghost all = items@;
    let n = items.len();
    let mut rest = items;
    let mut out: Vec<ExposedItem> = Vec::new();
    let mut exports: Vec<ModuleItem> = Vec::new();
    let mut k: usize = 0;
    proof {
        assert(out@.take(0) =~= out@);
        assert(all.take(0) =~= Seq::<Item>::empty());
    }
    while k < n
        invariant
            k <= n,
            n == all.len(),
            rest@ == all.subrange(k as int, n as int),
            out@.len() == k,
            forall|j: int| 0 <= j < k ==> same_kind(all[j], #[trigger] out@[j]),
            exports@.map_values(|e: ModuleItem| export_model(e)) == manifest(out@),
            items_accepted(*lang, all.take(k as int), strs_of(inner_path@)),
            first_refusal(*lang, all.take(k as int), strs_of(inner_path@)) is None,
        decreases n - k,
    {
        let item = rest.remove(0);
        proof {
            assert(all.subrange(k as int, n as int).remove(0) =~= all.subrange(k + 1, n as int));
            assert(item == all[k as int]);
        }
        let ghost before = out@;
        let ghost ip = strs_of(inner_path@);
        let ghost ig = item;
        proof {
            assert(all.take(k + 1).drop_last() =~= all.take(k as int));
            assert(all.take(k + 1).last() == item);
        }
        let decl_name = declaration_name(&item);
        let emitted = match item {
            Item::Mod(m) => {
                proof {
                    assert(decreases_to!(module => module.items));
                    assert(decreases_to!(module.items => module.items@));
                    assert(decreases_to!(module.items@ => module.items@[k as int]));
                }
                match analyze_module(lang, m, &inner_path) {
                    Ok(x) => {
                        exports.push(ModuleItem::Module(x.name.clone()));
                        ExposedItem::Mod(x)
                    },
                    Err(e) => {
                        proof {
                            assert(!item_accepted(*lang, ig, ip));
                            assert(!items_accepted(*lang, all.take(k + 1), ip));
                            lemma_items_refused(*lang, all, ip, k + 1);
                            assert(refused_name(*lang, ig, ip) == e.declaration@);
                            assert(first_refusal(*lang, all.take(k + 1), ip) == Some(e.declaration@));
                            lemma_first_refusal_prefix(*lang, all, ip, k + 1, e.declaration@);
                        }
                        return Err(e);
                    },
                }
            },
            Item::Fn(f) => match lang.expose_function(f, &inner_path) {
                Ok(x) => {
                    exports.push(ModuleItem::Function(x.name.clone()));
                    ExposedItem::Fn(x)
                },
                Err(e) => {
                    proof {
                        assert(!item_accepted(*lang, ig, ip));
                        assert(!items_accepted(*lang, all.take(k + 1), ip));
                        lemma_items_refused(*lang, all, ip, k + 1);
                        assert(refused_name(*lang, ig, ip) == item_name(ig));
                        assert(first_refusal(*lang, all.take(k + 1), ip) == Some(decl_name@));
                        lemma_first_refusal_prefix(*lang, all, ip, k + 1, decl_name@);
                    }
                    return Err(Refusal { declaration: decl_name, error: e });
                },
            },
            Item::Struct(st) => match lang.expose_structure(st) {
                Ok(x) => {
                    exports.push(ModuleItem::Structure(x.name.clone()));
                    ExposedItem::Struct(x)
                },
                Err(e) => {
                    proof {
                        assert(!item_accepted(*lang, ig, ip));
                        assert(!items_accepted(*lang, all.take(k + 1), ip));
                        lemma_items_refused(*lang, all, ip, k + 1);
                        assert(refused_name(*lang, ig, ip) == item_name(ig));
                        assert(first_refusal(*lang, all.take(k + 1), ip) == Some(decl_name@));
                        lemma_first_refusal_prefix(*lang, all, ip, k + 1, decl_name@);
                    }
                    return Err(Refusal { declaration: decl_name, error: e });
                },
            },
            Item::Impl(i) => match lang.expose_implementation(i) {
                Ok(x) => ExposedItem::Impl(x),
                Err(e) => {
                    proof {
                        assert(!item_accepted(*lang, ig, ip));
                        assert(!items_accepted(*lang, all.take(k + 1), ip));
                        lemma_items_refused(*lang, all, ip, k + 1);
                        assert(refused_name(*lang, ig, ip) == item_name(ig));
                        assert(first_refusal(*lang, all.take(k + 1), ip) == Some(decl_name@));
                        lemma_first_refusal_prefix(*lang, all, ip, k + 1, decl_name@);
                    }
                    return Err(Refusal { declaration: decl_name, error: e });
                },
            },
            Item::Trait(t) => match lang.expose_interface(t) {
                Ok(x) => {
                    exports.push(ModuleItem::Trait(x.struct_name.clone()));
                    ExposedItem::Trait(x)
                },
                Err(e) => {
                    proof {
                        assert(!item_accepted(*lang, ig, ip));
                        assert(!items_accepted(*lang, all.take(k + 1), ip));
                        lemma_items_refused(*lang, all, ip, k + 1);
                        assert(refused_name(*lang, ig, ip) == item_name(ig));
                        assert(first_refusal(*lang, all.take(k + 1), ip) == Some(decl_name@));
                        lemma_first_refusal_prefix(*lang, all, ip, k + 1, decl_name@);
                    }
                    return Err(Refusal { declaration: decl_name, error: e });
                },
            },
        };
        out.push(emitted);
        proof {
            assert(item_accepted(*lang, ig, ip));
            assert(items_accepted(*lang, all.take(k + 1), ip));
            assert(first_refusal(*lang, all.take(k + 1), ip) is None);
            assert(out@.drop_last() =~= before);
            assert(exports@.map_values(|e: ModuleItem| export_model(e)) =~= manifest(before) + export_of(out@.last()));
        }
        k += 1;
    }
    proof {
        assert(all.take(n as int) =~= all);
        lemma_first_refusal(*lang, all, strs_of(inner_path@));
    }
    Ok(ExposedModule { name, path: inner_path, items: out, exports, top_level: path.len() == 0 })
}

} // verus!
