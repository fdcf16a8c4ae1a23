use bdk_ffi::c::{CError, C};
use bdk_ffi::decl::{
    parse_struct_opts, Body, DispatchKind, Emit, ExposeStructOpts, FieldDecl, FnDecl, ImplDecl, Marker,
    StructDecl, TraitDecl, TraitMethodDecl,
};
use bdk_ffi::driver::{analyze_module, ExposedItem, Item, ModuleDecl, ModuleItem};
use bdk_ffi::expand::{Argument, Param};
use bdk_ffi::lang::{Lang, LangError, ToSnakeCase};
use bdk_ffi::mapping::{Input, InputConv, Output, OutputConv, Stmt};
use bdk_ffi::python::{Python, PythonError};
use bdk_ffi::types::{as_tuple, match_fixed_type, match_generic_type, BareParam, TypeExpr};

fn path(name: &str) -> TypeExpr {
    TypeExpr::Path { segments: vec![name.to_string()], args: vec![] }
}

fn generic(name: &str, args: Vec<TypeExpr>) -> TypeExpr {
    TypeExpr::Path { segments: vec![name.to_string()], args }
}

fn qualified(a: &str, b: &str) -> TypeExpr {
    TypeExpr::Path { segments: vec![a.to_string(), b.to_string()], args: vec![] }
}

fn ptr(mutable: bool, t: TypeExpr) -> TypeExpr {
    TypeExpr::Ptr { mutable, elem: Box::new(t) }
}

fn names(v: &[&str]) -> Vec<String> {
    v.iter().map(|s| s.to_string()).collect()
}

fn typed(name: &str, ty: TypeExpr) -> Param {
    Param::Typed { name: name.to_string(), ty }
}

fn func(name: &str, markers: Vec<Marker>, params: Vec<Param>, ret: TypeExpr) -> FnDecl {
    FnDecl { name: name.to_string(), markers, params, ret, body: Body::Native }
}

fn c_backend() -> C {
    C::new(names(&["Point", "Script"]))
}

fn sources(i: &Input) -> Vec<TypeExpr> {
    i.get_sources()
}

#[test]
fn as_tuple_folds_lists() {
    assert_eq!(as_tuple(vec![]), TypeExpr::Unit);
    assert_eq!(as_tuple(vec![path("u32")]), path("u32"));
    assert_eq!(
        as_tuple(vec![path("u32"), path("u8")]),
        TypeExpr::Tuple { elems: vec![path("u32"), path("u8")] }
    );
}

#[test]
fn match_generic_keeps_argument_order() {
    assert!(match_generic_type(&path("Container"), &names(&["Container"])).is_none());
    let t = generic("Container", vec![path("A"), path("B")]);
    assert_eq!(match_generic_type(&t, &names(&["Container"])), Some(vec![path("A"), path("B")]));
    assert!(match_generic_type(&t, &names(&["Other"])).is_none());
}

#[test]
fn match_fixed_needs_no_arguments() {
    assert!(match_fixed_type(&path("String"), &names(&["String"])));
    assert!(!match_fixed_type(&generic("String", vec![path("u8")]), &names(&["String"])));
    assert!(!match_fixed_type(&path("u32"), &names(&["String"])));
}

#[test]
fn c_string_input_is_a_c_char_pointer() {
    let i = c_backend().convert_input(&path("String")).unwrap();
    assert_eq!(sources(&i), vec![ptr(false, qualified("libc", "c_char"))]);
    assert!(matches!(i, Input::MapFrom { .. }));
}

#[test]
fn c_byte_array_input_is_a_byte_pointer() {
    let t = TypeExpr::Array { elem: Box::new(path("u8")), len: 32 };
    let i = c_backend().convert_input(&t).unwrap();
    assert_eq!(sources(&i), vec![ptr(false, path("u8"))]);
}

#[test]
fn c_list_of_strings_input_is_an_arr() {
    let t = generic("Vec", vec![path("String")]);
    let i = c_backend().convert_input(&t).unwrap();
    let arr = TypeExpr::Path {
        segments: names(&["crate", "langs", "Arr"]),
        args: vec![ptr(false, qualified("libc", "c_char"))],
    };
    assert_eq!(sources(&i), vec![arr]);
}

#[test]
fn c_opaque_reference_input_is_a_pointer() {
    let t = TypeExpr::Ref { mutable: false, elem: Box::new(path("Script")) };
    let i = c_backend().convert_input(&t).unwrap();
    assert_eq!(sources(&i), vec![ptr(false, path("Script"))]);
    let i = c_backend().convert_input(&path("u64")).unwrap();
    assert!(matches!(i, Input::Unchanged(_)));
}

#[test]
fn c_destroy_input_is_an_owned_pointer() {
    let t = generic("Destroy", vec![TypeExpr::SelfType]);
    let i = c_backend().convert_input(&t).unwrap();
    assert_eq!(sources(&i), vec![ptr(true, TypeExpr::SelfType)]);
    let t = generic("Destroy", vec![path("Script")]);
    let i = c_backend().convert_input(&t).unwrap();
    assert_eq!(sources(&i), vec![ptr(true, path("Script"))]);
    let t = generic("Destroy", vec![path("String")]);
    let i = c_backend().convert_input(&t).unwrap();
    assert_eq!(sources(&i), vec![ptr(true, ptr(false, qualified("libc", "c_char")))]);
}

#[test]
fn c_optional_string_output_is_one_nullable_pointer() {
    let t = generic("Option", vec![path("String")]);
    let o = c_backend().convert_output(&t).unwrap();
    assert_eq!(o.get_targets(), vec![ptr(true, qualified("libc", "c_char"))]);
    let t = generic("Option", vec![path("u32")]);
    let o = c_backend().convert_output(&t).unwrap();
    assert_eq!(o.get_targets(), vec![ptr(true, path("u32"))]);
}

#[test]
fn c_list_output_is_pointer_and_length() {
    let t = generic("Vec", vec![path("u32")]);
    let o = c_backend().convert_output(&t).unwrap();
    let e = o.expand();
    assert_eq!(e.ty, vec![ptr(true, path("u32")), path("usize")]);
    assert_eq!(e.suffix, names(&["arr", "len"]));
}

#[test]
fn c_opaque_output_is_by_reference() {
    let o = c_backend().convert_output(&path("Script")).unwrap();
    assert!(matches!(o, Output::ByReference(_)));
    assert_eq!(o.get_targets(), vec![ptr(true, path("Script"))]);
}

#[test]
fn c_result_arity_is_checked() {
    let t = generic("Result", vec![path("u32")]);
    assert_eq!(c_backend().convert_output(&t).err(), Some(CError::InvalidResult));
}

#[test]
fn c_result_error_arm_must_be_one_wire_type() {
    let t = generic("Result", vec![path("u32"), generic("Vec", vec![path("u8")])]);
    assert_eq!(c_backend().convert_output(&t).err(), Some(CError::MultipleErrorTypes));
    let t = generic("Result", vec![path("u32"), path("BitcoinError")]);
    let o = c_backend().convert_output(&t).unwrap();
    assert!(matches!(o, Output::Fallible { .. }));
    assert_eq!(o.get_targets(), vec![path("u32")]);
}

#[test]
fn c_callback_needs_named_arguments() {
    let t = TypeExpr::BareFn {
        params: vec![BareParam { name: None, ty: path("u32") }],
        ret: Box::new(TypeExpr::Unit),
        extern_c: false,
    };
    assert_eq!(c_backend().convert_input(&t).err(), Some(CError::UnnamedCallbackArguments));
    assert_eq!(Python.convert_input(&t).err(), Some(PythonError::UnnamedCallbackArguments));
}

#[test]
fn c_callback_becomes_extern_function_pointer() {
    let t = TypeExpr::BareFn {
        params: vec![
            BareParam { name: Some("msg".to_string()), ty: path("String") },
            BareParam { name: Some("items".to_string()), ty: generic("Vec", vec![path("u32")]) },
        ],
        ret: Box::new(path("String")),
        extern_c: false,
    };
    let i = c_backend().convert_input(&t).unwrap();
    let wire = TypeExpr::BareFn {
        params: vec![
            BareParam { name: Some("msg".to_string()), ty: ptr(true, qualified("libc", "c_char")) },
            BareParam { name: Some("items_arr".to_string()), ty: ptr(true, path("u32")) },
            BareParam { name: Some("items_len".to_string()), ty: path("usize") },
        ],
        ret: Box::new(ptr(false, qualified("libc", "c_char"))),
        extern_c: true,
    };
    assert_eq!(sources(&i), vec![wire]);
    match i {
        Input::Custom { conv: InputConv::Callback { call_args, arg_conv, .. }, .. } => {
            assert_eq!(call_args, names(&["msg", "items_arr", "items_len"]));
            assert_eq!(arg_conv.len(), 4);
        }
        _ => panic!("expected a callback conversion"),
    }
}

#[test]
fn argument_expansion_names_wire_parameters() {
    let e = Argument(typed("names", generic("Vec", vec![path("String")]))).expand(&c_backend()).unwrap();
    assert_eq!(e.args.len(), 1);
    match &e.args[0] {
        Param::Typed { name, .. } => assert_eq!(name, "__names_0"),
        _ => panic!("expected a named wire parameter"),
    }
    match &e.conv[0] {
        Stmt::Group { name, parts } => {
            assert_eq!(name, "_temp_names");
            assert_eq!(parts, &names(&["__names_0"]));
        }
        _ => panic!("expected the grouping statement"),
    }
    match &e.conv[1] {
        Stmt::Rebuild { name, source, conv } => {
            assert_eq!(name, "names");
            assert_eq!(source, "_temp_names");
            assert!(matches!(conv, InputConv::MapFrom { .. }));
        }
        _ => panic!("expected the rebuilding statement"),
    }
}

#[test]
fn pattern_parameters_are_refused() {
    let r = Argument(Param::Pattern { ty: path("u32") }).expand(&c_backend());
    assert_eq!(r.err(), Some(CError::Lang(LangError::ComplexPatternFnArg)));
    let r = Argument(Param::Pattern { ty: path("u32") }).expand(&Python);
    assert_eq!(r.err(), Some(PythonError::Lang(LangError::ComplexPatternFnArg)));
}

#[test]
fn receiver_passes_through() {
    let e = Argument(Param::Receiver { reference: true, mutable: false }).expand(&c_backend()).unwrap();
    assert_eq!(e.args, vec![Param::Receiver { reference: true, mutable: false }]);
    assert!(e.conv.is_empty());
}

#[test]
fn greet_scenario_on_the_c_backend() {
    let f = func(
        "greet",
        vec![],
        vec![typed("names", generic("Vec", vec![path("String")]))],
        generic("Option", vec![path("String")]),
    );
    let x = c_backend().expose_fn(f).unwrap();
    assert_eq!(x.name, "greet");
    assert_eq!(x.emit, vec![Emit::ExternC]);
    let arr = TypeExpr::Path {
        segments: names(&["crate", "langs", "Arr"]),
        args: vec![ptr(false, qualified("libc", "c_char"))],
    };
    assert_eq!(x.params, vec![typed("__names_0", arr)]);
    assert!(x.out_params.is_empty());
    assert_eq!(x.ret, ptr(true, qualified("libc", "c_char")));
    assert_eq!(x.result, Some("__output".to_string()));
}

#[test]
fn fallible_constructor_scenario_on_the_c_backend() {
    let f = func(
        "parse",
        vec![Marker::Constructor],
        vec![typed("s", path("String"))],
        generic("Result", vec![TypeExpr::SelfType, path("E")]),
    );
    let x = c_backend().expose_fn(f).unwrap();
    assert_eq!(x.ret, path("i32"));
    assert_eq!(x.out_params, vec![typed("__ptr_out", ptr(true, ptr(true, TypeExpr::SelfType)))]);
    assert_eq!(x.epilogue.len(), 1);
    match &x.epilogue[0] {
        Stmt::Status { name, ok, out } => {
            assert_eq!(name, "__output");
            assert_eq!(out, "__ptr_out");
            assert_eq!(ok, &OutputConv::ByReference);
        }
        _ => panic!("expected a status statement"),
    }
}

#[test]
fn by_reference_return_writes_the_out_parameter() {
    let f = func("empty", vec![], vec![], path("Script"));
    let x = c_backend().expose_fn(f).unwrap();
    assert_eq!(x.ret, TypeExpr::Unit);
    assert_eq!(x.out_params, vec![typed("__ptr_out", ptr(true, ptr(true, path("Script"))))]);
    assert_eq!(x.result, None);
    assert!(matches!(&x.epilogue[1], Stmt::WriteOut { .. }));
}

#[test]
fn destructor_takes_ownership() {
    let f = func("destroy", vec![Marker::Destructor], vec![typed("_s", TypeExpr::SelfType)], TypeExpr::Unit);
    let x = c_backend().expose_fn(f).unwrap();
    assert_eq!(x.params, vec![typed("___s_0", ptr(true, TypeExpr::SelfType))]);
    assert_eq!(x.source, "destroy");
    let f = func(
        "destroy",
        vec![Marker::Destructor],
        vec![Param::Receiver { reference: true, mutable: false }],
        TypeExpr::Unit,
    );
    assert_eq!(c_backend().expose_fn(f).err(), Some(CError::DestructorReceiverArgument));
}

#[test]
fn impl_methods_get_snake_case_prefix() {
    let imp = ImplDecl {
        self_ty: path("TxOut"),
        methods: vec![
            func("new", vec![Marker::Constructor], vec![typed("value", path("u64"))], TypeExpr::SelfType),
            func("get_value", vec![Marker::Getter], vec![Param::Receiver { reference: true, mutable: false }], path("u64")),
        ],
    };
    let x = c_backend().expose_impl(imp).unwrap();
    let got: Vec<String> = x.methods.iter().map(|m| m.name.clone()).collect();
    assert_eq!(got, names(&["tx_out_new", "tx_out_get_value"]));
    let sources: Vec<String> = x.methods.iter().map(|m| m.source.clone()).collect();
    assert_eq!(sources, names(&["new", "get_value"]));
    assert!(!x.py_methods);
}

#[test]
fn snake_case_of_names() {
    assert_eq!("TxBuilder".to_snake_case(), "tx_builder");
    assert_eq!("Point".to_snake_case(), "point");
    assert_eq!("already_snake".to_snake_case(), "already_snake");
    assert_eq!("HTTPServer".to_snake_case(), "h_t_t_p_server");
    assert_eq!(String::from("CoinSelectionAlgorithmStruct").to_snake_case(), "coin_selection_algorithm_struct");
}

#[test]
fn struct_options_are_parsed() {
    assert_eq!(
        parse_struct_opts(&names(&["opaque", "get", "set_simple", "subclass"])),
        Ok(vec![
            ExposeStructOpts::Opaque,
            ExposeStructOpts::Getter { is_simple: false },
            ExposeStructOpts::Setter { is_simple: true },
            ExposeStructOpts::Subclass,
        ])
    );
    assert_eq!(parse_struct_opts(&names(&["get", "bogus"])), Err(LangError::ExposeStructAttrError));
}

fn point_decl(opts: Vec<ExposeStructOpts>) -> StructDecl {
    let accessors = vec![ExposeStructOpts::Getter { is_simple: false }, ExposeStructOpts::Setter { is_simple: false }];
    StructDecl {
        name: "Point".to_string(),
        opts,
        fields: vec![
            FieldDecl { name: "x".to_string(), ty: path("i32"), opts: accessors.clone() },
            FieldDecl { name: "y".to_string(), ty: path("i32"), opts: accessors },
        ],
    }
}

#[test]
fn opaque_point_gets_accessors() {
    let x = c_backend().expose_struct(point_decl(vec![ExposeStructOpts::Opaque])).unwrap();
    assert!(!x.repr_c);
    let got: Vec<String> = x.accessors.iter().map(|m| m.name.clone()).collect();
    assert_eq!(got, names(&["point_get_x", "point_set_x", "point_get_y", "point_set_y"]));
    assert_eq!(x.accessors[0].ret, path("i32"));
    assert_eq!(x.accessors[0].params, vec![Param::Receiver { reference: true, mutable: true }]);
    assert_eq!(x.accessors[0].body, Body::WrapGet { field: "x".to_string(), ty: path("i32") });
    assert_eq!(x.accessors[1].params[1], typed("__x_0", path("i32")));
    assert_eq!(x.accessors[3].body, Body::WrapSet { field: "y".to_string(), ty: path("i32") });
    assert_eq!(x.accessors[3].ret, TypeExpr::Unit);
    assert!(x.fields.iter().all(|f| f.crate_only));
    match &x.fields[0].ty {
        TypeExpr::Projection { name, .. } => assert_eq!(name, "Store"),
        _ => panic!("expected the wrapped store type"),
    }
}

#[test]
fn transparent_struct_has_c_layout() {
    let x = c_backend().expose_struct(point_decl(vec![])).unwrap();
    assert!(x.repr_c);
    assert!(x.accessors.is_empty());
}

#[test]
fn c_getter_setter_types() {
    let (g, s) = c_backend().convert_getter_setter_ty(&path("u64"));
    assert_eq!((g, s), (path("u64"), path("u64")));
    let (g, s) = c_backend().convert_getter_setter_ty(&path("Script"));
    assert_eq!(g, ptr(true, path("Script")));
    assert_eq!(s, TypeExpr::Ref { mutable: false, elem: Box::new(path("Script")) });
}

fn coin_trait() -> TraitDecl {
    TraitDecl {
        name: "CoinSelectionAlgorithm".to_string(),
        supertrait: names(&["super", "CoinSelectionAlgorithm"]),
        methods: vec![TraitMethodDecl {
            name: "_wrapper_do_something".to_string(),
            original: Some("do_something".to_string()),
            params: vec![Param::Receiver { reference: true, mutable: false }, typed("val", path("u32"))],
            ret: path("u32"),
        }],
    }
}

#[test]
fn c_interface_dispatch_object() {
    let x = c_backend().expose_trait(coin_trait()).unwrap();
    assert_eq!(x.struct_name, "CoinSelectionAlgorithmStruct");
    assert_eq!(x.constructor, "coin_selection_algorithm_struct_new");
    assert_eq!(x.destructor, "coin_selection_algorithm_struct_destroy");
    assert_eq!(x.slots.len(), 1);
    assert_eq!(x.slots[0].original, "do_something");
    let wire = TypeExpr::BareFn {
        params: vec![
            BareParam { name: Some("this".to_string()), ty: ptr(true, qualified("libc", "c_void")) },
            BareParam { name: Some("val".to_string()), ty: path("u32") },
        ],
        ret: Box::new(path("u32")),
        extern_c: true,
    };
    assert_eq!(x.slots[0].wire, wire);
    assert!(matches!(x.slots[0].conv, InputConv::Callback { .. }));
    assert_eq!(x.kind, DispatchKind::Callbacks);
    assert_eq!(x.forwarders[0].method, "_wrapper_do_something");
    assert_eq!(x.forwarders[0].slot, "_wrapper_do_something");
    assert_eq!(x.forwarders[0].call_args, names(&["this", "val"]));
    assert_eq!(x.trampolines[0].original, "do_something");
    assert_eq!(x.trampolines[0].params, vec![typed("val", path("u32"))]);
    assert_eq!(x.trampolines[0].arg_names, names(&["val"]));
    assert!(x.trampolines[0].keeps_receiver);
}

#[test]
fn python_interface_dispatch_class() {
    let x = Python.expose_trait(coin_trait());
    assert_eq!(x.struct_name, "CoinSelectionAlgorithmStruct");
    assert_eq!(x.slots[0].name, "rust_do_something");
    assert_eq!(x.kind, DispatchKind::ScriptClass);
    assert_eq!(x.constructor, "new");
    assert_eq!(x.forwarders[0].slot, "rust_do_something");
    assert_eq!(x.forwarders[0].call_args, names(&["val"]));
    assert_eq!(x.trampolines[0].name, "rust_do_something");
    assert_eq!(x.trampolines[0].original, "do_something");
}

#[test]
fn python_naked_function_is_refused() {
    let f = func("hello", vec![], vec![], TypeExpr::Unit);
    assert_eq!(Python.expose_fn(f, &vec![]).err(), Some(PythonError::NakedFunction));
    let f = func("hello", vec![], vec![typed("s", path("String"))], path("String"));
    let x = Python.expose_fn(f, &names(&["bitcoin"])).unwrap();
    assert_eq!(x.emit, vec![Emit::PyFunction]);
    assert_eq!(x.params, vec![typed("__s_0", path("String"))]);
    assert_eq!(x.ret, path("String"));
}

#[test]
fn python_impl_roles() {
    let imp = ImplDecl {
        self_ty: path("Script"),
        methods: vec![
            func("new", vec![Marker::Constructor], vec![typed("script", generic("Vec", vec![path("u8")]))], TypeExpr::SelfType),
            func("destroy", vec![Marker::Destructor], vec![typed("_s", TypeExpr::SelfType)], TypeExpr::Unit),
            func("empty", vec![], vec![], TypeExpr::SelfType),
            func("to_hex", vec![], vec![Param::Receiver { reference: true, mutable: false }], path("String")),
        ],
    };
    let x = Python.expose_impl(imp).unwrap();
    assert!(x.py_methods);
    let got: Vec<(String, Vec<Emit>)> = x.methods.iter().map(|m| (m.name.clone(), m.emit.clone())).collect();
    assert_eq!(
        got,
        vec![
            ("new".to_string(), vec![Emit::PyNew]),
            ("empty".to_string(), vec![Emit::PyStaticMethod]),
            ("to_hex".to_string(), vec![]),
        ]
    );
}

#[test]
fn python_list_of_borrows_becomes_managed_references() {
    let t = generic("Vec", vec![TypeExpr::Ref { mutable: false, elem: Box::new(path("TxIn")) }]);
    let i = Python.convert_input(&t).unwrap();
    let py_ref = TypeExpr::Path { segments: names(&["pyo3", "PyRef"]), args: vec![path("TxIn")] };
    assert_eq!(sources(&i), vec![generic("Vec", vec![py_ref])]);
    let i = Python.convert_input(&generic("Vec", vec![path("u8")])).unwrap();
    assert!(matches!(i, Input::Unchanged(_)));
}

#[test]
fn python_struct_is_a_class() {
    let x = Python.expose_struct(point_decl(vec![ExposeStructOpts::Opaque, ExposeStructOpts::Subclass])).unwrap();
    assert!(x.class && x.subclass && !x.repr_c);
    assert_eq!(x.accessors.len(), 4);
    assert_eq!(x.accessors[0].emit, vec![Emit::PyGetter]);
    assert_eq!(x.accessors[1].emit, vec![Emit::PySetter]);
    match &x.accessors[0].ret {
        TypeExpr::Projection { name, .. } => assert_eq!(name, "Getter"),
        _ => panic!("expected the wrapped getter type"),
    }
}

#[test]
fn driver_collects_the_manifest() {
    let inner = ModuleDecl {
        name: "transaction".to_string(),
        items: vec![Item::Fn(func("count", vec![], vec![], path("u32")))],
    };
    let module = ModuleDecl {
        name: "bitcoin".to_string(),
        items: vec![
            Item::Struct(point_decl(vec![ExposeStructOpts::Opaque])),
            Item::Impl(ImplDecl { self_ty: path("Point"), methods: vec![] }),
            Item::Mod(inner),
        ],
    };
    let m = analyze_module(&Python, module, &vec![]).unwrap();
    assert!(m.top_level);
    assert_eq!(m.path, names(&["bitcoin"]));
    assert_eq!(
        m.exports,
        vec![ModuleItem::Structure("Point".to_string()), ModuleItem::Module("transaction".to_string())]
    );
    match &m.items[2] {
        ExposedItem::Mod(sub) => {
            assert!(!sub.top_level);
            assert_eq!(sub.path, names(&["bitcoin", "transaction"]));
            assert_eq!(sub.exports, vec![ModuleItem::Function("count".to_string())]);
        }
        _ => panic!("expected the nested module"),
    }
}

#[test]
fn driver_aborts_on_the_first_error() {
    let module = ModuleDecl {
        name: "m".to_string(),
        items: vec![Item::Fn(func("f", vec![], vec![Param::Pattern { ty: path("u32") }], TypeExpr::Unit))],
    };
    let r = analyze_module(&c_backend(), module, &vec![]).err().unwrap();
    assert_eq!(r.error, CError::Lang(LangError::ComplexPatternFnArg));
    assert_eq!(r.declaration, "f");
}

#[test]
fn driver_names_the_refused_declaration_in_a_nested_module() {
    let inner = ModuleDecl {
        name: "inner".to_string(),
        items: vec![
            Item::Fn(func("fine", vec![], vec![], path("u32"))),
            Item::Fn(func("broken", vec![], vec![], generic("Result", vec![path("u32")]))),
        ],
    };
    let module = ModuleDecl { name: "outer".to_string(), items: vec![Item::Mod(inner)] };
    let r = analyze_module(&c_backend(), module, &vec![]).err().unwrap();
    assert_eq!(r.error, CError::InvalidResult);
    assert_eq!(r.declaration, "broken");
}

#[test]
fn trait_options_name_the_original_method() {
    assert_eq!(bdk_ffi::decl::parse_trait_option("original", "method"), Ok("method".to_string()));
    assert_eq!(
        bdk_ffi::decl::parse_trait_option("renamed", "method"),
        Err(LangError::ExposeTraitAttrError)
    );
}

#[test]
fn map_to_numbers_its_suffixes() {
    let o = Output::new_map_to(path("Pair"), vec![path("u8"), path("u16"), path("u32")]);
    let e = o.expand();
    assert_eq!(e.suffix, names(&["0", "1", "2"]));
    assert_eq!(e.conv, OutputConv::map_to(path("Pair")));
    assert_eq!(OutputConv::by_reference(), OutputConv::ByReference);
    assert_eq!(OutputConv::pass_through(), OutputConv::PassThrough);
    assert_eq!(InputConv::map_from(path("u8")), InputConv::MapFrom { target: path("u8") });
}

#[test]
fn ten_wire_parameters_count_in_decimal() {
    let o = Output::new_map_to(path("Wide"), (0..12).map(|_| path("u8")).collect());
    assert_eq!(o.expand().suffix[11], "11");
    let i = Input::new_map_from(path("Wide"), (0..12).map(|_| path("u8")).collect());
    let e = Argument::expand_with("w".to_string(), i);
    match &e.args[10] {
        Param::Typed { name, .. } => assert_eq!(name, "__w_10"),
        _ => panic!("expected a named wire parameter"),
    }
}
