use mock_derive::args::{make_return_tokens, parse_args, parse_return_type, FnArgs};
use mock_derive::expand::{expand_item, mock, parse_block};
use mock_derive::foreign::parse_foreign_functions;
use mock_derive::model::{
    AbiModel, BoundModel, FnArgModel, FnDeclModel, ForeignItemKindModel, ForeignItemModel,
    ForeignModModel, GenericsModel, ItemKindModel, ItemModel, MockError, Mockable, PathModel,
    SegmentModel, TraitBlock, TraitItemKindModel, TraitItemModel,
};
use mock_derive::registry::BoundsRegistry;
use mock_derive::syntax::str_literal_tokens;
use mock_derive::tokens::{append_tokens, concat_idents, decimal, remove_occurrences};
use mock_derive::traits::{
    generate_mock_method_name, generate_static_name, generate_trait_fns, make_mut_static,
    path_tokens,
};

fn s(x: &str) -> String {
    x.to_string()
}

fn captured(ty: &str) -> FnArgModel {
    FnArgModel::Captured { ty: s(ty) }
}

fn self_ref(mutable: bool) -> FnArgModel {
    FnArgModel::SelfRef { lifetime: String::new(), mutable }
}

fn decl(inputs: Vec<FnArgModel>, output: Option<&str>) -> FnDeclModel {
    FnDeclModel { inputs, output: output.map(s), variadic: false }
}

fn block(name: &str, funcs: Vec<(&str, FnDeclModel)>, sized: bool) -> TraitBlock {
    TraitBlock {
        trait_name: s(name),
        vis: String::new(),
        generics: s("< >"),
        where_clause: String::new(),
        funcs: funcs
            .into_iter()
            .map(|(n, d)| mock_derive::model::Function { name: s(n), decl: d, is_unsafe: false })
            .collect(),
        ty_bounds: Vec::new(),
        is_unsafe: false,
        package_path: String::new(),
        impls_sized: sized,
    }
}

fn expect_err<T>(r: Result<T, MockError>) -> MockError {
    match r {
        Ok(_) => panic!("expected a refusal"),
        Err(e) => e,
    }
}

#[test]
fn tokens_are_joined_by_one_space() {
    let mut t = String::new();
    append_tokens(&mut t, "a");
    append_tokens(&mut t, "");
    append_tokens(&mut t, "b c");
    assert_eq!(t, "a b c");
}

#[test]
fn identifiers_are_concatenated() {
    assert_eq!(concat_idents("Static_", "Foo"), "Static_Foo");
    assert_eq!(concat_idents("", ""), "");
}

#[test]
fn decimal_notation() {
    assert_eq!(decimal(0), "0");
    assert_eq!(decimal(7), "7");
    assert_eq!(decimal(10), "10");
    assert_eq!(decimal(1234), "1234");
}

#[test]
fn occurrences_are_removed_left_to_right() {
    assert_eq!(remove_occurrences("\"C\"", "\""), "C");
    assert_eq!(remove_occurrences("externC", "extern"), "C");
    assert_eq!(remove_occurrences("exexterntern", "extern"), "extern");
    assert_eq!(remove_occurrences("aaa", "aa"), "a");
    assert_eq!(remove_occurrences("abc", ""), "abc");
}

#[test]
fn parameters_get_numbered_names() {
    let inputs = vec![self_ref(false), captured("u32"), captured("& str")];
    let a = parse_args(&inputs);
    assert_eq!(a.args_with_types, "& self , _a1 : u32 , _a2 : & str");
    assert_eq!(a.args_with_no_self_no_types, "_a1 , _a2");
    assert!(a.is_instance_method);
    assert!(!a.takes_self_ownership);
    assert!(!a.mutable_status);
}

#[test]
fn self_forms_are_recognised() {
    let a = parse_args(&vec![self_ref(true)]);
    assert_eq!(a.args_with_types, "& mut self");
    assert!(a.mutable_status);
    let lt = parse_args(&vec![FnArgModel::SelfRef { lifetime: s("'a"), mutable: false }]);
    assert_eq!(lt.args_with_types, "& 'a self");
    let v = parse_args(&vec![FnArgModel::SelfValue { mutable: true }, captured("i8")]);
    assert_eq!(v.args_with_types, "mut self , _a1 : i8");
    assert!(v.takes_self_ownership);
    assert!(v.is_instance_method);
}

#[test]
fn static_method_parameters() {
    let a = parse_args(&vec![captured("u8"), FnArgModel::Ignored, captured("u16")]);
    assert_eq!(a.args_with_types, "_a0 : u8 , _a2 : u16");
    assert!(!a.is_instance_method);
    let empty = FnArgs::new();
    assert_eq!(empty.args_with_types, "");
}

#[test]
fn return_tokens() {
    let (r, v, p) = make_return_tokens(true, "( )");
    assert_eq!((r.as_str(), v.as_str(), p.as_str()), ("", "", "_"));
    let (r, v, p) = make_return_tokens(false, "u32");
    assert_eq!((r.as_str(), v.as_str(), p.as_str()), ("-> u32", "retval", "retval"));
    assert_eq!(parse_return_type(&None), (true, s("( )")));
    assert_eq!(parse_return_type(&Some(s("Vec < u8 >"))), (false, s("Vec < u8 >")));
}

#[test]
fn mock_names() {
    assert_eq!(generate_static_name("Foo"), "Static_Foo");
    let mut b = block("Foo", vec![], false);
    let (mock, method) = generate_mock_method_name(&b);
    assert_eq!((mock.as_str(), method.as_str()), ("MockFoo", "MockMethodForFoo"));
    b.package_path = s("a :: b ::");
    let (mock, method) = generate_mock_method_name(&b);
    assert_eq!((mock.as_str(), method.as_str()), ("a :: b :: MockFoo", "a :: b :: MockMethodForFoo"));
}

#[test]
fn paths_are_printed_with_separators() {
    let segs = vec![
        SegmentModel { ident: s("a"), text: s("a") },
        SegmentModel { ident: s("Tr"), text: s("Tr < T >") },
    ];
    assert_eq!(path_tokens(false, &segs, 2), "a :: Tr < T >");
    assert_eq!(path_tokens(true, &segs, 1), ":: a");
    assert_eq!(path_tokens(false, &segs, 0), "");
}

#[test]
fn singleton_names() {
    let m = make_mut_static("Static_T", "STATIC__T", "init");
    assert!(m.contains("struct __SingletonReader_Static_T { inner"));
    assert!(m.contains("fn Static_T ( ) -> __SingletonReader_Static_T"));
    assert!(m.contains("static __SINGLETON_Static_T"));
    assert!(m.contains("let init_fn = || { init }"));
}

#[test]
fn instance_methods_get_recorders_and_fallback() {
    let b = block(
        "Hello",
        vec![("hello", decl(vec![self_ref(false)], None)), ("foo", decl(vec![self_ref(false)], Some("u32")))],
        false,
    );
    let f = match generate_trait_fns(&b, true) {
        Ok(f) => f,
        Err(_) => panic!("refused"),
    };
    assert_eq!(
        f.fields,
        "hello : Option < MockMethodForHello < ( ) >> , foo : Option < MockMethodForHello < u32 >> , fallback : Option < Box < Hello < > >> ,"
    );
    assert_eq!(f.ctor, "hello : None , foo : None , fallback : None ,");
    assert!(f.mock_impl_methods.contains("pub fn method_foo ( & self ) -> MockMethodForHello < u32 >"));
    assert!(f.mock_impl_methods.contains("pub fn set_foo ( & mut self , method : MockMethodForHello < u32 > )"));
    assert!(f.mock_impl_methods.contains("pub fn set_fallback"));
    assert!(f.method_impls.contains("fn foo ( & self ) -> u32 { match self . foo . as_ref ( )"));
    assert!(f.method_impls.contains("fallback . foo ( )"));
    assert_eq!(f.static_mocks_def, "");
}

#[test]
fn static_methods_take_away_the_fallback() {
    let b = block(
        "T",
        vec![("make", decl(vec![captured("u8")], Some("u32"))), ("get", decl(vec![self_ref(false)], None))],
        false,
    );
    let f = match generate_trait_fns(&b, true) {
        Ok(f) => f,
        Err(_) => panic!("refused"),
    };
    assert_eq!(f.static_mocks_ctor, "method_make : None ,");
    assert_eq!(f.static_mocks_def, "method_make : Option < T_Method_make < u32 >> ,");
    assert!(f.static_method_impl.contains("fn make ( _a0 : u8 ) -> u32 { let value = Static_T ( ) ;"));
    assert!(!f.fields.contains("fallback"));
    assert!(!f.mock_impl_methods.contains("set_fallback"));
    assert!(f.method_impls.contains("Using a fallback has been disabled"));
}

#[test]
fn sized_traits_have_no_fallback() {
    let b = block("S", vec![("get", decl(vec![self_ref(false)], None))], true);
    let f = match generate_trait_fns(&b, false) {
        Ok(f) => f,
        Err(_) => panic!("refused"),
    };
    assert!(!f.fields.contains("fallback"));
}

#[test]
fn owned_self_cannot_fall_back() {
    let b = block("O", vec![("take", decl(vec![FnArgModel::SelfValue { mutable: false }], None))], false);
    let f = match generate_trait_fns(&b, true) {
        Ok(f) => f,
        Err(_) => panic!("refused"),
    };
    assert!(f.method_impls.contains("methods that take ownership of self is not supported"));
}

#[test]
fn self_return_is_refused() {
    let b = block("R", vec![("me", decl(vec![self_ref(false)], Some("Self")))], false);
    assert!(matches!(expect_err(generate_trait_fns(&b, true)), MockError::SelfReturnType));
}

fn trait_item(name: &str, bounds: Vec<BoundModel>, items: Vec<TraitItemModel>) -> ItemModel {
    ItemModel {
        ident: s(name),
        vis: s("pub"),
        text: format!("pub trait {} {{ }}", name),
        kind: ItemKindModel::Trait {
            is_unsafe: false,
            generics: GenericsModel { lifetimes: vec![s("'a")], ty_params: vec![s("T")], where_clause: String::new() },
            bounds,
            items,
        },
    }
}

fn method(name: &str, d: FnDeclModel) -> TraitItemModel {
    TraitItemModel { ident: s(name), kind: TraitItemKindModel::Method { decl: d, is_unsafe: false } }
}

fn bound(segs: &[&str]) -> BoundModel {
    BoundModel::Trait(PathModel {
        global: false,
        segments: segs.iter().map(|x| SegmentModel { ident: s(x), text: s(x) }).collect(),
    })
}

#[test]
fn traits_are_read_into_blocks() {
    let item = trait_item(
        "Tr",
        vec![bound(&["std", "marker", "Sized"])],
        vec![
            method("a", decl(vec![self_ref(false)], None)),
            TraitItemModel { ident: s("C"), kind: TraitItemKindModel::Other },
        ],
    );
    match parse_block(item) {
        Ok(Mockable::Trait(b)) => {
            assert_eq!(b.trait_name, "Tr");
            assert_eq!(b.generics, "< 'a , T , >");
            assert!(b.impls_sized);
            assert_eq!(b.funcs.len(), 1);
            assert_eq!(b.funcs[0].name, "a");
            assert_eq!(b.package_path, "");
        },
        _ => panic!("not a trait block"),
    }
}

#[test]
fn other_items_are_refused() {
    let item = ItemModel { ident: s("Foo"), vis: String::new(), text: s("struct Foo ;"), kind: ItemKindModel::Other };
    assert!(matches!(expect_err(parse_block(item)), MockError::NotMockable));
}

#[test]
fn supertraits_mocked_before_are_implemented() {
    let mut reg = BoundsRegistry::new();
    let base = trait_item("Base", vec![], vec![method("b", decl(vec![self_ref(false)], Some("u8")))]);
    assert!(expand_item(base, &mut reg).is_ok());
    assert_eq!(reg.len(), 1);
    let sub = trait_item("Sub", vec![bound(&["m", "Base"])], vec![method("s", decl(vec![self_ref(false)], None))]);
    let out = match expand_item(sub, &mut reg) {
        Ok(o) => o,
        Err(_) => panic!("refused"),
    };
    assert!(out.contains("impl < 'a , T , > m :: Base < 'a , T , > for MockSub < 'a , T , >"));
    assert!(out.contains("b : Option < m :: MockMethodForBase < u8 >> ,"));
    assert_eq!(reg.len(), 2);
    match reg.lookup(&s("Base")) {
        Some(b) => assert_eq!(b.package_path, "m ::"),
        None => panic!("Base is not registered"),
    }
    assert!(reg.lookup(&s("Sub")).is_some());
    assert!(reg.lookup(&s("Other")).is_none());
}

#[test]
fn registering_again_replaces() {
    let mut reg = BoundsRegistry::new();
    let first = trait_item("T", vec![], vec![]);
    assert!(expand_item(first, &mut reg).is_ok());
    let second = trait_item("T", vec![], vec![method("x", decl(vec![self_ref(false)], None))]);
    assert!(expand_item(second, &mut reg).is_ok());
    assert_eq!(reg.len(), 1);
    match reg.lookup(&s("T")) {
        Some(b) => assert_eq!(b.funcs.len(), 1),
        None => panic!("T is not registered"),
    }
}

fn foreign(abi: AbiModel, items: Vec<ForeignItemModel>) -> ForeignModModel {
    ForeignModModel { abi, items }
}

fn foreign_fn(name: &str, d: FnDeclModel) -> ForeignItemModel {
    ForeignItemModel { ident: s(name), vis: s("pub"), kind: ForeignItemKindModel::Fn { decl: d, n_ty_params: 0, n_lifetimes: 0 } }
}

#[test]
fn foreign_functions_are_mocked() {
    let f = foreign(AbiModel::Named(s("C")), vec![foreign_fn("add", decl(vec![captured("i32"), captured("i32")], Some("i32")))]);
    let out = match parse_foreign_functions(&f, "") {
        Ok(o) => o,
        Err(_) => panic!("refused"),
    };
    assert!(out.starts_with("# [ allow ( dead_code ) ] # [ allow ( unused_variables ) ] pub struct ExternCMocks { method_add : Option < Method_add < i32 >> , }"));
    assert!(out.contains("fn StaticExternCMocks ( )"));
    assert!(out.contains("pub unsafe extern \"C\" fn add ( _a0 : i32 , _a1 : i32 ) -> i32"));
    assert!(out.contains("ExternCMocks { method_add : None , }"));
}

#[test]
fn rust_abi_foreign_block() {
    let f = foreign(AbiModel::Rust, vec![foreign_fn("f", decl(vec![], None))]);
    let out = match parse_foreign_functions(&f, "") {
        Ok(o) => o,
        Err(_) => panic!("refused"),
    };
    assert!(out.contains("pub struct ExternRustMocks"));
    assert!(out.contains("pub unsafe extern fn f ( ) {"));
}

#[test]
fn foreign_refusals() {
    let st = foreign(AbiModel::Rust, vec![ForeignItemModel { ident: s("X"), vis: String::new(), kind: ForeignItemKindModel::Static }]);
    assert!(matches!(expect_err(parse_foreign_functions(&st, "")), MockError::ForeignStatic));
    let mut d = decl(vec![], None);
    d.variadic = true;
    let va = foreign(AbiModel::Rust, vec![foreign_fn("v", d)]);
    assert!(matches!(expect_err(parse_foreign_functions(&va, "")), MockError::VariadicForeignFunction));
    let gen = foreign(
        AbiModel::Rust,
        vec![ForeignItemModel { ident: s("g"), vis: String::new(), kind: ForeignItemKindModel::Fn { decl: decl(vec![], None), n_ty_params: 1, n_lifetimes: 0 } }],
    );
    assert!(matches!(expect_err(parse_foreign_functions(&gen, "")), MockError::GenericForeignFunction));
}

#[test]
fn attribute_on_trait_source() {
    let mut reg = BoundsRegistry::new();
    let src = "trait HelloWorld { fn hello_world(&self); fn foo(&self) -> u32; }";
    let out = match mock("", src, &mut reg) {
        Ok(o) => o,
        Err(e) => panic!("{}", e.message()),
    };
    assert!(out.starts_with("# [ cfg ( test ) ] macro_rules ! mock_generate { ( ) => { trait HelloWorld {"));
    assert!(out.ends_with("} } mock_generate ! ( ) ;"));
    assert!(out.contains("# [ cfg ( not ( test ) ) ] macro_rules ! mock_generate { ( ) => { trait HelloWorld {"));
    assert!(out.contains("struct MockHelloWorld < > { hello_world : Option < MockMethodForHelloWorld < ( ) >> , foo : Option < MockMethodForHelloWorld < u32 >> ,"));
    assert!(out.contains("struct MockMethodForHelloWorld < __RESULT_NAME >"));
    assert!(out.contains("pub fn set_fallback"));
    assert!(reg.lookup(&s("HelloWorld")).is_some());
}

#[test]
fn attribute_on_extern_source() {
    let mut reg = BoundsRegistry::new();
    let out = match mock("", "extern \"C\" { fn twice(x: u32) -> u32; }", &mut reg) {
        Ok(o) => o,
        Err(e) => panic!("{}", e.message()),
    };
    assert!(out.contains("extern \"C\" fn twice ( _a0 : u32 ) -> u32"));
    assert!(out.contains("pub struct ExternCMocks"));
    assert_eq!(reg.len(), 0);
}

#[test]
fn attribute_refusals() {
    let mut reg = BoundsRegistry::new();
    let e = expect_err(mock("", "impl Foo { fn foo(&self) -> u32 { 1 } }", &mut reg));
    assert!(matches!(e, MockError::NotMockable));
    let e = expect_err(mock("", "struct Foo { x: i32 }", &mut reg));
    assert!(matches!(e, MockError::NotMockable));
    assert_eq!(e.message(), "#[mock] must be applied to a trait declaration OR a extern block.");
    let e = expect_err(mock("", "trait C { fn c(&self) -> Self; }", &mut reg));
    assert!(matches!(e, MockError::SelfReturnType));
    let e = expect_err(mock("", "extern { static X: u8; }", &mut reg));
    assert_eq!(e.message(), "Mocking statics not yet supported.");
    let e = expect_err(mock("", "trait {", &mut reg));
    assert!(matches!(e, MockError::Parse(_)));
    assert_eq!(reg.len(), 0);
}

#[test]
fn generated_mock_parses_as_items() {
    let mut reg = BoundsRegistry::new();
    let src = "pub trait Shape: Sized { fn area(&self, scale: f64) -> f64; fn name(&mut self) -> String; fn unit() -> u32; }";
    let item = match mock_derive::syntax::parse_item_source(src) {
        Ok(i) => i,
        Err(e) => panic!("{}", e),
    };
    let b = match parse_block(item) {
        Ok(Mockable::Trait(b)) => b,
        _ => panic!("not a trait"),
    };
    let stream = match mock_derive::traits::parse_trait(b, src, &mut reg) {
        Ok(s) => s,
        Err(e) => panic!("{}", e.message()),
    };
    assert!(stream.contains("struct STATIC__Shape { method_unit : Option < Shape_Method_unit < u32 >> , }"));
    assert!(stream.contains("fn name ( & mut self ) -> String"));
    let parsed = syn::parse_items(&stream);
    assert!(parsed.is_ok(), "{:?}", parsed.err());
}

#[test]
fn attribute_on_trait_impl_mocks_the_trait() {
    let mut reg = BoundsRegistry::new();
    let src = "impl<T> Show<T> for Foo<T> where T: Clone { fn show(&self, x: T) -> String { String::new() } const N: u8 = 1; }";
    let out = match mock("", src, &mut reg) {
        Ok(o) => o,
        Err(e) => panic!("{}", e.message()),
    };
    assert!(out.contains("# [ cfg ( not ( test ) ) ] macro_rules ! mock_generate { ( ) => { impl < T > Show < T > for Foo < T >"));
    assert!(out.contains("struct MockShow < T , > where T : Clone { show : Option < MockMethodForShow < String >> , fallback : Option < Box < Show < T , > >> , }"));
    assert!(out.contains("impl < T , > Show < T , > for MockShow < T , > where T : Clone { fn show ( & self , _a1 : T ) -> String"));
    assert!(out.contains("pub fn set_fallback < __TYPE_NAME : 'static + Show < T , > > ( & mut self , t : __TYPE_NAME )"));
    match reg.lookup(&s("Show")) {
        Some(b) => assert_eq!(b.funcs.len(), 1),
        None => panic!("Show is not registered"),
    }
}

#[test]
fn recorder_text_has_a_condition() {
    let body = mock_derive::templates::generate_mock_method_body("pub", "R");
    assert!(body.contains("pub condition : :: std :: sync :: Mutex < Option < Box < Fn ( ) -> bool >> > ,"));
    assert!(body.contains("pub fn when < F : 'static > ( self , condition : F ) -> Self where F : Fn ( ) -> bool"));
    assert!(body.contains("if ! cond ( ) { return None ; }"));
}

#[test]
fn string_literals_are_escaped() {
    assert_eq!(str_literal_tokens("C"), "\"C\"");
    assert_eq!(str_literal_tokens("a\"b\n\t'\0\\"), "\"a\\\"b\\n\\t'\\0\\\\\"");
    assert_eq!(str_literal_tokens("\u{e9}\u{1F600}"), "\"\\u{e9}\\u{1f600}\"");
    assert_eq!(str_literal_tokens(""), "\"\"");
}
