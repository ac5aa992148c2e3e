use mock_derive::recorder::{CallError, MethodRecorder};

type Rec<R> = MethodRecorder<R, fn() -> R, fn() -> bool>;

fn seven() -> u32 {
    7
}

#[test]
fn results_are_given_in_call_order() {
    let mut m = Rec::<Option<i32>>::new()
        .first_call()
        .set_result(Some(13))
        .second_call()
        .set_result(None);
    assert!(matches!(m.call(), Ok(Some(Some(13)))));
    assert!(matches!(m.call(), Ok(Some(None))));
    assert!(matches!(m.call(), Ok(None)));
}

#[test]
fn nth_call_sets_a_later_result() {
    let mut m = Rec::<u8>::new().nth_call(3).set_result(9);
    assert!(matches!(m.call(), Ok(None)));
    assert!(matches!(m.call(), Ok(None)));
    assert!(matches!(m.call(), Ok(Some(9))));
}

#[test]
fn a_later_result_replaces_an_earlier_one() {
    let mut m = Rec::<u8>::new().set_result(1).set_result(2);
    assert!(matches!(m.call(), Ok(Some(2))));
}

#[test]
fn never_called_refuses_calls() {
    let mut m = Rec::<u8>::new().never_called();
    assert!(matches!(m.call(), Err(CallError::NeverCalled)));
}

#[test]
fn called_at_most_refuses_extra_calls() {
    let mut m = Rec::<u8>::new().called_at_most(2);
    assert!(m.call().is_ok());
    assert!(m.call().is_ok());
    assert!(matches!(m.call(), Err(CallError::TooManyCalls { calls: 3 })));
}

#[test]
fn called_at_least_is_checked() {
    let mut m = Rec::<u8>::new().called_at_least(2);
    assert!(m.call().is_ok());
    assert!(matches!(m.check_called_at_least(), Err(CallError::TooFewCalls { calls: 1, min: 2 })));
    assert!(m.call().is_ok());
    assert!(m.check_called_at_least().is_ok());
}

#[test]
fn called_once_and_ntimes() {
    let mut once = Rec::<u8>::new().called_once();
    assert!(once.check_called_at_least().is_err());
    assert!(once.call().is_ok());
    assert!(once.check_called_at_least().is_ok());
    assert!(once.call().is_err());
    let mut twice = Rec::<u8>::new().called_ntimes(2);
    assert!(twice.call().is_ok());
    assert!(twice.call().is_ok());
    assert!(twice.call().is_err());
}

#[test]
fn a_function_gives_every_result() {
    let mut m = Rec::<u32>::new().return_result_of(seven as fn() -> u32);
    assert!(matches!(m.call(), Ok(Some(7))));
    assert!(matches!(m.call(), Ok(Some(7))));
}

#[test]
fn it_works() {
    let mut registry = mock_derive::registry::BoundsRegistry::new();
    let expansion = mock_derive::expand::mock(
        "",
        "impl HelloWorld for Foo { fn hello_world(&self) { println!(\"Hello World!\"); } fn foo(&self) -> u32 { 1 } }",
        &mut registry,
    );
    let out = match expansion {
        Ok(o) => o,
        Err(e) => panic!("{}", e.message()),
    };
    assert!(out.contains("struct MockHelloWorld < > { hello_world : Option < MockMethodForHelloWorld < ( ) >> , foo : Option < MockMethodForHelloWorld < u32 >> , fallback : Option < Box < HelloWorld < > >> , }"));
    assert!(out.contains("pub fn new ( ) -> MockHelloWorld < > { MockHelloWorld { hello_world : None , foo : None , fallback : None , } }"));
    assert!(out.contains("pub fn set_fallback < __TYPE_NAME : 'static + HelloWorld < > > ( & mut self , t : __TYPE_NAME )"));
    assert!(out.contains("pub fn method_hello_world ( & self ) -> MockMethodForHelloWorld < ( ) >"));
    assert!(out.contains("pub fn set_hello_world ( & mut self , method : MockMethodForHelloWorld < ( ) > )"));
    assert!(out.contains("pub fn method_foo ( & self ) -> MockMethodForHelloWorld < u32 >"));
    assert!(out.contains("pub fn set_foo ( & mut self , method : MockMethodForHelloWorld < u32 > )"));
    assert!(out.contains("pub fn first_call ( self ) -> Self"));
    assert!(out.contains("pub fn when < F : 'static > ( self , condition : F ) -> Self"));
    assert!(out.contains("impl < > HelloWorld < > for MockHelloWorld < > { fn hello_world ( & self ) { match self . hello_world . as_ref ( )"));

    let mut method = Rec::<()>::new().first_call().when(|| true).set_result(());
    assert!(matches!(method.call(), Ok(Some(()))));
    let mut foo_method = Rec::<u32>::new().first_call().set_result(3);
    assert!(matches!(foo_method.call(), Ok(Some(3))));
}

#[test]
fn an_unmet_condition_falls_back() {
    let mut m = Rec::<u8>::new().set_result(4).when(|| false);
    assert!(matches!(m.call(), Ok(None)));
    let mut met = Rec::<u8>::new().set_result(4).when(|| true);
    assert!(matches!(met.call(), Ok(Some(4))));
}
