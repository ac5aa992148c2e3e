//! The fixed token text of the generated code, around the names and types that
//! vary from one mock to the next.
//!
//! Each template is given twice: as the token text it stands for (a spec
//! function) and as the code that emits that text.
use vstd::prelude::*;
use crate::tokens::{append_tokens, tok_join};

verus! {

pub const METHOD_BODY_0: &'static str = "# [ allow ( dead_code ) ] # [ allow ( non_camel_case_types ) ]";
pub const METHOD_BODY_1: &'static str = "struct";
pub const METHOD_BODY_2: &'static str = "< __RESULT_NAME > { pub call_num : :: std :: sync :: Mutex < usize > , pub current_num : :: std :: sync :: Mutex < usize > , pub retval : :: std :: sync :: Mutex < :: std :: collections :: HashMap < usize , __RESULT_NAME >> , pub lambda : :: std :: sync :: Mutex < Option < Box < FnMut ( ) -> __RESULT_NAME >> > , pub condition : :: std :: sync :: Mutex < Option < Box < Fn ( ) -> bool >> > , pub should_never_be_called : bool , pub max_calls : Option < usize > , pub min_calls : Option < usize > , } # [ allow ( dead_code ) ] # [ allow ( non_camel_case_types ) ] impl < __RESULT_NAME >";
pub const METHOD_BODY_3: &'static str = "< __RESULT_NAME > { pub fn first_call ( self ) -> Self { self . nth_call ( 1 ) } pub fn second_call ( self ) -> Self { self . nth_call ( 2 ) } pub fn nth_call ( self , num : usize ) -> Self { { let mut value = self . call_num . lock ( ) . unwrap ( ) ; * value = num ; } self } pub fn set_result ( self , retval : __RESULT_NAME ) -> Self { { let lambda = self . lambda . lock ( ) . unwrap ( ) ; if lambda . is_some ( ) { panic ! ( \"Attempting to call set_result with after 'return_result_of' has been called. These two APIs are mutally exclusive, and should not be used together\" ) ; } } { let call_num = self . call_num . lock ( ) . unwrap ( ) ; let mut map = self . retval . lock ( ) . unwrap ( ) ; map . insert ( * call_num , retval ) ; } self } pub fn never_called ( mut self ) -> Self { if self . max_calls . is_some ( ) { panic ! ( \"Attempting to use never_called API after using called_at_most\" ) ; } self . should_never_be_called = true ; self } pub fn called_at_most ( mut self , calls : usize ) -> Self { if self . should_never_be_called { panic ! ( \"Attempting to use called_at_most API after using never_called\" ) ; } self . max_calls = Some ( calls ) ; self } pub fn called_once ( self ) -> Self { self . called_at_most ( 1 ) . called_at_least ( 1 ) } pub fn called_ntimes ( self , calls : usize ) -> Self { self . called_at_most ( calls ) . called_at_least ( calls ) } pub fn called_at_least ( mut self , calls : usize ) -> Self { self . min_calls = Some ( calls ) ; self } fn exceedes_max_calls ( & self , current_num : usize ) -> bool { let mut retval = false ; if let Some ( max_calls ) = self . max_calls { retval = current_num > max_calls } retval } pub fn call ( & self ) -> Option < __RESULT_NAME > { if self . should_never_be_called { panic ! ( \"Called a method that has been marked as 'never called'!\" ) ; } let mut value = self . current_num . lock ( ) . unwrap ( ) ; let current_num = * value ; * value += 1 ; if self . exceedes_max_calls ( current_num ) { panic ! ( \"Method failed 'called at most', current number of calls is {}\" , current_num ) ; } { let condition = self . condition . lock ( ) . unwrap ( ) ; if let Some ( ref cond ) = * condition { if ! cond ( ) { return None ; } } } let mut lambda_result = self . lambda . lock ( ) . unwrap ( ) ; match * lambda_result { Some ( ref mut lm ) => { Some ( lm ( ) ) } , None => { let mut map = self . retval . lock ( ) . unwrap ( ) ; map . remove ( & current_num ) } } } pub fn return_result_of < F : 'static > ( self , lambda : F ) -> Self where F : FnMut ( ) -> __RESULT_NAME { { let mut lambda_result = self . lambda . lock ( ) . unwrap ( ) ; * lambda_result = Some ( Box :: new ( lambda ) ) ; } self } pub fn when < F : 'static > ( self , condition : F ) -> Self where F : Fn ( ) -> bool { { let mut guard = self . condition . lock ( ) . unwrap ( ) ; * guard = Some ( Box :: new ( condition ) ) ; } self } } # [ allow ( dead_code ) ] # [ allow ( non_camel_case_types ) ] impl < __RESULT_NAME > :: std :: ops :: Drop for";
pub const METHOD_BODY_4: &'static str = "< __RESULT_NAME > { fn drop ( & mut self ) { if let Some ( min_calls ) = self . min_calls { if let Ok ( value ) = self . current_num . lock ( ) { let current_num = * value ; if current_num - 1 < min_calls { panic ! ( \"Method failed 'called at least', current number of calls is {}, minimum is {}\" , current_num , min_calls ) ; } } } } }";

/// The token text of the recorder type of one mocked method, `mock_method_name<R>`, with its configuration methods, its `call` and its `Drop` check.
#[verifier::opaque]
pub open spec fn mock_method_body_text(pubtok: Seq<char>, mock_method_name: Seq<char>) -> Seq<char> {
    let t = Seq::<char>::empty();
    let t = tok_join(t, METHOD_BODY_0@);
    let t = tok_join(t, pubtok);
    let t = tok_join(t, METHOD_BODY_1@);
    let t = tok_join(t, mock_method_name);
    let t = tok_join(t, METHOD_BODY_2@);
    let t = tok_join(t, mock_method_name);
    let t = tok_join(t, METHOD_BODY_3@);
    let t = tok_join(t, mock_method_name);
    let t = tok_join(t, METHOD_BODY_4@);
    t
}

/// Emits the recorder type of one mocked method, `mock_method_name<R>`, with its configuration methods, its `call` and its `Drop` check.
pub fn generate_mock_method_body(pubtok: &str, mock_method_name: &str) -> (res: String)
    ensures
        res@ == mock_method_body_text(pubtok@, mock_method_name@),
{
    proof {
        reveal(mock_method_body_text);
    }
    let mut t = String::new();
    append_tokens(&mut t, METHOD_BODY_0);
    append_tokens(&mut t, pubtok);
    append_tokens(&mut t, METHOD_BODY_1);
    append_tokens(&mut t, mock_method_name);
    append_tokens(&mut t, METHOD_BODY_2);
    append_tokens(&mut t, mock_method_name);
    append_tokens(&mut t, METHOD_BODY_3);
    append_tokens(&mut t, mock_method_name);
    append_tokens(&mut t, METHOD_BODY_4);
    t
}

pub const STATIC_SETUP_0: &'static str = "# [ allow ( dead_code ) ] pub fn";
pub const STATIC_SETUP_1: &'static str = "( ) ->";
pub const STATIC_SETUP_2: &'static str = "<";
pub const STATIC_SETUP_3: &'static str = "> {";
pub const STATIC_SETUP_4: &'static str = "{ call_num : :: std :: sync :: Mutex :: new ( 1 ) , current_num : :: std :: sync :: Mutex :: new ( 1 ) , retval : :: std :: sync :: Mutex :: new ( :: std :: collections :: HashMap :: new ( ) ) , lambda : :: std :: sync :: Mutex :: new ( None ) , condition : :: std :: sync :: Mutex :: new ( None ) , should_never_be_called : false , max_calls : None , min_calls : None , } } # [ allow ( dead_code ) ] pub fn";
pub const STATIC_SETUP_5: &'static str = "( x :";
pub const STATIC_SETUP_6: &'static str = "<";
pub const STATIC_SETUP_7: &'static str = "> ) { let value =";
pub const STATIC_SETUP_8: &'static str = "( ) ; let mut singleton = value . inner . lock ( ) . unwrap ( ) ; singleton .";
pub const STATIC_SETUP_9: &'static str = "= Some ( x ) ; } # [ allow ( dead_code ) ] pub fn";
pub const STATIC_SETUP_10: &'static str = "( ) { let value =";
pub const STATIC_SETUP_11: &'static str = "( ) ; let mut singleton = value . inner . lock ( ) . unwrap ( ) ; singleton .";
pub const STATIC_SETUP_12: &'static str = "= None ; }";

/// The token text of the constructor, setter and clearer of the recorder of a static method.
#[verifier::opaque]
pub open spec fn static_setup_text(name_lc: Seq<char>, name: Seq<char>, return_type: Seq<char>, setter_name: Seq<char>, static_name: Seq<char>, clear_name: Seq<char>) -> Seq<char> {
    let t = Seq::<char>::empty();
    let t = tok_join(t, STATIC_SETUP_0@);
    let t = tok_join(t, name_lc);
    let t = tok_join(t, STATIC_SETUP_1@);
    let t = tok_join(t, name);
    let t = tok_join(t, STATIC_SETUP_2@);
    let t = tok_join(t, return_type);
    let t = tok_join(t, STATIC_SETUP_3@);
    let t = tok_join(t, name);
    let t = tok_join(t, STATIC_SETUP_4@);
    let t = tok_join(t, setter_name);
    let t = tok_join(t, STATIC_SETUP_5@);
    let t = tok_join(t, name);
    let t = tok_join(t, STATIC_SETUP_6@);
    let t = tok_join(t, return_type);
    let t = tok_join(t, STATIC_SETUP_7@);
    let t = tok_join(t, static_name);
    let t = tok_join(t, STATIC_SETUP_8@);
    let t = tok_join(t, name_lc);
    let t = tok_join(t, STATIC_SETUP_9@);
    let t = tok_join(t, clear_name);
    let t = tok_join(t, STATIC_SETUP_10@);
    let t = tok_join(t, static_name);
    let t = tok_join(t, STATIC_SETUP_11@);
    let t = tok_join(t, name_lc);
    let t = tok_join(t, STATIC_SETUP_12@);
    t
}

/// Emits the constructor, setter and clearer of the recorder of a static method.
pub fn static_setup_tokens(name_lc: &str, name: &str, return_type: &str, setter_name: &str, static_name: &str, clear_name: &str) -> (res: String)
    ensures
        res@ == static_setup_text(name_lc@, name@, return_type@, setter_name@, static_name@, clear_name@),
{
    proof {
        reveal(static_setup_text);
    }
    let mut t = String::new();
    append_tokens(&mut t, STATIC_SETUP_0);
    append_tokens(&mut t, name_lc);
    append_tokens(&mut t, STATIC_SETUP_1);
    append_tokens(&mut t, name);
    append_tokens(&mut t, STATIC_SETUP_2);
    append_tokens(&mut t, return_type);
    append_tokens(&mut t, STATIC_SETUP_3);
    append_tokens(&mut t, name);
    append_tokens(&mut t, STATIC_SETUP_4);
    append_tokens(&mut t, setter_name);
    append_tokens(&mut t, STATIC_SETUP_5);
    append_tokens(&mut t, name);
    append_tokens(&mut t, STATIC_SETUP_6);
    append_tokens(&mut t, return_type);
    append_tokens(&mut t, STATIC_SETUP_7);
    append_tokens(&mut t, static_name);
    append_tokens(&mut t, STATIC_SETUP_8);
    append_tokens(&mut t, name_lc);
    append_tokens(&mut t, STATIC_SETUP_9);
    append_tokens(&mut t, clear_name);
    append_tokens(&mut t, STATIC_SETUP_10);
    append_tokens(&mut t, static_name);
    append_tokens(&mut t, STATIC_SETUP_11);
    append_tokens(&mut t, name_lc);
    append_tokens(&mut t, STATIC_SETUP_12);
    t
}

pub const STATIC_IMPL_0: &'static str = "fn";
pub const STATIC_IMPL_1: &'static str = "(";
pub const STATIC_IMPL_2: &'static str = ")";
pub const STATIC_IMPL_3: &'static str = "{ let value =";
pub const STATIC_IMPL_4: &'static str = "( ) ; let singleton = value . inner . lock ( ) . unwrap ( ) ; if let Some ( ref method ) = singleton .";
pub const STATIC_IMPL_5: &'static str = "{ match method . call ( ) { Some (";
pub const STATIC_IMPL_6: &'static str = ") => {";
pub const STATIC_IMPL_7: &'static str = "} , None => { panic ! ( \"Called a static mock function without a value set.\" ) ; } } } else { panic ! ( ) ; } }";

/// The token text of the body of a mocked static method, which answers from the recorder that was set.
#[verifier::opaque]
pub open spec fn static_impl_text(unsafety: Seq<char>, base_name: Seq<char>, args_with_types: Seq<char>, return_statement: Seq<char>, static_name: Seq<char>, name_lc: Seq<char>, some_arg: Seq<char>, retval_statement: Seq<char>) -> Seq<char> {
    let t = Seq::<char>::empty();
    let t = tok_join(t, unsafety);
    let t = tok_join(t, STATIC_IMPL_0@);
    let t = tok_join(t, base_name);
    let t = tok_join(t, STATIC_IMPL_1@);
    let t = tok_join(t, args_with_types);
    let t = tok_join(t, STATIC_IMPL_2@);
    let t = tok_join(t, return_statement);
    let t = tok_join(t, STATIC_IMPL_3@);
    let t = tok_join(t, static_name);
    let t = tok_join(t, STATIC_IMPL_4@);
    let t = tok_join(t, name_lc);
    let t = tok_join(t, STATIC_IMPL_5@);
    let t = tok_join(t, some_arg);
    let t = tok_join(t, STATIC_IMPL_6@);
    let t = tok_join(t, retval_statement);
    let t = tok_join(t, STATIC_IMPL_7@);
    t
}

/// Emits the body of a mocked static method, which answers from the recorder that was set.
pub fn static_impl_tokens(unsafety: &str, base_name: &str, args_with_types: &str, return_statement: &str, static_name: &str, name_lc: &str, some_arg: &str, retval_statement: &str) -> (res: String)
    ensures
        res@ == static_impl_text(unsafety@, base_name@, args_with_types@, return_statement@, static_name@, name_lc@, some_arg@, retval_statement@),
{
    proof {
        reveal(static_impl_text);
    }
    let mut t = String::new();
    append_tokens(&mut t, unsafety);
    append_tokens(&mut t, STATIC_IMPL_0);
    append_tokens(&mut t, base_name);
    append_tokens(&mut t, STATIC_IMPL_1);
    append_tokens(&mut t, args_with_types);
    append_tokens(&mut t, STATIC_IMPL_2);
    append_tokens(&mut t, return_statement);
    append_tokens(&mut t, STATIC_IMPL_3);
    append_tokens(&mut t, static_name);
    append_tokens(&mut t, STATIC_IMPL_4);
    append_tokens(&mut t, name_lc);
    append_tokens(&mut t, STATIC_IMPL_5);
    append_tokens(&mut t, some_arg);
    append_tokens(&mut t, STATIC_IMPL_6);
    append_tokens(&mut t, retval_statement);
    append_tokens(&mut t, STATIC_IMPL_7);
    t
}

pub const ACCESSORS_0: &'static str = "pub fn";
pub const ACCESSORS_1: &'static str = "( & self ) ->";
pub const ACCESSORS_2: &'static str = "<";
pub const ACCESSORS_3: &'static str = "> {";
pub const ACCESSORS_4: &'static str = "{ call_num : :: std :: sync :: Mutex :: new ( 1 ) , current_num : :: std :: sync :: Mutex :: new ( 1 ) , retval : :: std :: sync :: Mutex :: new ( :: std :: collections :: HashMap :: new ( ) ) , lambda : :: std :: sync :: Mutex :: new ( None ) , condition : :: std :: sync :: Mutex :: new ( None ) , should_never_be_called : false , max_calls : None , min_calls : None , } } pub fn";
pub const ACCESSORS_5: &'static str = "( & mut self , method :";
pub const ACCESSORS_6: &'static str = "<";
pub const ACCESSORS_7: &'static str = "> ) { self .";
pub const ACCESSORS_8: &'static str = "= Some ( method ) ; }";

/// The token text of the `method_x` constructor and `set_x` setter of a method recorder.
#[verifier::opaque]
pub open spec fn method_accessors_text(ident: Seq<char>, mock_method_name: Seq<char>, return_type: Seq<char>, setter: Seq<char>, name_stream: Seq<char>) -> Seq<char> {
    let t = Seq::<char>::empty();
    let t = tok_join(t, ACCESSORS_0@);
    let t = tok_join(t, ident);
    let t = tok_join(t, ACCESSORS_1@);
    let t = tok_join(t, mock_method_name);
    let t = tok_join(t, ACCESSORS_2@);
    let t = tok_join(t, return_type);
    let t = tok_join(t, ACCESSORS_3@);
    let t = tok_join(t, mock_method_name);
    let t = tok_join(t, ACCESSORS_4@);
    let t = tok_join(t, setter);
    let t = tok_join(t, ACCESSORS_5@);
    let t = tok_join(t, mock_method_name);
    let t = tok_join(t, ACCESSORS_6@);
    let t = tok_join(t, return_type);
    let t = tok_join(t, ACCESSORS_7@);
    let t = tok_join(t, name_stream);
    let t = tok_join(t, ACCESSORS_8@);
    t
}

/// Emits the `method_x` constructor and `set_x` setter of a method recorder.
pub fn method_accessors_tokens(ident: &str, mock_method_name: &str, return_type: &str, setter: &str, name_stream: &str) -> (res: String)
    ensures
        res@ == method_accessors_text(ident@, mock_method_name@, return_type@, setter@, name_stream@),
{
    proof {
        reveal(method_accessors_text);
    }
    let mut t = String::new();
    append_tokens(&mut t, ACCESSORS_0);
    append_tokens(&mut t, ident);
    append_tokens(&mut t, ACCESSORS_1);
    append_tokens(&mut t, mock_method_name);
    append_tokens(&mut t, ACCESSORS_2);
    append_tokens(&mut t, return_type);
    append_tokens(&mut t, ACCESSORS_3);
    append_tokens(&mut t, mock_method_name);
    append_tokens(&mut t, ACCESSORS_4);
    append_tokens(&mut t, setter);
    append_tokens(&mut t, ACCESSORS_5);
    append_tokens(&mut t, mock_method_name);
    append_tokens(&mut t, ACCESSORS_6);
    append_tokens(&mut t, return_type);
    append_tokens(&mut t, ACCESSORS_7);
    append_tokens(&mut t, name_stream);
    append_tokens(&mut t, ACCESSORS_8);
    t
}

pub const FIELD_0: &'static str = ": Option <";
pub const FIELD_1: &'static str = "<";
pub const FIELD_2: &'static str = ">> ,";

/// The token text of the field of the mock struct that holds the recorder of a method.
#[verifier::opaque]
pub open spec fn recorder_field_text(name_stream: Seq<char>, mock_method_name: Seq<char>, return_type: Seq<char>) -> Seq<char> {
    let t = Seq::<char>::empty();
    let t = tok_join(t, name_stream);
    let t = tok_join(t, FIELD_0@);
    let t = tok_join(t, mock_method_name);
    let t = tok_join(t, FIELD_1@);
    let t = tok_join(t, return_type);
    let t = tok_join(t, FIELD_2@);
    t
}

/// Emits the field of the mock struct that holds the recorder of a method.
pub fn recorder_field_tokens(name_stream: &str, mock_method_name: &str, return_type: &str) -> (res: String)
    ensures
        res@ == recorder_field_text(name_stream@, mock_method_name@, return_type@),
{
    proof {
        reveal(recorder_field_text);
    }
    let mut t = String::new();
    append_tokens(&mut t, name_stream);
    append_tokens(&mut t, FIELD_0);
    append_tokens(&mut t, mock_method_name);
    append_tokens(&mut t, FIELD_1);
    append_tokens(&mut t, return_type);
    append_tokens(&mut t, FIELD_2);
    t
}

pub const CTOR_0: &'static str = ": None ,";

/// The token text of the initialiser of a recorder field.
#[verifier::opaque]
pub open spec fn recorder_ctor_text(name_stream: Seq<char>) -> Seq<char> {
    let t = Seq::<char>::empty();
    let t = tok_join(t, name_stream);
    let t = tok_join(t, CTOR_0@);
    t
}

/// Emits the initialiser of a recorder field.
pub fn recorder_ctor_tokens(name_stream: &str) -> (res: String)
    ensures
        res@ == recorder_ctor_text(name_stream@),
{
    proof {
        reveal(recorder_ctor_text);
    }
    let mut t = String::new();
    append_tokens(&mut t, name_stream);
    append_tokens(&mut t, CTOR_0);
    t
}

pub const FALLBACK_OWNED_0: &'static str = "panic ! ( \"Using a fallback for methods that take ownership of self is not supported. This is because the internals of our library do not know the size of your implementation at compile time, and will not be able to call the fallback method\" ) ;";

/// The token text of the fallback of a method that takes `self` by value.
#[verifier::opaque]
pub open spec fn owned_self_fallback_text() -> Seq<char> {
    let t = Seq::<char>::empty();
    let t = tok_join(t, FALLBACK_OWNED_0@);
    t
}

/// Emits the fallback of a method that takes `self` by value.
pub fn owned_self_fallback_tokens() -> (res: String)
    ensures
        res@ == owned_self_fallback_text(),
{
    proof {
        reveal(owned_self_fallback_text);
    }
    let mut t = String::new();
    append_tokens(&mut t, FALLBACK_OWNED_0);
    t
}

pub const FALLBACK_OBJECT_0: &'static str = "let ref";
pub const FALLBACK_OBJECT_1: &'static str = "fallback = self . fallback";
pub const FALLBACK_OBJECT_2: &'static str = ". expect ( \"Called method without either a fallback, or a set result\" ) ; fallback .";
pub const FALLBACK_OBJECT_3: &'static str = "(";
pub const FALLBACK_OBJECT_4: &'static str = ")";

/// The token text of the fallback that calls the method on the fallback object.
#[verifier::opaque]
pub open spec fn object_fallback_text(mut_token: Seq<char>, get_ref: Seq<char>, name_stream: Seq<char>, args_with_no_self_no_types: Seq<char>) -> Seq<char> {
    let t = Seq::<char>::empty();
    let t = tok_join(t, FALLBACK_OBJECT_0@);
    let t = tok_join(t, mut_token);
    let t = tok_join(t, FALLBACK_OBJECT_1@);
    let t = tok_join(t, get_ref);
    let t = tok_join(t, FALLBACK_OBJECT_2@);
    let t = tok_join(t, name_stream);
    let t = tok_join(t, FALLBACK_OBJECT_3@);
    let t = tok_join(t, args_with_no_self_no_types);
    let t = tok_join(t, FALLBACK_OBJECT_4@);
    t
}

/// Emits the fallback that calls the method on the fallback object.
pub fn object_fallback_tokens(mut_token: &str, get_ref: &str, name_stream: &str, args_with_no_self_no_types: &str) -> (res: String)
    ensures
        res@ == object_fallback_text(mut_token@, get_ref@, name_stream@, args_with_no_self_no_types@),
{
    proof {
        reveal(object_fallback_text);
    }
    let mut t = String::new();
    append_tokens(&mut t, FALLBACK_OBJECT_0);
    append_tokens(&mut t, mut_token);
    append_tokens(&mut t, FALLBACK_OBJECT_1);
    append_tokens(&mut t, get_ref);
    append_tokens(&mut t, FALLBACK_OBJECT_2);
    append_tokens(&mut t, name_stream);
    append_tokens(&mut t, FALLBACK_OBJECT_3);
    append_tokens(&mut t, args_with_no_self_no_types);
    append_tokens(&mut t, FALLBACK_OBJECT_4);
    t
}

pub const FALLBACK_DISABLED_0: &'static str = "panic ! ( \"Using a fallback has been disabled for this use case. We cannot use a fallback for Sized Types.\" ) ;";

/// The token text of the fallback of a trait that has no fallback object.
#[verifier::opaque]
pub open spec fn disabled_fallback_text() -> Seq<char> {
    let t = Seq::<char>::empty();
    let t = tok_join(t, FALLBACK_DISABLED_0@);
    t
}

/// Emits the fallback of a trait that has no fallback object.
pub fn disabled_fallback_tokens() -> (res: String)
    ensures
        res@ == disabled_fallback_text(),
{
    proof {
        reveal(disabled_fallback_text);
    }
    let mut t = String::new();
    append_tokens(&mut t, FALLBACK_DISABLED_0);
    t
}

pub const METHOD_IMPL_0: &'static str = "fn";
pub const METHOD_IMPL_1: &'static str = "(";
pub const METHOD_IMPL_2: &'static str = ")";
pub const METHOD_IMPL_3: &'static str = "{ match self .";
pub const METHOD_IMPL_4: &'static str = ". as_ref ( ) { Some ( method ) => { match method . call ( ) { Some (";
pub const METHOD_IMPL_5: &'static str = ") => {";
pub const METHOD_IMPL_6: &'static str = "} , None => {";
pub const METHOD_IMPL_7: &'static str = "} } } , None => {";
pub const METHOD_IMPL_8: &'static str = "} } }";

/// The token text of a mocked trait method, which answers from its recorder or falls back.
#[verifier::opaque]
pub open spec fn method_impl_text(unsafety: Seq<char>, name_stream: Seq<char>, args_with_types: Seq<char>, return_statement: Seq<char>, some_arg: Seq<char>, retval_statement: Seq<char>, fallback: Seq<char>) -> Seq<char> {
    let t = Seq::<char>::empty();
    let t = tok_join(t, unsafety);
    let t = tok_join(t, METHOD_IMPL_0@);
    let t = tok_join(t, name_stream);
    let t = tok_join(t, METHOD_IMPL_1@);
    let t = tok_join(t, args_with_types);
    let t = tok_join(t, METHOD_IMPL_2@);
    let t = tok_join(t, return_statement);
    let t = tok_join(t, METHOD_IMPL_3@);
    let t = tok_join(t, name_stream);
    let t = tok_join(t, METHOD_IMPL_4@);
    let t = tok_join(t, some_arg);
    let t = tok_join(t, METHOD_IMPL_5@);
    let t = tok_join(t, retval_statement);
    let t = tok_join(t, METHOD_IMPL_6@);
    let t = tok_join(t, fallback);
    let t = tok_join(t, METHOD_IMPL_7@);
    let t = tok_join(t, fallback);
    let t = tok_join(t, METHOD_IMPL_8@);
    t
}

/// Emits a mocked trait method, which answers from its recorder or falls back.
pub fn method_impl_tokens(unsafety: &str, name_stream: &str, args_with_types: &str, return_statement: &str, some_arg: &str, retval_statement: &str, fallback: &str) -> (res: String)
    ensures
        res@ == method_impl_text(unsafety@, name_stream@, args_with_types@, return_statement@, some_arg@, retval_statement@, fallback@),
{
    proof {
        reveal(method_impl_text);
    }
    let mut t = String::new();
    append_tokens(&mut t, unsafety);
    append_tokens(&mut t, METHOD_IMPL_0);
    append_tokens(&mut t, name_stream);
    append_tokens(&mut t, METHOD_IMPL_1);
    append_tokens(&mut t, args_with_types);
    append_tokens(&mut t, METHOD_IMPL_2);
    append_tokens(&mut t, return_statement);
    append_tokens(&mut t, METHOD_IMPL_3);
    append_tokens(&mut t, name_stream);
    append_tokens(&mut t, METHOD_IMPL_4);
    append_tokens(&mut t, some_arg);
    append_tokens(&mut t, METHOD_IMPL_5);
    append_tokens(&mut t, retval_statement);
    append_tokens(&mut t, METHOD_IMPL_6);
    append_tokens(&mut t, fallback);
    append_tokens(&mut t, METHOD_IMPL_7);
    append_tokens(&mut t, fallback);
    append_tokens(&mut t, METHOD_IMPL_8);
    t
}

pub const FALLBACK_FIELD_0: &'static str = "fallback : Option < Box <";
pub const FALLBACK_FIELD_1: &'static str = ">> ,";

/// The token text of the field that holds the fallback object.
#[verifier::opaque]
pub open spec fn fallback_field_text(trait_name: Seq<char>, generics: Seq<char>) -> Seq<char> {
    let t = Seq::<char>::empty();
    let t = tok_join(t, FALLBACK_FIELD_0@);
    let t = tok_join(t, trait_name);
    let t = tok_join(t, generics);
    let t = tok_join(t, FALLBACK_FIELD_1@);
    t
}

/// Emits the field that holds the fallback object.
pub fn fallback_field_tokens(trait_name: &str, generics: &str) -> (res: String)
    ensures
        res@ == fallback_field_text(trait_name@, generics@),
{
    proof {
        reveal(fallback_field_text);
    }
    let mut t = String::new();
    append_tokens(&mut t, FALLBACK_FIELD_0);
    append_tokens(&mut t, trait_name);
    append_tokens(&mut t, generics);
    append_tokens(&mut t, FALLBACK_FIELD_1);
    t
}

pub const FALLBACK_CTOR_0: &'static str = "fallback : None ,";

/// The token text of the initialiser of the fallback field.
#[verifier::opaque]
pub open spec fn fallback_ctor_text() -> Seq<char> {
    let t = Seq::<char>::empty();
    let t = tok_join(t, FALLBACK_CTOR_0@);
    t
}

/// Emits the initialiser of the fallback field.
pub fn fallback_ctor_tokens() -> (res: String)
    ensures
        res@ == fallback_ctor_text(),
{
    proof {
        reveal(fallback_ctor_text);
    }
    let mut t = String::new();
    append_tokens(&mut t, FALLBACK_CTOR_0);
    t
}

pub const FALLBACK_SETTER_0: &'static str = "# [ allow ( non_camel_case_types ) ] pub fn set_fallback < __TYPE_NAME : 'static +";
pub const FALLBACK_SETTER_1: &'static str = "> ( & mut self , t : __TYPE_NAME ) { self . fallback = Some ( Box :: new ( t ) ) ; }";

/// The token text of the `set_fallback` method.
#[verifier::opaque]
pub open spec fn fallback_setter_text(trait_name: Seq<char>, generics: Seq<char>) -> Seq<char> {
    let t = Seq::<char>::empty();
    let t = tok_join(t, FALLBACK_SETTER_0@);
    let t = tok_join(t, trait_name);
    let t = tok_join(t, generics);
    let t = tok_join(t, FALLBACK_SETTER_1@);
    t
}

/// Emits the `set_fallback` method.
pub fn fallback_setter_tokens(trait_name: &str, generics: &str) -> (res: String)
    ensures
        res@ == fallback_setter_text(trait_name@, generics@),
{
    proof {
        reveal(fallback_setter_text);
    }
    let mut t = String::new();
    append_tokens(&mut t, FALLBACK_SETTER_0);
    append_tokens(&mut t, trait_name);
    append_tokens(&mut t, generics);
    append_tokens(&mut t, FALLBACK_SETTER_1);
    t
}

pub const STATIC_CTOR_0: &'static str = ": None ,";

/// The token text of the initialiser of a static recorder slot.
#[verifier::opaque]
pub open spec fn static_ctor_entry_text(name_lc: Seq<char>) -> Seq<char> {
    let t = Seq::<char>::empty();
    let t = tok_join(t, name_lc);
    let t = tok_join(t, STATIC_CTOR_0@);
    t
}

/// Emits the initialiser of a static recorder slot.
pub fn static_ctor_entry_tokens(name_lc: &str) -> (res: String)
    ensures
        res@ == static_ctor_entry_text(name_lc@),
{
    proof {
        reveal(static_ctor_entry_text);
    }
    let mut t = String::new();
    append_tokens(&mut t, name_lc);
    append_tokens(&mut t, STATIC_CTOR_0);
    t
}

pub const STATIC_DEF_0: &'static str = ": Option <";
pub const STATIC_DEF_1: &'static str = "<";
pub const STATIC_DEF_2: &'static str = ">> ,";

/// The token text of the declaration of a static recorder slot.
#[verifier::opaque]
pub open spec fn static_def_entry_text(name_lc: Seq<char>, name: Seq<char>, return_type: Seq<char>) -> Seq<char> {
    let t = Seq::<char>::empty();
    let t = tok_join(t, name_lc);
    let t = tok_join(t, STATIC_DEF_0@);
    let t = tok_join(t, name);
    let t = tok_join(t, STATIC_DEF_1@);
    let t = tok_join(t, return_type);
    let t = tok_join(t, STATIC_DEF_2@);
    t
}

/// Emits the declaration of a static recorder slot.
pub fn static_def_entry_tokens(name_lc: &str, name: &str, return_type: &str) -> (res: String)
    ensures
        res@ == static_def_entry_text(name_lc@, name@, return_type@),
{
    proof {
        reveal(static_def_entry_text);
    }
    let mut t = String::new();
    append_tokens(&mut t, name_lc);
    append_tokens(&mut t, STATIC_DEF_0);
    append_tokens(&mut t, name);
    append_tokens(&mut t, STATIC_DEF_1);
    append_tokens(&mut t, return_type);
    append_tokens(&mut t, STATIC_DEF_2);
    t
}

pub const DERIVED_0: &'static str = "impl";
pub const DERIVED_1: &'static str = "for";
pub const DERIVED_2: &'static str = "{";
pub const DERIVED_3: &'static str = "}";

/// The token text of the impl of a supertrait for the mock struct.
#[verifier::opaque]
pub open spec fn derived_impl_text(base_generics: Seq<char>, trait_ref: Seq<char>, impl_name: Seq<char>, generics: Seq<char>, where_clause: Seq<char>, base_method_impls: Seq<char>) -> Seq<char> {
    let t = Seq::<char>::empty();
    let t = tok_join(t, DERIVED_0@);
    let t = tok_join(t, base_generics);
    let t = tok_join(t, trait_ref);
    let t = tok_join(t, base_generics);
    let t = tok_join(t, DERIVED_1@);
    let t = tok_join(t, impl_name);
    let t = tok_join(t, generics);
    let t = tok_join(t, where_clause);
    let t = tok_join(t, DERIVED_2@);
    let t = tok_join(t, base_method_impls);
    let t = tok_join(t, DERIVED_3@);
    t
}

/// Emits the impl of a supertrait for the mock struct.
pub fn derived_impl_tokens(base_generics: &str, trait_ref: &str, impl_name: &str, generics: &str, where_clause: &str, base_method_impls: &str) -> (res: String)
    ensures
        res@ == derived_impl_text(base_generics@, trait_ref@, impl_name@, generics@, where_clause@, base_method_impls@),
{
    proof {
        reveal(derived_impl_text);
    }
    let mut t = String::new();
    append_tokens(&mut t, DERIVED_0);
    append_tokens(&mut t, base_generics);
    append_tokens(&mut t, trait_ref);
    append_tokens(&mut t, base_generics);
    append_tokens(&mut t, DERIVED_1);
    append_tokens(&mut t, impl_name);
    append_tokens(&mut t, generics);
    append_tokens(&mut t, where_clause);
    append_tokens(&mut t, DERIVED_2);
    append_tokens(&mut t, base_method_impls);
    append_tokens(&mut t, DERIVED_3);
    t
}

pub const STATIC_INIT_0: &'static str = "{";
pub const STATIC_INIT_1: &'static str = "}";

/// The token text of the initial value of the static recorder slots.
#[verifier::opaque]
pub open spec fn static_init_text(static_struct_name: Seq<char>, static_mocks_ctor: Seq<char>) -> Seq<char> {
    let t = Seq::<char>::empty();
    let t = tok_join(t, static_struct_name);
    let t = tok_join(t, STATIC_INIT_0@);
    let t = tok_join(t, static_mocks_ctor);
    let t = tok_join(t, STATIC_INIT_1@);
    t
}

/// Emits the initial value of the static recorder slots.
pub fn static_init_tokens(static_struct_name: &str, static_mocks_ctor: &str) -> (res: String)
    ensures
        res@ == static_init_text(static_struct_name@, static_mocks_ctor@),
{
    proof {
        reveal(static_init_text);
    }
    let mut t = String::new();
    append_tokens(&mut t, static_struct_name);
    append_tokens(&mut t, STATIC_INIT_0);
    append_tokens(&mut t, static_mocks_ctor);
    append_tokens(&mut t, STATIC_INIT_1);
    t
}

pub const STATIC_CONTENT_0: &'static str = "# [ allow ( non_camel_case_types ) ] struct";
pub const STATIC_CONTENT_1: &'static str = "{";
pub const STATIC_CONTENT_2: &'static str = "}";

/// The token text of the static recorder slots of a trait and their recorder types.
#[verifier::opaque]
pub open spec fn static_content_text(static_struct_name: Seq<char>, static_mocks_def: Seq<char>, mut_static: Seq<char>, static_method_body: Seq<char>) -> Seq<char> {
    let t = Seq::<char>::empty();
    let t = tok_join(t, STATIC_CONTENT_0@);
    let t = tok_join(t, static_struct_name);
    let t = tok_join(t, STATIC_CONTENT_1@);
    let t = tok_join(t, static_mocks_def);
    let t = tok_join(t, STATIC_CONTENT_2@);
    let t = tok_join(t, mut_static);
    let t = tok_join(t, static_method_body);
    t
}

/// Emits the static recorder slots of a trait and their recorder types.
pub fn static_content_tokens(static_struct_name: &str, static_mocks_def: &str, mut_static: &str, static_method_body: &str) -> (res: String)
    ensures
        res@ == static_content_text(static_struct_name@, static_mocks_def@, mut_static@, static_method_body@),
{
    proof {
        reveal(static_content_text);
    }
    let mut t = String::new();
    append_tokens(&mut t, STATIC_CONTENT_0);
    append_tokens(&mut t, static_struct_name);
    append_tokens(&mut t, STATIC_CONTENT_1);
    append_tokens(&mut t, static_mocks_def);
    append_tokens(&mut t, STATIC_CONTENT_2);
    append_tokens(&mut t, mut_static);
    append_tokens(&mut t, static_method_body);
    t
}

pub const TRAIT_STREAM_0: &'static str = "# [ allow ( dead_code ) ]";
pub const TRAIT_STREAM_1: &'static str = "struct";
pub const TRAIT_STREAM_2: &'static str = "{";
pub const TRAIT_STREAM_3: &'static str = "} # [ allow ( dead_code ) ] impl";
pub const TRAIT_STREAM_4: &'static str = "{";
pub const TRAIT_STREAM_5: &'static str = "pub fn new ( ) ->";
pub const TRAIT_STREAM_6: &'static str = "{";
pub const TRAIT_STREAM_7: &'static str = "{";
pub const TRAIT_STREAM_8: &'static str = "} } }";
pub const TRAIT_STREAM_9: &'static str = "impl";
pub const TRAIT_STREAM_10: &'static str = "for";
pub const TRAIT_STREAM_11: &'static str = "{";
pub const TRAIT_STREAM_12: &'static str = "}";

/// The token text of the trait, its mock struct, the struct's methods and its impl of the trait.
#[verifier::opaque]
pub open spec fn trait_stream_text(raw_trait: Seq<char>, static_content: Seq<char>, pubtok: Seq<char>, impl_name: Seq<char>, generics: Seq<char>, where_clause: Seq<char>, fields: Seq<char>, mock_impl_methods: Seq<char>, static_method_setup: Seq<char>, ctor: Seq<char>, mock_method_body: Seq<char>, unsafety: Seq<char>, trait_name: Seq<char>, method_impls: Seq<char>, static_method_impl: Seq<char>, derived_additions: Seq<char>) -> Seq<char> {
    let t = Seq::<char>::empty();
    let t = tok_join(t, raw_trait);
    let t = tok_join(t, static_content);
    let t = tok_join(t, TRAIT_STREAM_0@);
    let t = tok_join(t, pubtok);
    let t = tok_join(t, TRAIT_STREAM_1@);
    let t = tok_join(t, impl_name);
    let t = tok_join(t, generics);
    let t = tok_join(t, where_clause);
    let t = tok_join(t, TRAIT_STREAM_2@);
    let t = tok_join(t, fields);
    let t = tok_join(t, TRAIT_STREAM_3@);
    let t = tok_join(t, generics);
    let t = tok_join(t, impl_name);
    let t = tok_join(t, generics);
    let t = tok_join(t, where_clause);
    let t = tok_join(t, TRAIT_STREAM_4@);
    let t = tok_join(t, mock_impl_methods);
    let t = tok_join(t, static_method_setup);
    let t = tok_join(t, TRAIT_STREAM_5@);
    let t = tok_join(t, impl_name);
    let t = tok_join(t, generics);
    let t = tok_join(t, TRAIT_STREAM_6@);
    let t = tok_join(t, impl_name);
    let t = tok_join(t, TRAIT_STREAM_7@);
    let t = tok_join(t, ctor);
    let t = tok_join(t, TRAIT_STREAM_8@);
    let t = tok_join(t, mock_method_body);
    let t = tok_join(t, unsafety);
    let t = tok_join(t, TRAIT_STREAM_9@);
    let t = tok_join(t, generics);
    let t = tok_join(t, trait_name);
    let t = tok_join(t, generics);
    let t = tok_join(t, TRAIT_STREAM_10@);
    let t = tok_join(t, impl_name);
    let t = tok_join(t, generics);
    let t = tok_join(t, where_clause);
    let t = tok_join(t, TRAIT_STREAM_11@);
    let t = tok_join(t, method_impls);
    let t = tok_join(t, static_method_impl);
    let t = tok_join(t, TRAIT_STREAM_12@);
    let t = tok_join(t, derived_additions);
    t
}

/// Emits the trait, its mock struct, the struct's methods and its impl of the trait.
pub fn trait_stream_tokens(raw_trait: &str, static_content: &str, pubtok: &str, impl_name: &str, generics: &str, where_clause: &str, fields: &str, mock_impl_methods: &str, static_method_setup: &str, ctor: &str, mock_method_body: &str, unsafety: &str, trait_name: &str, method_impls: &str, static_method_impl: &str, derived_additions: &str) -> (res: String)
    ensures
        res@ == trait_stream_text(raw_trait@, static_content@, pubtok@, impl_name@, generics@, where_clause@, fields@, mock_impl_methods@, static_method_setup@, ctor@, mock_method_body@, unsafety@, trait_name@, method_impls@, static_method_impl@, derived_additions@),
{
    proof {
        reveal(trait_stream_text);
    }
    let mut t = String::new();
    append_tokens(&mut t, raw_trait);
    append_tokens(&mut t, static_content);
    append_tokens(&mut t, TRAIT_STREAM_0);
    append_tokens(&mut t, pubtok);
    append_tokens(&mut t, TRAIT_STREAM_1);
    append_tokens(&mut t, impl_name);
    append_tokens(&mut t, generics);
    append_tokens(&mut t, where_clause);
    append_tokens(&mut t, TRAIT_STREAM_2);
    append_tokens(&mut t, fields);
    append_tokens(&mut t, TRAIT_STREAM_3);
    append_tokens(&mut t, generics);
    append_tokens(&mut t, impl_name);
    append_tokens(&mut t, generics);
    append_tokens(&mut t, where_clause);
    append_tokens(&mut t, TRAIT_STREAM_4);
    append_tokens(&mut t, mock_impl_methods);
    append_tokens(&mut t, static_method_setup);
    append_tokens(&mut t, TRAIT_STREAM_5);
    append_tokens(&mut t, impl_name);
    append_tokens(&mut t, generics);
    append_tokens(&mut t, TRAIT_STREAM_6);
    append_tokens(&mut t, impl_name);
    append_tokens(&mut t, TRAIT_STREAM_7);
    append_tokens(&mut t, ctor);
    append_tokens(&mut t, TRAIT_STREAM_8);
    append_tokens(&mut t, mock_method_body);
    append_tokens(&mut t, unsafety);
    append_tokens(&mut t, TRAIT_STREAM_9);
    append_tokens(&mut t, generics);
    append_tokens(&mut t, trait_name);
    append_tokens(&mut t, generics);
    append_tokens(&mut t, TRAIT_STREAM_10);
    append_tokens(&mut t, impl_name);
    append_tokens(&mut t, generics);
    append_tokens(&mut t, where_clause);
    append_tokens(&mut t, TRAIT_STREAM_11);
    append_tokens(&mut t, method_impls);
    append_tokens(&mut t, static_method_impl);
    append_tokens(&mut t, TRAIT_STREAM_12);
    append_tokens(&mut t, derived_additions);
    t
}

pub const MUT_STATIC_0: &'static str = "# [ allow ( non_camel_case_types ) ] # [ derive ( Clone ) ] struct";
pub const MUT_STATIC_1: &'static str = "{ inner : :: std :: sync :: Arc < :: std :: sync :: Mutex <";
pub const MUT_STATIC_2: &'static str = ">> } # [ allow ( non_snake_case ) ] fn";
pub const MUT_STATIC_3: &'static str = "( ) ->";
pub const MUT_STATIC_4: &'static str = "{ thread_local ! { # [ allow ( non_upper_case_globals ) ] # [ allow ( non_snake_case ) ] static";
pub const MUT_STATIC_5: &'static str = ": :: std :: cell :: RefCell < * const";
pub const MUT_STATIC_6: &'static str = "> = :: std :: cell :: RefCell :: new ( 0 as * const";
pub const MUT_STATIC_7: &'static str = ") ; static ONCE : :: std :: sync :: Once = :: std :: sync :: ONCE_INIT ; } unsafe { ONCE . with ( | once | { let x : & 'static :: std :: sync :: Once = :: std :: mem :: transmute ( once ) ; x . call_once ( || { let init_fn = || {";
pub const MUT_STATIC_8: &'static str = "} ; let singleton =";
pub const MUT_STATIC_9: &'static str = "{ inner : :: std :: sync :: Arc :: new ( :: std :: sync :: Mutex :: new ( init_fn ( ) ) ) } ;";
pub const MUT_STATIC_10: &'static str = ". with ( | f | { * f . borrow_mut ( ) = :: std :: mem :: transmute ( :: std :: boxed :: Box :: new ( singleton ) ) ; } ) ; } ) ; } ) ;";
pub const MUT_STATIC_11: &'static str = ". with ( | f | { ( * * f . borrow ( ) ) . clone ( ) } ) } }";

/// The token text of a lazily created shared singleton and the function that hands it out.
#[verifier::opaque]
pub open spec fn mut_static_text(reader_name: Seq<char>, ty: Seq<char>, ident: Seq<char>, singleton_name: Seq<char>, init_body: Seq<char>) -> Seq<char> {
    let t = Seq::<char>::empty();
    let t = tok_join(t, MUT_STATIC_0@);
    let t = tok_join(t, reader_name);
    let t = tok_join(t, MUT_STATIC_1@);
    let t = tok_join(t, ty);
    let t = tok_join(t, MUT_STATIC_2@);
    let t = tok_join(t, ident);
    let t = tok_join(t, MUT_STATIC_3@);
    let t = tok_join(t, reader_name);
    let t = tok_join(t, MUT_STATIC_4@);
    let t = tok_join(t, singleton_name);
    let t = tok_join(t, MUT_STATIC_5@);
    let t = tok_join(t, reader_name);
    let t = tok_join(t, MUT_STATIC_6@);
    let t = tok_join(t, reader_name);
    let t = tok_join(t, MUT_STATIC_7@);
    let t = tok_join(t, init_body);
    let t = tok_join(t, MUT_STATIC_8@);
    let t = tok_join(t, reader_name);
    let t = tok_join(t, MUT_STATIC_9@);
    let t = tok_join(t, singleton_name);
    let t = tok_join(t, MUT_STATIC_10@);
    let t = tok_join(t, singleton_name);
    let t = tok_join(t, MUT_STATIC_11@);
    t
}

/// Emits a lazily created shared singleton and the function that hands it out.
pub fn mut_static_tokens(reader_name: &str, ty: &str, ident: &str, singleton_name: &str, init_body: &str) -> (res: String)
    ensures
        res@ == mut_static_text(reader_name@, ty@, ident@, singleton_name@, init_body@),
{
    proof {
        reveal(mut_static_text);
    }
    let mut t = String::new();
    append_tokens(&mut t, MUT_STATIC_0);
    append_tokens(&mut t, reader_name);
    append_tokens(&mut t, MUT_STATIC_1);
    append_tokens(&mut t, ty);
    append_tokens(&mut t, MUT_STATIC_2);
    append_tokens(&mut t, ident);
    append_tokens(&mut t, MUT_STATIC_3);
    append_tokens(&mut t, reader_name);
    append_tokens(&mut t, MUT_STATIC_4);
    append_tokens(&mut t, singleton_name);
    append_tokens(&mut t, MUT_STATIC_5);
    append_tokens(&mut t, reader_name);
    append_tokens(&mut t, MUT_STATIC_6);
    append_tokens(&mut t, reader_name);
    append_tokens(&mut t, MUT_STATIC_7);
    append_tokens(&mut t, init_body);
    append_tokens(&mut t, MUT_STATIC_8);
    append_tokens(&mut t, reader_name);
    append_tokens(&mut t, MUT_STATIC_9);
    append_tokens(&mut t, singleton_name);
    append_tokens(&mut t, MUT_STATIC_10);
    append_tokens(&mut t, singleton_name);
    append_tokens(&mut t, MUT_STATIC_11);
    t
}

pub const FOREIGN_FN_0: &'static str = "impl";
pub const FOREIGN_FN_1: &'static str = "{ # [ allow ( dead_code ) ] pub fn";
pub const FOREIGN_FN_2: &'static str = "( ) ->";
pub const FOREIGN_FN_3: &'static str = "<";
pub const FOREIGN_FN_4: &'static str = "> {";
pub const FOREIGN_FN_5: &'static str = "{ call_num : :: std :: sync :: Mutex :: new ( 1 ) , current_num : :: std :: sync :: Mutex :: new ( 1 ) , retval : :: std :: sync :: Mutex :: new ( :: std :: collections :: HashMap :: new ( ) ) , lambda : :: std :: sync :: Mutex :: new ( None ) , condition : :: std :: sync :: Mutex :: new ( None ) , should_never_be_called : false , max_calls : None , min_calls : None , } } # [ allow ( dead_code ) ] pub fn";
pub const FOREIGN_FN_6: &'static str = "( x :";
pub const FOREIGN_FN_7: &'static str = "<";
pub const FOREIGN_FN_8: &'static str = "> ) { let value =";
pub const FOREIGN_FN_9: &'static str = "( ) ; let mut singleton = value . inner . lock ( ) . unwrap ( ) ; singleton .";
pub const FOREIGN_FN_10: &'static str = "= Some ( x ) ; } # [ allow ( dead_code ) ] pub fn";
pub const FOREIGN_FN_11: &'static str = "( ) { let value =";
pub const FOREIGN_FN_12: &'static str = "( ) ; let mut singleton = value . inner . lock ( ) . unwrap ( ) ; singleton .";
pub const FOREIGN_FN_13: &'static str = "= None ; } } # [ allow ( unused_variables ) ] # [ allow ( dead_code ) ] # [ allow ( private_no_mangle_fns ) ] # [ no_mangle ]";
pub const FOREIGN_FN_14: &'static str = "unsafe";
pub const FOREIGN_FN_15: &'static str = "fn";
pub const FOREIGN_FN_16: &'static str = "(";
pub const FOREIGN_FN_17: &'static str = ")";
pub const FOREIGN_FN_18: &'static str = "{ let value =";
pub const FOREIGN_FN_19: &'static str = "( ) ; let singleton = value . inner . lock ( ) . unwrap ( ) ; if let Some ( ref method ) = singleton .";
pub const FOREIGN_FN_20: &'static str = "{ match method . call ( ) { Some (";
pub const FOREIGN_FN_21: &'static str = ") => {";
pub const FOREIGN_FN_22: &'static str = "} , None => { panic ! ( \"Called a static mock function without a value set.\" ) ; } } } else { panic ! ( ) ; } }";

/// The token text of the recorder of a foreign function, its accessors and the mocked function.
#[verifier::opaque]
pub open spec fn foreign_fn_text(result: Seq<char>, mock_method_body: Seq<char>, extern_name: Seq<char>, name_lc: Seq<char>, name: Seq<char>, return_type: Seq<char>, setter_name: Seq<char>, static_name: Seq<char>, clear_name: Seq<char>, pubtok: Seq<char>, abi: Seq<char>, base_name: Seq<char>, args_with_types: Seq<char>, return_statement: Seq<char>, some_arg: Seq<char>, retval_statement: Seq<char>) -> Seq<char> {
    let t = Seq::<char>::empty();
    let t = tok_join(t, result);
    let t = tok_join(t, mock_method_body);
    let t = tok_join(t, FOREIGN_FN_0@);
    let t = tok_join(t, extern_name);
    let t = tok_join(t, FOREIGN_FN_1@);
    let t = tok_join(t, name_lc);
    let t = tok_join(t, FOREIGN_FN_2@);
    let t = tok_join(t, name);
    let t = tok_join(t, FOREIGN_FN_3@);
    let t = tok_join(t, return_type);
    let t = tok_join(t, FOREIGN_FN_4@);
    let t = tok_join(t, name);
    let t = tok_join(t, FOREIGN_FN_5@);
    let t = tok_join(t, setter_name);
    let t = tok_join(t, FOREIGN_FN_6@);
    let t = tok_join(t, name);
    let t = tok_join(t, FOREIGN_FN_7@);
    let t = tok_join(t, return_type);
    let t = tok_join(t, FOREIGN_FN_8@);
    let t = tok_join(t, static_name);
    let t = tok_join(t, FOREIGN_FN_9@);
    let t = tok_join(t, name_lc);
    let t = tok_join(t, FOREIGN_FN_10@);
    let t = tok_join(t, clear_name);
    let t = tok_join(t, FOREIGN_FN_11@);
    let t = tok_join(t, static_name);
    let t = tok_join(t, FOREIGN_FN_12@);
    let t = tok_join(t, name_lc);
    let t = tok_join(t, FOREIGN_FN_13@);
    let t = tok_join(t, pubtok);
    let t = tok_join(t, FOREIGN_FN_14@);
    let t = tok_join(t, abi);
    let t = tok_join(t, FOREIGN_FN_15@);
    let t = tok_join(t, base_name);
    let t = tok_join(t, FOREIGN_FN_16@);
    let t = tok_join(t, args_with_types);
    let t = tok_join(t, FOREIGN_FN_17@);
    let t = tok_join(t, return_statement);
    let t = tok_join(t, FOREIGN_FN_18@);
    let t = tok_join(t, static_name);
    let t = tok_join(t, FOREIGN_FN_19@);
    let t = tok_join(t, name_lc);
    let t = tok_join(t, FOREIGN_FN_20@);
    let t = tok_join(t, some_arg);
    let t = tok_join(t, FOREIGN_FN_21@);
    let t = tok_join(t, retval_statement);
    let t = tok_join(t, FOREIGN_FN_22@);
    t
}

/// Emits the recorder of a foreign function, its accessors and the mocked function.
pub fn foreign_fn_tokens(result: &str, mock_method_body: &str, extern_name: &str, name_lc: &str, name: &str, return_type: &str, setter_name: &str, static_name: &str, clear_name: &str, pubtok: &str, abi: &str, base_name: &str, args_with_types: &str, return_statement: &str, some_arg: &str, retval_statement: &str) -> (res: String)
    ensures
        res@ == foreign_fn_text(result@, mock_method_body@, extern_name@, name_lc@, name@, return_type@, setter_name@, static_name@, clear_name@, pubtok@, abi@, base_name@, args_with_types@, return_statement@, some_arg@, retval_statement@),
{
    proof {
        reveal(foreign_fn_text);
    }
    let mut t = String::new();
    append_tokens(&mut t, result);
    append_tokens(&mut t, mock_method_body);
    append_tokens(&mut t, FOREIGN_FN_0);
    append_tokens(&mut t, extern_name);
    append_tokens(&mut t, FOREIGN_FN_1);
    append_tokens(&mut t, name_lc);
    append_tokens(&mut t, FOREIGN_FN_2);
    append_tokens(&mut t, name);
    append_tokens(&mut t, FOREIGN_FN_3);
    append_tokens(&mut t, return_type);
    append_tokens(&mut t, FOREIGN_FN_4);
    append_tokens(&mut t, name);
    append_tokens(&mut t, FOREIGN_FN_5);
    append_tokens(&mut t, setter_name);
    append_tokens(&mut t, FOREIGN_FN_6);
    append_tokens(&mut t, name);
    append_tokens(&mut t, FOREIGN_FN_7);
    append_tokens(&mut t, return_type);
    append_tokens(&mut t, FOREIGN_FN_8);
    append_tokens(&mut t, static_name);
    append_tokens(&mut t, FOREIGN_FN_9);
    append_tokens(&mut t, name_lc);
    append_tokens(&mut t, FOREIGN_FN_10);
    append_tokens(&mut t, clear_name);
    append_tokens(&mut t, FOREIGN_FN_11);
    append_tokens(&mut t, static_name);
    append_tokens(&mut t, FOREIGN_FN_12);
    append_tokens(&mut t, name_lc);
    append_tokens(&mut t, FOREIGN_FN_13);
    append_tokens(&mut t, pubtok);
    append_tokens(&mut t, FOREIGN_FN_14);
    append_tokens(&mut t, abi);
    append_tokens(&mut t, FOREIGN_FN_15);
    append_tokens(&mut t, base_name);
    append_tokens(&mut t, FOREIGN_FN_16);
    append_tokens(&mut t, args_with_types);
    append_tokens(&mut t, FOREIGN_FN_17);
    append_tokens(&mut t, return_statement);
    append_tokens(&mut t, FOREIGN_FN_18);
    append_tokens(&mut t, static_name);
    append_tokens(&mut t, FOREIGN_FN_19);
    append_tokens(&mut t, name_lc);
    append_tokens(&mut t, FOREIGN_FN_20);
    append_tokens(&mut t, some_arg);
    append_tokens(&mut t, FOREIGN_FN_21);
    append_tokens(&mut t, retval_statement);
    append_tokens(&mut t, FOREIGN_FN_22);
    t
}

pub const EXTERN_INIT_0: &'static str = "{";
pub const EXTERN_INIT_1: &'static str = "}";

/// The token text of the initial value of the recorder slots of an `extern` block.
#[verifier::opaque]
pub open spec fn extern_init_text(extern_name: Seq<char>, extern_mocks_ctor_args: Seq<char>) -> Seq<char> {
    let t = Seq::<char>::empty();
    let t = tok_join(t, extern_name);
    let t = tok_join(t, EXTERN_INIT_0@);
    let t = tok_join(t, extern_mocks_ctor_args);
    let t = tok_join(t, EXTERN_INIT_1@);
    t
}

/// Emits the initial value of the recorder slots of an `extern` block.
pub fn extern_init_tokens(extern_name: &str, extern_mocks_ctor_args: &str) -> (res: String)
    ensures
        res@ == extern_init_text(extern_name@, extern_mocks_ctor_args@),
{
    proof {
        reveal(extern_init_text);
    }
    let mut t = String::new();
    append_tokens(&mut t, extern_name);
    append_tokens(&mut t, EXTERN_INIT_0);
    append_tokens(&mut t, extern_mocks_ctor_args);
    append_tokens(&mut t, EXTERN_INIT_1);
    t
}

pub const EXTERN_RESULT_0: &'static str = "# [ allow ( dead_code ) ] # [ allow ( unused_variables ) ] pub struct";
pub const EXTERN_RESULT_1: &'static str = "{";
pub const EXTERN_RESULT_2: &'static str = "} # [ allow ( dead_code ) ] # [ allow ( unused_variables ) ]";

/// The token text of the recorder slots of an `extern` block and everything generated for its functions.
#[verifier::opaque]
pub open spec fn extern_result_text(extern_name: Seq<char>, extern_mocks_def: Seq<char>, external_static: Seq<char>, result: Seq<char>) -> Seq<char> {
    let t = Seq::<char>::empty();
    let t = tok_join(t, EXTERN_RESULT_0@);
    let t = tok_join(t, extern_name);
    let t = tok_join(t, EXTERN_RESULT_1@);
    let t = tok_join(t, extern_mocks_def);
    let t = tok_join(t, EXTERN_RESULT_2@);
    let t = tok_join(t, external_static);
    let t = tok_join(t, result);
    t
}

/// Emits the recorder slots of an `extern` block and everything generated for its functions.
pub fn extern_result_tokens(extern_name: &str, extern_mocks_def: &str, external_static: &str, result: &str) -> (res: String)
    ensures
        res@ == extern_result_text(extern_name@, extern_mocks_def@, external_static@, result@),
{
    proof {
        reveal(extern_result_text);
    }
    let mut t = String::new();
    append_tokens(&mut t, EXTERN_RESULT_0);
    append_tokens(&mut t, extern_name);
    append_tokens(&mut t, EXTERN_RESULT_1);
    append_tokens(&mut t, extern_mocks_def);
    append_tokens(&mut t, EXTERN_RESULT_2);
    append_tokens(&mut t, external_static);
    append_tokens(&mut t, result);
    t
}

pub const EXPANSION_0: &'static str = "# [ cfg ( test ) ] macro_rules ! mock_generate { ( ) => {";
pub const EXPANSION_1: &'static str = "} } # [ cfg ( not ( test ) ) ] macro_rules ! mock_generate { ( ) => {";
pub const EXPANSION_2: &'static str = "} } mock_generate ! ( ) ;";

/// The token text of the expansion of the attribute: the mock under `cfg(test)`, the item alone otherwise.
#[verifier::opaque]
pub open spec fn expansion_text(stream: Seq<char>, raw_item: Seq<char>) -> Seq<char> {
    let t = Seq::<char>::empty();
    let t = tok_join(t, EXPANSION_0@);
    let t = tok_join(t, stream);
    let t = tok_join(t, EXPANSION_1@);
    let t = tok_join(t, raw_item);
    let t = tok_join(t, EXPANSION_2@);
    t
}

/// Emits the expansion of the attribute: the mock under `cfg(test)`, the item alone otherwise.
pub fn expansion_tokens(stream: &str, raw_item: &str) -> (res: String)
    ensures
        res@ == expansion_text(stream@, raw_item@),
{
    proof {
        reveal(expansion_text);
    }
    let mut t = String::new();
    append_tokens(&mut t, EXPANSION_0);
    append_tokens(&mut t, stream);
    append_tokens(&mut t, EXPANSION_1);
    append_tokens(&mut t, raw_item);
    append_tokens(&mut t, EXPANSION_2);
    t
}

} // verus!
