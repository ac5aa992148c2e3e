//! Mocks of traits: the recorders of each method, the mock struct, and the
//! registry of traits already mocked, through which a mock also implements the
//! supertraits that were mocked before it.
use vstd::prelude::*;
use crate::args::{
    args_text, mut_text, parse_args, parse_return_type, make_return_tokens, mutability_tokens,
    return_tokens_text, return_type_text, ArgsView,
};
use crate::model::{BoundModel, Function, MockError, SegmentModel, TraitBlock};
use crate::templates::{
    derived_impl_text, derived_impl_tokens, disabled_fallback_text, disabled_fallback_tokens,
    fallback_ctor_text, fallback_ctor_tokens, fallback_field_text, fallback_field_tokens,
    fallback_setter_text, fallback_setter_tokens, generate_mock_method_body, method_accessors_text,
    method_accessors_tokens, method_impl_text, method_impl_tokens, mock_method_body_text,
    mut_static_text, mut_static_tokens, object_fallback_text, object_fallback_tokens,
    owned_self_fallback_text, owned_self_fallback_tokens, recorder_ctor_text, recorder_ctor_tokens,
    recorder_field_text, recorder_field_tokens, static_content_text, static_content_tokens,
    static_ctor_entry_text, static_ctor_entry_tokens, static_def_entry_text,
    static_def_entry_tokens, static_impl_text, static_impl_tokens, static_init_text,
    static_init_tokens, static_setup_text, static_setup_tokens, trait_stream_text,
    trait_stream_tokens,
};
use crate::model::bounds_wf;
use crate::registry::{find_last, lemma_find_last, registry_insert, BoundsRegistry};
use crate::tokens::{append_tokens, concat_idents, tok_join};

verus! {

/// The value of a [`TraitBlock`], its texts as character sequences.
pub struct TraitBlockView {
    pub trait_name: Seq<char>,
    pub vis: Seq<char>,
    pub generics: Seq<char>,
    pub where_clause: Seq<char>,
    pub funcs: Seq<Function>,
    pub ty_bounds: Seq<BoundModel>,
    pub is_unsafe: bool,
    pub package_path: Seq<char>,
    pub impls_sized: bool,
}

impl View for TraitBlock {
    type V = TraitBlockView;

    open spec fn view(&self) -> TraitBlockView {
        TraitBlockView {
            trait_name: self.trait_name@,
            vis: self.vis@,
            generics: self.generics@,
            where_clause: self.where_clause@,
            funcs: self.funcs@,
            ty_bounds: self.ty_bounds@,
            is_unsafe: self.is_unsafe,
            package_path: self.package_path@,
            impls_sized: self.impls_sized,
        }
    }
}

/// The token text of an unsafety: `unsafe` or nothing.
pub open spec fn unsafety_text(is_unsafe: bool) -> Seq<char> {
    if is_unsafe {
        "unsafe"@
    } else {
        Seq::empty()
    }
}

/// Emits the token text of an unsafety.
pub fn unsafety_tokens(is_unsafe: bool) -> (res: String)
    ensures
        res@ == unsafety_text(is_unsafe),
{
    if is_unsafe {
        String::from_str("unsafe")
    } else {
        String::new()
    }
}

/// The name of the function that hands out the static slots of a trait.
pub open spec fn static_name_text(base: Seq<char>) -> Seq<char> {
    "Static_"@ + base
}

/// Names the function that hands out the static slots of a trait.
pub fn generate_static_name(base: &str) -> (res: String)
    ensures
        res@ == static_name_text(base@),
{
    concat_idents("Static_", base)
}

/// The names of the mock struct and of the recorder type of a trait, each
/// behind the path under which the trait was found.
pub open spec fn mock_names_text(package_path: Seq<char>, trait_name: Seq<char>) -> (
    Seq<char>,
    Seq<char>,
) {
    (
        tok_join(package_path, "Mock"@) + trait_name,
        tok_join(package_path, "MockMethodFor"@) + trait_name,
    )
}

/// Names the mock struct and the recorder type of a trait.
pub fn generate_mock_method_name(trait_block: &TraitBlock) -> (res: (String, String))
    ensures
        (res.0@, res.1@) == mock_names_text(trait_block.package_path@, trait_block.trait_name@),
{
    let mut mock_prefix = String::from_str(trait_block.package_path.as_str());
    append_tokens(&mut mock_prefix, "Mock");
    let mut method_prefix = String::from_str(trait_block.package_path.as_str());
    append_tokens(&mut method_prefix, "MockMethodFor");
    let struct_name = concat_idents(mock_prefix.as_str(), trait_block.trait_name.as_str());
    let mock_method_name = concat_idents(method_prefix.as_str(), trait_block.trait_name.as_str());
    (struct_name, mock_method_name)
}

/// The token text of a lazily created singleton of type `ty`, handed out by the
/// function `ident`.
pub open spec fn mut_static_full_text(ident: Seq<char>, ty: Seq<char>, init_body: Seq<char>) -> Seq<
    char,
> {
    mut_static_text("__SingletonReader_"@ + ident, ty, ident, "__SINGLETON_"@ + ident, init_body)
}

/// Emits a lazily created singleton of type `ty`, handed out by the function
/// `ident` and initialised by `init_body`.
pub fn make_mut_static(ident: &str, ty: &str, init_body: &str) -> (res: String)
    ensures
        res@ == mut_static_full_text(ident@, ty@, init_body@),
{
    let reader_name = concat_idents("__SingletonReader_", ident);
    let singleton_name = concat_idents("__SINGLETON_", ident);
    mut_static_tokens(reader_name.as_str(), ty, ident, singleton_name.as_str(), init_body)
}

/// What the generator emits for the methods of a trait.
pub struct TraitFns {
    pub mock_impl_methods: String,
    pub fields: String,
    pub ctor: String,
    pub method_impls: String,
    pub static_method_setup: String,
    pub static_method_impl: String,
    pub static_method_body: String,
    pub static_mocks_ctor: String,
    pub static_mocks_def: String,
}

/// The value of a [`TraitFns`].
pub struct TraitFnsView {
    pub mock_impl_methods: Seq<char>,
    pub fields: Seq<char>,
    pub ctor: Seq<char>,
    pub method_impls: Seq<char>,
    pub static_method_setup: Seq<char>,
    pub static_method_impl: Seq<char>,
    pub static_method_body: Seq<char>,
    pub static_mocks_ctor: Seq<char>,
    pub static_mocks_def: Seq<char>,
}

impl View for TraitFns {
    type V = TraitFnsView;

    open spec fn view(&self) -> TraitFnsView {
        TraitFnsView {
            mock_impl_methods: self.mock_impl_methods@,
            fields: self.fields@,
            ctor: self.ctor@,
            method_impls: self.method_impls@,
            static_method_setup: self.static_method_setup@,
            static_method_impl: self.static_method_impl@,
            static_method_body: self.static_method_body@,
            static_mocks_ctor: self.static_mocks_ctor@,
            static_mocks_def: self.static_mocks_def@,
        }
    }
}

/// Nothing emitted yet.
pub open spec fn fns_empty() -> TraitFnsView {
    TraitFnsView {
        mock_impl_methods: Seq::empty(),
        fields: Seq::empty(),
        ctor: Seq::empty(),
        method_impls: Seq::empty(),
        static_method_setup: Seq::empty(),
        static_method_impl: Seq::empty(),
        static_method_body: Seq::empty(),
        static_mocks_ctor: Seq::empty(),
        static_mocks_def: Seq::empty(),
    }
}

/// The state of the generator between two methods: what it emitted, and whether
/// the mock may still fall back on an object of the trait.
pub struct FnsState {
    pub text: TraitFnsView,
    pub allow_fallback: bool,
}

/// How a fallback borrows the fallback object: `.as_mut()` or `.as_ref()`.
pub open spec fn get_ref_text(mutable: bool) -> Seq<char> {
    if mutable {
        ". as_mut ( )"@
    } else {
        ". as_ref ( )"@
    }
}

/// What a mocked method does when no result was set for the call.
pub open spec fn fallback_text(a: ArgsView, allow_fallback: bool, name: Seq<char>) -> Seq<char> {
    if a.owns_self {
        owned_self_fallback_text()
    } else if allow_fallback {
        object_fallback_text(mut_text(a.mutable), get_ref_text(a.mutable), name, a.names)
    } else {
        disabled_fallback_text()
    }
}

/// Whether a method's return type is written `Self`.
pub open spec fn returns_self(f: Function) -> bool {
    return_type_text(f.decl.output).1 == "Self"@
}

/// The state after the method `f` of the trait `trait_name`, whose recorder type
/// is `mmn` and whose static slots are handed out by `static_name`.
pub open spec fn fn_step(
    st: FnsState,
    f: Function,
    trait_name: Seq<char>,
    mmn: Seq<char>,
    static_name: Seq<char>,
) -> FnsState {
    let name = f.name@;
    let ident = "method_"@ + name;
    let setter = "set_"@ + name;
    let a = args_text(f.decl.inputs@);
    let rt = return_type_text(f.decl.output);
    let unsafety = unsafety_text(f.is_unsafe);
    let r = return_tokens_text(rt.0, rt.1);
    let t = st.text;
    if !a.instance {
        let name2 = trait_name + "_Method_"@ + name;
        let clear = "clear_"@ + name;
        FnsState {
            text: TraitFnsView {
                static_mocks_ctor: tok_join(t.static_mocks_ctor, static_ctor_entry_text(ident)),
                static_mocks_def: tok_join(t.static_mocks_def, static_def_entry_text(ident, name2, rt.1)),
                static_method_body: tok_join(
                    t.static_method_body,
                    mock_method_body_text("pub"@, name2),
                ),
                static_method_setup: tok_join(
                    t.static_method_setup,
                    static_setup_text(ident, name2, rt.1, setter, static_name, clear),
                ),
                static_method_impl: tok_join(
                    t.static_method_impl,
                    static_impl_text(unsafety, name, a.with_types, r.0, static_name, ident, r.2, r.1),
                ),
                ..t
            },
            allow_fallback: false,
        }
    } else {
        let fallback = fallback_text(a, st.allow_fallback, name);
        FnsState {
            text: TraitFnsView {
                mock_impl_methods: tok_join(
                    t.mock_impl_methods,
                    method_accessors_text(ident, mmn, rt.1, setter, name),
                ),
                fields: tok_join(t.fields, recorder_field_text(name, mmn, rt.1)),
                ctor: tok_join(t.ctor, recorder_ctor_text(name)),
                method_impls: tok_join(
                    t.method_impls,
                    method_impl_text(unsafety, name, a.with_types, r.0, r.2, r.1, fallback),
                ),
                ..t
            },
            ..st
        }
    }
}

/// The state after the methods `funcs`, or the refusal of the first method that
/// returns `Self`.
pub open spec fn fns_fold(
    funcs: Seq<Function>,
    trait_name: Seq<char>,
    mmn: Seq<char>,
    static_name: Seq<char>,
    allow0: bool,
) -> Result<FnsState, MockError>
    decreases funcs.len(),
{
    if funcs.len() == 0 {
        Ok(FnsState { text: fns_empty(), allow_fallback: allow0 })
    } else {
        match fns_fold(funcs.drop_last(), trait_name, mmn, static_name, allow0) {
            Err(e) => Err(e),
            Ok(st) => if returns_self(funcs.last()) {
                Err(MockError::SelfReturnType)
            } else {
                Ok(fn_step(st, funcs.last(), trait_name, mmn, static_name))
            },
        }
    }
}

/// Adds the fallback object to what was emitted, when the trait may fall back.
pub open spec fn fns_finish(st: FnsState, trait_name: Seq<char>, generics: Seq<char>) -> TraitFnsView {
    if st.allow_fallback {
        TraitFnsView {
            fields: tok_join(st.text.fields, fallback_field_text(trait_name, generics)),
            ctor: tok_join(st.text.ctor, fallback_ctor_text()),
            mock_impl_methods: tok_join(
                st.text.mock_impl_methods,
                fallback_setter_text(trait_name, generics),
            ),
            ..st.text
        }
    } else {
        st.text
    }
}

/// What the generator emits for the methods of the trait `b`.
pub open spec fn trait_fns_text(b: TraitBlockView, allow_object_fallback: bool) -> Result<
    TraitFnsView,
    MockError,
> {
    let mmn = mock_names_text(b.package_path, b.trait_name).1;
    match fns_fold(b.funcs, b.trait_name, mmn, static_name_text(b.trait_name), allow_object_fallback) {
        Err(e) => Err(e),
        Ok(st) => Ok(fns_finish(st, b.trait_name, b.generics)),
    }
}

/// The value of a result of [`generate_trait_fns`].
pub open spec fn fns_result_view(r: Result<TraitFns, MockError>) -> Result<TraitFnsView, MockError> {
    match r {
        Ok(f) => Ok(f@),
        Err(e) => Err(e),
    }
}

/// Once the methods so far are refused, so are all methods.
pub proof fn lemma_fns_fold_err(
    funcs: Seq<Function>,
    k: int,
    trait_name: Seq<char>,
    mmn: Seq<char>,
    static_name: Seq<char>,
    allow0: bool,
)
    requires
        0 <= k <= funcs.len(),
        fns_fold(funcs.take(k), trait_name, mmn, static_name, allow0) is Err,
    ensures
        fns_fold(funcs, trait_name, mmn, static_name, allow0) == fns_fold(
            funcs.take(k),
            trait_name,
            mmn,
            static_name,
            allow0,
        ),
    decreases funcs.len() - k,
{
    if k < funcs.len() {
        assert(funcs.take(k + 1).drop_last() =~= funcs.take(k));
        lemma_fns_fold_err(funcs, k + 1, trait_name, mmn, static_name, allow0);
    } else {
        assert(funcs.take(k) =~= funcs);
    }
}

/// Emits, for one method, what the state after it adds to `out`.
fn emit_method(
    out: &mut TraitFns,
    allow_fallback: &mut bool,
    f: &Function,
    trait_name: &str,
    mock_method_name: &str,
    static_name: &str,
)
    requires
        !returns_self(*f),
    ensures
        (FnsState { text: final(out)@, allow_fallback: *final(allow_fallback) }) == fn_step(
            FnsState { text: old(out)@, allow_fallback: *old(allow_fallback) },
            *f,
            trait_name@,
            mock_method_name@,
            static_name@,
        ),
{
    let fn_args = parse_args(&f.decl.inputs);
    let (no_return, return_type) = parse_return_type(&f.decl.output);
    let unsafety = unsafety_tokens(f.is_unsafe);
    let ident = concat_idents("method_", f.name.as_str());
    let setter = concat_idents("set_", f.name.as_str());
    let (return_statement, retval_statement, some_arg) = make_return_tokens(
        no_return,
        return_type.as_str(),
    );
    if !fn_args.is_instance_method {
        *allow_fallback = false;
        let mut name = String::from_str(trait_name);
        name.append("_Method_");
        name.append(f.name.as_str());
        let clear_name = concat_idents("clear_", f.name.as_str());
        let e = static_ctor_entry_tokens(ident.as_str());
        append_tokens(&mut out.static_mocks_ctor, e.as_str());
        let e = static_def_entry_tokens(ident.as_str(), name.as_str(), return_type.as_str());
        append_tokens(&mut out.static_mocks_def, e.as_str());
        let e = generate_mock_method_body("pub", name.as_str());
        append_tokens(&mut out.static_method_body, e.as_str());
        let e = static_setup_tokens(
            ident.as_str(),
            name.as_str(),
            return_type.as_str(),
            setter.as_str(),
            static_name,
            clear_name.as_str(),
        );
        append_tokens(&mut out.static_method_setup, e.as_str());
        let e = static_impl_tokens(
            unsafety.as_str(),
            f.name.as_str(),
            fn_args.args_with_types.as_str(),
            return_statement.as_str(),
            static_name,
            ident.as_str(),
            some_arg.as_str(),
            retval_statement.as_str(),
        );
        append_tokens(&mut out.static_method_impl, e.as_str());
    } else {
        let e = method_accessors_tokens(
            ident.as_str(),
            mock_method_name,
            return_type.as_str(),
            setter.as_str(),
            f.name.as_str(),
        );
        append_tokens(&mut out.mock_impl_methods, e.as_str());
        let e = recorder_field_tokens(f.name.as_str(), mock_method_name, return_type.as_str());
        append_tokens(&mut out.fields, e.as_str());
        let e = recorder_ctor_tokens(f.name.as_str());
        append_tokens(&mut out.ctor, e.as_str());
        let fallback = if fn_args.takes_self_ownership {
            owned_self_fallback_tokens()
        } else if *allow_fallback {
            let mut_token = mutability_tokens(fn_args.mutable_status);
            let get_ref = if fn_args.mutable_status {
                String::from_str(". as_mut ( )")
            } else {
                String::from_str(". as_ref ( )")
            };
            object_fallback_tokens(
                mut_token.as_str(),
                get_ref.as_str(),
                f.name.as_str(),
                fn_args.args_with_no_self_no_types.as_str(),
            )
        } else {
            disabled_fallback_tokens()
        };
        let e = method_impl_tokens(
            unsafety.as_str(),
            f.name.as_str(),
            fn_args.args_with_types.as_str(),
            return_statement.as_str(),
            some_arg.as_str(),
            retval_statement.as_str(),
            fallback.as_str(),
        );
        append_tokens(&mut out.method_impls, e.as_str());
    }
}

/// Emits the recorders, accessors and mocked methods of the methods of a trait.
/// A static method takes away the fallback object of the mock; a method that
/// returns `Self` is refused.
pub fn generate_trait_fns(trait_block: &TraitBlock, allow_object_fallback: bool) -> (res: Result<
    TraitFns,
    MockError,
>)
    ensures
        fns_result_view(res) == trait_fns_text(trait_block@, allow_object_fallback),
{
    let trait_name = trait_block.trait_name.as_str();
    let (_, mock_method_name) = generate_mock_method_name(trait_block);
    let static_name = generate_static_name(trait_name);
    let ghost funcs = trait_block.funcs@;
    let ghost tn = trait_block.trait_name@;
    let mut out = TraitFns {
        mock_impl_methods: String::new(),
        fields: String::new(),
        ctor: String::new(),
        method_impls: String::new(),
        static_method_setup: String::new(),
        static_method_impl: String::new(),
        static_method_body: String::new(),
        static_mocks_ctor: String::new(),
        static_mocks_def: String::new(),
    };
    let mut allow_fallback = allow_object_fallback;
    let self_text = String::from_str("Self");
    let mut i: usize = 0;
    assert(funcs.take(0) =~= Seq::<Function>::empty());
    while i < trait_block.funcs.len()
        invariant
            funcs == trait_block.funcs@,
            tn == trait_block.trait_name@,
            trait_name@ == tn,
            self_text@ == "Self"@,
            mock_method_name@ == mock_names_text(trait_block.package_path@, tn).1,
            static_name@ == static_name_text(tn),
            i <= funcs.len(),
            fns_fold(funcs.take(i as int), tn, mock_method_name@, static_name@, allow_object_fallback)
                == Ok::<FnsState, MockError>(
                FnsState { text: out@, allow_fallback },
            ),
        decreases funcs.len() - i,
    {
        let f = &trait_block.funcs[i];
        assert(funcs.take(i + 1).drop_last() =~= funcs.take(i as int));
        assert(funcs.take(i + 1).last() == funcs[i as int]);
        let (_, return_type) = parse_return_type(&f.decl.output);
        if return_type == self_text {
            proof {
                lemma_fns_fold_err(
                    funcs,
                    i + 1,
                    tn,
                    mock_method_name@,
                    static_name@,
                    allow_object_fallback,
                );
            }
            return Err(MockError::SelfReturnType);
        }
        emit_method(
            &mut out,
            &mut allow_fallback,
            f,
            trait_name,
            mock_method_name.as_str(),
            static_name.as_str(),
        );
        i = i + 1;
    }
    assert(funcs.take(i as int) =~= funcs);
    if allow_fallback {
        let e = fallback_field_tokens(trait_name, trait_block.generics.as_str());
        append_tokens(&mut out.fields, e.as_str());
        let e = fallback_ctor_tokens();
        append_tokens(&mut out.ctor, e.as_str());
        let e = fallback_setter_tokens(trait_name, trait_block.generics.as_str());
        append_tokens(&mut out.mock_impl_methods, e.as_str());
    }
    Ok(out)
}

/// The token text of a path made of the segments `segs`, `::` in front when
/// `global`.
pub open spec fn path_text(global: bool, segs: Seq<SegmentModel>) -> Seq<char>
    decreases segs.len(),
{
    if segs.len() == 0 {
        Seq::empty()
    } else {
        let p = path_text(global, segs.drop_last());
        let p = if segs.len() > 1 || global {
            tok_join(p, "::"@)
        } else {
            p
        };
        tok_join(p, segs.last().text@)
    }
}

/// Emits the path made of the first `n` segments of `segs`.
pub fn path_tokens(global: bool, segs: &Vec<SegmentModel>, n: usize) -> (res: String)
    requires
        n <= segs@.len(),
    ensures
        res@ == path_text(global, segs@.take(n as int)),
{
    let mut t = String::new();
    let mut i: usize = 0;
    assert(segs@.take(0) =~= Seq::<SegmentModel>::empty());
    while i < n
        invariant
            n <= segs@.len(),
            i <= n,
            t@ == path_text(global, segs@.take(i as int)),
        decreases n - i,
    {
        assert(segs@.take(i + 1).drop_last() =~= segs@.take(i as int));
        if i > 0 || global {
            append_tokens(&mut t, "::");
        }
        append_tokens(&mut t, segs[i].text.as_str());
        i = i + 1;
    }
    t
}

/// What the supertraits of a trait add to its mock.
pub struct BoundTexts {
    pub mock_impl_methods: Seq<char>,
    pub fields: Seq<char>,
    pub ctor: Seq<char>,
    pub derived_additions: Seq<char>,
}

/// The registry and texts after the supertrait bound `bound` of the trait whose
/// mock struct is `impl_name`. A bound names a registered trait by the last
/// segment of its path; that trait's entry takes the rest of the path as the path
/// under which it was found, and its instance methods are added to the mock.
pub open spec fn bound_step(
    reg: Seq<TraitBlockView>,
    st: BoundTexts,
    bound: BoundModel,
    impl_name: Seq<char>,
    generics: Seq<char>,
    where_clause: Seq<char>,
) -> (Seq<TraitBlockView>, Result<BoundTexts, MockError>) {
    match bound {
        BoundModel::Region => (reg, Ok(st)),
        BoundModel::Trait(path) => {
            let segs = path.segments@;
            let i = find_last(reg, segs.last().ident@);
            if i < 0 {
                (reg, Ok(st))
            } else {
                let entry = if segs.len() > 1 {
                    TraitBlockView {
                        package_path: tok_join(path_text(path.global, segs.drop_last()), "::"@),
                        ..reg[i]
                    }
                } else {
                    reg[i]
                };
                let reg2 = reg.update(i, entry);
                match trait_fns_text(entry, false) {
                    Err(e) => (reg2, Err(e)),
                    Ok(base) => (
                        reg2,
                        Ok(
                            BoundTexts {
                                mock_impl_methods: tok_join(
                                    st.mock_impl_methods,
                                    base.mock_impl_methods,
                                ),
                                fields: tok_join(st.fields, base.fields),
                                ctor: tok_join(st.ctor, base.ctor),
                                derived_additions: tok_join(
                                    st.derived_additions,
                                    derived_impl_text(
                                        entry.generics,
                                        path_text(path.global, segs),
                                        impl_name,
                                        generics,
                                        where_clause,
                                        base.method_impls,
                                    ),
                                ),
                            },
                        ),
                    ),
                }
            }
        },
    }
}

/// The registry and texts after the bounds `bounds`, or the refusal met on the way.
pub open spec fn bounds_fold(
    bounds: Seq<BoundModel>,
    init: BoundTexts,
    reg: Seq<TraitBlockView>,
    impl_name: Seq<char>,
    generics: Seq<char>,
    where_clause: Seq<char>,
) -> (Seq<TraitBlockView>, Result<BoundTexts, MockError>)
    decreases bounds.len(),
{
    if bounds.len() == 0 {
        (reg, Ok(init))
    } else {
        let (r, res) = bounds_fold(bounds.drop_last(), init, reg, impl_name, generics, where_clause);
        match res {
            Err(e) => (r, Err(e)),
            Ok(st) => bound_step(r, st, bounds.last(), impl_name, generics, where_clause),
        }
    }
}

/// Once a bound is refused, the bounds after it change nothing.
pub proof fn lemma_bounds_fold_err(
    bounds: Seq<BoundModel>,
    k: int,
    init: BoundTexts,
    reg: Seq<TraitBlockView>,
    impl_name: Seq<char>,
    generics: Seq<char>,
    where_clause: Seq<char>,
)
    requires
        0 <= k <= bounds.len(),
        bounds_fold(bounds.take(k), init, reg, impl_name, generics, where_clause).1 is Err,
    ensures
        bounds_fold(bounds, init, reg, impl_name, generics, where_clause) == bounds_fold(
            bounds.take(k),
            init,
            reg,
            impl_name,
            generics,
            where_clause,
        ),
    decreases bounds.len() - k,
{
    if k < bounds.len() {
        assert(bounds.take(k + 1).drop_last() =~= bounds.take(k));
        lemma_bounds_fold_err(bounds, k + 1, init, reg, impl_name, generics, where_clause);
    } else {
        assert(bounds.take(k) =~= bounds);
    }
}

/// The static slots of a trait, when it has static methods, and nothing otherwise.
pub open spec fn static_content_of(trait_name: Seq<char>, f: TraitFnsView) -> Seq<char> {
    let static_struct_name = "STATIC__"@ + trait_name;
    if f.static_mocks_def.len() > 0 {
        static_content_text(
            static_struct_name,
            f.static_mocks_def,
            mut_static_full_text(
                static_name_text(trait_name),
                static_struct_name,
                static_init_text(static_struct_name, f.static_mocks_ctor),
            ),
            f.static_method_body,
        )
    } else {
        Seq::empty()
    }
}

/// The registry after mocking the trait `b`, whose own token text is `raw`, and
/// the token text of the trait and its mock, or why there is none.
pub open spec fn trait_expansion(b: TraitBlockView, raw: Seq<char>, reg: Seq<TraitBlockView>) -> (
    Seq<TraitBlockView>,
    Result<Seq<char>, MockError>,
) {
    let (impl_name, mmn) = mock_names_text(b.package_path, b.trait_name);
    match trait_fns_text(b, !b.impls_sized) {
        Err(e) => (reg, Err(e)),
        Ok(f) => {
            let init = BoundTexts {
                mock_impl_methods: f.mock_impl_methods,
                fields: f.fields,
                ctor: f.ctor,
                derived_additions: Seq::empty(),
            };
            let (reg2, res) = bounds_fold(b.ty_bounds, init, reg, impl_name, b.generics, b.where_clause);
            match res {
                Err(e) => (reg2, Err(e)),
                Ok(bt) => (
                    registry_insert(reg2, b),
                    Ok(
                        trait_stream_text(
                            raw,
                            static_content_of(b.trait_name, f),
                            b.vis,
                            impl_name,
                            b.generics,
                            b.where_clause,
                            bt.fields,
                            bt.mock_impl_methods,
                            f.static_method_setup,
                            bt.ctor,
                            mock_method_body_text(b.vis, mmn),
                            unsafety_text(b.is_unsafe),
                            b.trait_name,
                            f.method_impls,
                            f.static_method_impl,
                            bt.derived_additions,
                        ),
                    ),
                ),
            }
        },
    }
}

/// The value of a result that holds token text.
pub open spec fn text_result_view(r: Result<String, MockError>) -> Result<Seq<char>, MockError> {
    match r {
        Ok(s) => Ok(s@),
        Err(e) => Err(e),
    }
}

/// Emits the mock of a trait after the trait itself (`raw_trait`), and registers
/// the trait so that later mocks of its subtraits implement it too.
pub fn parse_trait(trait_block: TraitBlock, raw_trait: &str, registry: &mut BoundsRegistry) -> (res:
    Result<String, MockError>)
    requires
        bounds_wf(trait_block.ty_bounds@),
    ensures
        (final(registry)@, text_result_view(res)) == trait_expansion(
            trait_block@,
            raw_trait@,
            old(registry)@,
        ),
{
    let (impl_name, mock_method_name) = generate_mock_method_name(&trait_block);
    let fns = match generate_trait_fns(&trait_block, !trait_block.impls_sized) {
        Ok(f) => f,
        Err(e) => {
            return Err(e);
        },
    };
    let ghost f = fns@;
    let TraitFns {
        mock_impl_methods: mut mock_impl_methods,
        fields: mut fields,
        ctor: mut ctor,
        method_impls,
        static_method_setup,
        static_method_impl,
        static_method_body,
        static_mocks_ctor,
        static_mocks_def,
    } = fns;
    let mock_method_body = generate_mock_method_body(
        trait_block.vis.as_str(),
        mock_method_name.as_str(),
    );
    let mut derived_additions = String::new();
    let ghost bounds = trait_block.ty_bounds@;
    let ghost init = BoundTexts {
        mock_impl_methods: f.mock_impl_methods,
        fields: f.fields,
        ctor: f.ctor,
        derived_additions: Seq::empty(),
    };
    let ghost reg0 = registry@;
    let ghost tb = trait_block@;
    let mut i: usize = 0;
    assert(bounds.take(0) =~= Seq::<BoundModel>::empty());
    while i < trait_block.ty_bounds.len()
        invariant
            bounds == trait_block.ty_bounds@,
            tb == trait_block@,
            reg0 == old(registry)@,
            trait_fns_text(tb, !tb.impls_sized) == Ok::<TraitFnsView, MockError>(f),
            init == (BoundTexts {
                mock_impl_methods: f.mock_impl_methods,
                fields: f.fields,
                ctor: f.ctor,
                derived_additions: Seq::empty(),
            }),
            bounds_wf(bounds),
            impl_name@ == mock_names_text(tb.package_path, tb.trait_name).0,
            i <= bounds.len(),
            bounds_fold(bounds.take(i as int), init, reg0, impl_name@, tb.generics, tb.where_clause)
                == (registry@, Ok::<BoundTexts, MockError>(
                BoundTexts {
                    mock_impl_methods: mock_impl_methods@,
                    fields: fields@,
                    ctor: ctor@,
                    derived_additions: derived_additions@,
                },
            )),
        decreases bounds.len() - i,
    {
        assert(bounds.take(i + 1).drop_last() =~= bounds.take(i as int));
        assert(bounds.take(i + 1).last() == bounds[i as int]);
        match &trait_block.ty_bounds[i] {
            BoundModel::Region => {},
            BoundModel::Trait(path) => {
                assert(bounds[i as int] matches BoundModel::Trait(p) ==> crate::model::path_wf(p));
                let n = path.segments.len();
                let key = path.segments[n - 1].ident.clone();
                proof {
                    lemma_find_last(registry@, key@);
                }
                match registry.find(&key) {
                    None => {},
                    Some(j) => {
                        if n > 1 {
                            let mut pp = path_tokens(path.global, &path.segments, n - 1);
                            append_tokens(&mut pp, "::");
                            assert(path.segments@.take(n - 1) =~= path.segments@.drop_last());
                            registry.set_package_path(j, pp);
                        } else {
                            assert(registry@.update(j as int, registry@[j as int]) =~= registry@);
                        }
                        let base = match generate_trait_fns(registry.get(j), false) {
                            Ok(b) => b,
                            Err(e) => {
                                proof {
                                    lemma_bounds_fold_err(
                                        bounds,
                                        i + 1,
                                        init,
                                        reg0,
                                        impl_name@,
                                        tb.generics,
                                        tb.where_clause,
                                    );
                                }
                                return Err(e);
                            },
                        };
                        append_tokens(&mut mock_impl_methods, base.mock_impl_methods.as_str());
                        append_tokens(&mut fields, base.fields.as_str());
                        append_tokens(&mut ctor, base.ctor.as_str());
                        let trait_ref = path_tokens(path.global, &path.segments, n);
                        assert(path.segments@.take(n as int) =~= path.segments@);
                        let d = derived_impl_tokens(
                            registry.get(j).generics.as_str(),
                            trait_ref.as_str(),
                            impl_name.as_str(),
                            trait_block.generics.as_str(),
                            trait_block.where_clause.as_str(),
                            base.method_impls.as_str(),
                        );
                        append_tokens(&mut derived_additions, d.as_str());
                    },
                }
            },
        }
        i = i + 1;
    }
    assert(bounds.take(i as int) =~= bounds);
    let static_struct_name = concat_idents("STATIC__", trait_block.trait_name.as_str());
    let static_content = if !static_mocks_def.as_str().is_empty() {
        let static_name = generate_static_name(trait_block.trait_name.as_str());
        let init_body = static_init_tokens(static_struct_name.as_str(), static_mocks_ctor.as_str());
        let mut_static = make_mut_static(
            static_name.as_str(),
            static_struct_name.as_str(),
            init_body.as_str(),
        );
        static_content_tokens(
            static_struct_name.as_str(),
            static_mocks_def.as_str(),
            mut_static.as_str(),
            static_method_body.as_str(),
        )
    } else {
        String::new()
    };
    let unsafety = unsafety_tokens(trait_block.is_unsafe);
    let stream = trait_stream_tokens(
        raw_trait,
        static_content.as_str(),
        trait_block.vis.as_str(),
        impl_name.as_str(),
        trait_block.generics.as_str(),
        trait_block.where_clause.as_str(),
        fields.as_str(),
        mock_impl_methods.as_str(),
        static_method_setup.as_str(),
        ctor.as_str(),
        mock_method_body.as_str(),
        unsafety.as_str(),
        trait_block.trait_name.as_str(),
        method_impls.as_str(),
        static_method_impl.as_str(),
        derived_additions.as_str(),
    );
    registry.insert(trait_block);
    Ok(stream)
}

} // verus!
