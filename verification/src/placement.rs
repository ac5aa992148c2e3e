//! Where each part of the emitted text stands: which arm of the expansion holds
//! the mock, which block of the mock holds which methods, and how the text for
//! an `extern` block grows with its functions.
use vstd::prelude::*;
use crate::args::{args_text, return_tokens_text, return_type_text};
use crate::expand::{block_view, bounds_sized, expansion};
use crate::foreign::{abi_text, extern_name_text, foreign_expansion, foreign_fold};
use crate::laws::law_tok_join_empty;
use crate::model::{
    ForeignItemKindModel, ForeignItemModel, ForeignModModel, Function, ItemKindModel, ItemModel,
    MockError,
};
use crate::tokens::tok_join;
use crate::traits::{
    bounds_fold, fallback_text, fn_step, fns_fold, mock_names_text, static_content_of,
    static_name_text, trait_expansion, trait_fns_text, unsafety_text, BoundTexts, TraitBlockView,
};
use crate::templates::{
    expansion_text, extern_result_text, foreign_fn_text, method_impl_text, mock_method_body_text,
    static_impl_text, trait_stream_text, EXPANSION_0, FOREIGN_FN_0, FOREIGN_FN_1, FOREIGN_FN_2,
    FOREIGN_FN_3, FOREIGN_FN_4, FOREIGN_FN_5, FOREIGN_FN_6, FOREIGN_FN_7, FOREIGN_FN_8,
    FOREIGN_FN_9, FOREIGN_FN_10, FOREIGN_FN_11, FOREIGN_FN_12, FOREIGN_FN_13, FOREIGN_FN_14,
    FOREIGN_FN_15, FOREIGN_FN_16, FOREIGN_FN_17, FOREIGN_FN_18, FOREIGN_FN_19, FOREIGN_FN_20,
    FOREIGN_FN_21, FOREIGN_FN_22, METHOD_IMPL_0, METHOD_IMPL_1, METHOD_IMPL_2, METHOD_IMPL_3,
    METHOD_IMPL_4, METHOD_IMPL_5, METHOD_IMPL_6, METHOD_IMPL_7, METHOD_IMPL_8, STATIC_IMPL_0,
    STATIC_IMPL_1, STATIC_IMPL_2, STATIC_IMPL_3, STATIC_IMPL_4, STATIC_IMPL_5, STATIC_IMPL_6,
    STATIC_IMPL_7, TRAIT_STREAM_0, TRAIT_STREAM_1, TRAIT_STREAM_2, TRAIT_STREAM_3, TRAIT_STREAM_4,
    TRAIT_STREAM_5, TRAIT_STREAM_6, TRAIT_STREAM_7, TRAIT_STREAM_8, TRAIT_STREAM_9, TRAIT_STREAM_10,
    TRAIT_STREAM_11, TRAIT_STREAM_12,
};

verus! {

/// Whether `t` occurs in `s` as one contiguous piece.
pub open spec fn has_infix(s: Seq<char>, t: Seq<char>) -> bool {
    exists|a: Seq<char>, b: Seq<char>| #[trigger] (a + t + b) == s
}

/// Joining token streams is associative.
pub proof fn law_tok_join_assoc(a: Seq<char>, b: Seq<char>, c: Seq<char>)
    ensures
        tok_join(tok_join(a, b), c) == tok_join(a, tok_join(b, c)),
{
    if a.len() == 0 {
        assert(tok_join(a, b) =~= b);
        assert(tok_join(a, tok_join(b, c)) =~= tok_join(b, c));
    } else if b.len() == 0 {
        assert(tok_join(a, b) =~= a);
        assert(tok_join(b, c) =~= c);
    } else if c.len() == 0 {
        assert(tok_join(tok_join(a, b), c) =~= tok_join(a, b));
        assert(tok_join(b, c) =~= b);
    } else {
        assert(tok_join(tok_join(a, b), c) =~= tok_join(a, tok_join(b, c)));
    }
}

/// A stream is a piece of itself.
proof fn lemma_infix_self(t: Seq<char>)
    ensures
        has_infix(t, t),
{
    let e = Seq::<char>::empty();
    assert(e + t + e =~= t);
}

/// What occurs in a stream still occurs once more tokens follow it.
proof fn lemma_infix_left(a: Seq<char>, b: Seq<char>, t: Seq<char>)
    requires
        has_infix(a, t),
    ensures
        has_infix(tok_join(a, b), t),
{
    let (x, y) = choose|x: Seq<char>, y: Seq<char>| #[trigger] (x + t + y) == a;
    let w = tok_join(a, b).skip(a.len() as int);
    assert(tok_join(a, b) =~= a + w);
    assert(x + t + (y + w) =~= tok_join(a, b));
}

/// What occurs in a stream still occurs once tokens precede it.
proof fn lemma_infix_right(a: Seq<char>, b: Seq<char>, t: Seq<char>)
    requires
        has_infix(b, t),
    ensures
        has_infix(tok_join(a, b), t),
{
    let (x, y) = choose|x: Seq<char>, y: Seq<char>| #[trigger] (x + t + y) == b;
    let n = tok_join(a, b).len() - b.len();
    let v = tok_join(a, b).take(n);
    assert(tok_join(a, b) =~= v + b);
    assert((v + x) + t + y =~= tok_join(a, b));
}

/// Two non-empty streams joined one after the other occur, with the space
/// between them, in every stream that ends with them.
proof fn lemma_infix_pair(x: Seq<char>, a: Seq<char>, b: Seq<char>)
    requires
        a.len() > 0,
        b.len() > 0,
    ensures
        has_infix(tok_join(tok_join(x, a), b), a + seq![' '] + b),
{
    let n = tok_join(x, a).len() - a.len();
    let v = tok_join(x, a).take(n);
    assert(tok_join(x, a) =~= v + a);
    assert(v + (a + seq![' '] + b) + Seq::<char>::empty() =~= tok_join(tok_join(x, a), b));
}

/// What a stream begins with, it still begins with once more tokens follow it.
proof fn lemma_prefix_left(p: Seq<char>, a: Seq<char>, b: Seq<char>)
    requires
        p.is_prefix_of(a),
    ensures
        p.is_prefix_of(tok_join(a, b)),
{
    assert(tok_join(a, b).subrange(0, a.len() as int) =~= a);
    assert(tok_join(a, b).subrange(0, p.len() as int) =~= a.subrange(0, p.len() as int));
}

/// In the mock of a trait, the implementation of the trait for the mock struct
/// defines every method of the trait: its body holds the mocked instance
/// methods followed by the mocked static methods, so the text has
/// `impl <..> T <..> for MockT <..> where .. {` instance methods, static
/// methods `}`.
pub proof fn law_trait_impl_defines_all_methods(
    raw_trait: Seq<char>,
    static_content: Seq<char>,
    pubtok: Seq<char>,
    impl_name: Seq<char>,
    generics: Seq<char>,
    where_clause: Seq<char>,
    fields: Seq<char>,
    mock_impl_methods: Seq<char>,
    static_method_setup: Seq<char>,
    ctor: Seq<char>,
    mock_method_body: Seq<char>,
    unsafety: Seq<char>,
    trait_name: Seq<char>,
    method_impls: Seq<char>,
    static_method_impl: Seq<char>,
    derived_additions: Seq<char>,
)
    ensures
        has_infix(
            trait_stream_text(
                raw_trait,
                static_content,
                pubtok,
                impl_name,
                generics,
                where_clause,
                fields,
                mock_impl_methods,
                static_method_setup,
                ctor,
                mock_method_body,
                unsafety,
                trait_name,
                method_impls,
                static_method_impl,
                derived_additions,
            ),
            tok_join(
                tok_join(
                    tok_join(
                        tok_join(
                            tok_join(
                                tok_join(
                                    tok_join(
                                        tok_join(
                                            tok_join(
                                                tok_join(tok_join("impl"@, generics), trait_name),
                                                generics,
                                            ),
                                            "for"@,
                                        ),
                                        impl_name,
                                    ),
                                    generics,
                                ),
                                where_clause,
                            ),
                            "{"@,
                        ),
                        method_impls,
                    ),
                    static_method_impl,
                ),
                "}"@,
            ),
        ),
{
    reveal(trait_stream_text);
    let t0 = Seq::<char>::empty();
    let t1 = tok_join(t0, raw_trait);
    let t2 = tok_join(t1, static_content);
    let t3 = tok_join(t2, TRAIT_STREAM_0@);
    let t4 = tok_join(t3, pubtok);
    let t5 = tok_join(t4, TRAIT_STREAM_1@);
    let t6 = tok_join(t5, impl_name);
    let t7 = tok_join(t6, generics);
    let t8 = tok_join(t7, where_clause);
    let t9 = tok_join(t8, TRAIT_STREAM_2@);
    let t10 = tok_join(t9, fields);
    let t11 = tok_join(t10, TRAIT_STREAM_3@);
    let t12 = tok_join(t11, generics);
    let t13 = tok_join(t12, impl_name);
    let t14 = tok_join(t13, generics);
    let t15 = tok_join(t14, where_clause);
    let t16 = tok_join(t15, TRAIT_STREAM_4@);
    let t17 = tok_join(t16, mock_impl_methods);
    let t18 = tok_join(t17, static_method_setup);
    let t19 = tok_join(t18, TRAIT_STREAM_5@);
    let t20 = tok_join(t19, impl_name);
    let t21 = tok_join(t20, generics);
    let t22 = tok_join(t21, TRAIT_STREAM_6@);
    let t23 = tok_join(t22, impl_name);
    let t24 = tok_join(t23, TRAIT_STREAM_7@);
    let t25 = tok_join(t24, ctor);
    let t26 = tok_join(t25, TRAIT_STREAM_8@);
    let t27 = tok_join(t26, mock_method_body);
    let t28 = tok_join(t27, unsafety);
    let t29 = tok_join(t28, TRAIT_STREAM_9@);
    let t30 = tok_join(t29, generics);
    let t31 = tok_join(t30, trait_name);
    let t32 = tok_join(t31, generics);
    let t33 = tok_join(t32, TRAIT_STREAM_10@);
    let t34 = tok_join(t33, impl_name);
    let t35 = tok_join(t34, generics);
    let t36 = tok_join(t35, where_clause);
    let t37 = tok_join(t36, TRAIT_STREAM_11@);
    let t38 = tok_join(t37, method_impls);
    let t39 = tok_join(t38, static_method_impl);
    let t40 = tok_join(t39, TRAIT_STREAM_12@);
    let t41 = tok_join(t40, derived_additions);
    assert(t41 == trait_stream_text(
        raw_trait,
        static_content,
        pubtok,
        impl_name,
        generics,
        where_clause,
        fields,
        mock_impl_methods,
        static_method_setup,
        ctor,
        mock_method_body,
        unsafety,
        trait_name,
        method_impls,
        static_method_impl,
        derived_additions,
    ));
    let y29 = TRAIT_STREAM_9@;
    assert(t29 == tok_join(t28, y29));
    let y30 = tok_join(y29, generics);
    law_tok_join_assoc(t28, y29, generics);
    assert(t30 == tok_join(t28, y30));
    let y31 = tok_join(y30, trait_name);
    law_tok_join_assoc(t28, y30, trait_name);
    assert(t31 == tok_join(t28, y31));
    let y32 = tok_join(y31, generics);
    law_tok_join_assoc(t28, y31, generics);
    assert(t32 == tok_join(t28, y32));
    let y33 = tok_join(y32, TRAIT_STREAM_10@);
    law_tok_join_assoc(t28, y32, TRAIT_STREAM_10@);
    assert(t33 == tok_join(t28, y33));
    let y34 = tok_join(y33, impl_name);
    law_tok_join_assoc(t28, y33, impl_name);
    assert(t34 == tok_join(t28, y34));
    let y35 = tok_join(y34, generics);
    law_tok_join_assoc(t28, y34, generics);
    assert(t35 == tok_join(t28, y35));
    let y36 = tok_join(y35, where_clause);
    law_tok_join_assoc(t28, y35, where_clause);
    assert(t36 == tok_join(t28, y36));
    let y37 = tok_join(y36, TRAIT_STREAM_11@);
    law_tok_join_assoc(t28, y36, TRAIT_STREAM_11@);
    assert(t37 == tok_join(t28, y37));
    let y38 = tok_join(y37, method_impls);
    law_tok_join_assoc(t28, y37, method_impls);
    assert(t38 == tok_join(t28, y38));
    let y39 = tok_join(y38, static_method_impl);
    law_tok_join_assoc(t28, y38, static_method_impl);
    assert(t39 == tok_join(t28, y39));
    let y40 = tok_join(y39, TRAIT_STREAM_12@);
    law_tok_join_assoc(t28, y39, TRAIT_STREAM_12@);
    assert(t40 == tok_join(t28, y40));
    lemma_infix_self(y40);
    lemma_infix_right(t28, y40, y40);
    lemma_infix_left(t40, derived_additions, y40);
    assert(TRAIT_STREAM_9@ == "impl"@);
    assert(TRAIT_STREAM_10@ == "for"@);
    assert(TRAIT_STREAM_11@ == "{"@);
    assert(TRAIT_STREAM_12@ == "}"@);
}

/// The mock of a trait declares its mock struct: the text has `struct`
/// directly followed by the struct's name, when that name is not empty.
pub proof fn lemma_trait_stream_declares_struct(
    raw_trait: Seq<char>,
    static_content: Seq<char>,
    pubtok: Seq<char>,
    impl_name: Seq<char>,
    generics: Seq<char>,
    where_clause: Seq<char>,
    fields: Seq<char>,
    mock_impl_methods: Seq<char>,
    static_method_setup: Seq<char>,
    ctor: Seq<char>,
    mock_method_body: Seq<char>,
    unsafety: Seq<char>,
    trait_name: Seq<char>,
    method_impls: Seq<char>,
    static_method_impl: Seq<char>,
    derived_additions: Seq<char>,
)
    requires
        impl_name.len() > 0,
    ensures
        has_infix(
            trait_stream_text(
                raw_trait,
                static_content,
                pubtok,
                impl_name,
                generics,
                where_clause,
                fields,
                mock_impl_methods,
                static_method_setup,
                ctor,
                mock_method_body,
                unsafety,
                trait_name,
                method_impls,
                static_method_impl,
                derived_additions,
            ),
            "struct"@ + seq![' '] + impl_name,
        ),
{
    reveal(trait_stream_text);
    let t0 = Seq::<char>::empty();
    let t1 = tok_join(t0, raw_trait);
    let t2 = tok_join(t1, static_content);
    let t3 = tok_join(t2, TRAIT_STREAM_0@);
    let t4 = tok_join(t3, pubtok);
    let t5 = tok_join(t4, TRAIT_STREAM_1@);
    let t6 = tok_join(t5, impl_name);
    let t7 = tok_join(t6, generics);
    let t8 = tok_join(t7, where_clause);
    let t9 = tok_join(t8, TRAIT_STREAM_2@);
    let t10 = tok_join(t9, fields);
    let t11 = tok_join(t10, TRAIT_STREAM_3@);
    let t12 = tok_join(t11, generics);
    let t13 = tok_join(t12, impl_name);
    let t14 = tok_join(t13, generics);
    let t15 = tok_join(t14, where_clause);
    let t16 = tok_join(t15, TRAIT_STREAM_4@);
    let t17 = tok_join(t16, mock_impl_methods);
    let t18 = tok_join(t17, static_method_setup);
    let t19 = tok_join(t18, TRAIT_STREAM_5@);
    let t20 = tok_join(t19, impl_name);
    let t21 = tok_join(t20, generics);
    let t22 = tok_join(t21, TRAIT_STREAM_6@);
    let t23 = tok_join(t22, impl_name);
    let t24 = tok_join(t23, TRAIT_STREAM_7@);
    let t25 = tok_join(t24, ctor);
    let t26 = tok_join(t25, TRAIT_STREAM_8@);
    let t27 = tok_join(t26, mock_method_body);
    let t28 = tok_join(t27, unsafety);
    let t29 = tok_join(t28, TRAIT_STREAM_9@);
    let t30 = tok_join(t29, generics);
    let t31 = tok_join(t30, trait_name);
    let t32 = tok_join(t31, generics);
    let t33 = tok_join(t32, TRAIT_STREAM_10@);
    let t34 = tok_join(t33, impl_name);
    let t35 = tok_join(t34, generics);
    let t36 = tok_join(t35, where_clause);
    let t37 = tok_join(t36, TRAIT_STREAM_11@);
    let t38 = tok_join(t37, method_impls);
    let t39 = tok_join(t38, static_method_impl);
    let t40 = tok_join(t39, TRAIT_STREAM_12@);
    let t41 = tok_join(t40, derived_additions);
    assert(t41 == trait_stream_text(
        raw_trait,
        static_content,
        pubtok,
        impl_name,
        generics,
        where_clause,
        fields,
        mock_impl_methods,
        static_method_setup,
        ctor,
        mock_method_body,
        unsafety,
        trait_name,
        method_impls,
        static_method_impl,
        derived_additions,
    ));
    let target = TRAIT_STREAM_1@ + seq![' '] + impl_name;
    reveal_strlit("struct");
    assert(TRAIT_STREAM_1@ == "struct"@);
    lemma_infix_pair(t4, TRAIT_STREAM_1@, impl_name);
    lemma_infix_left(t6, generics, target);
    lemma_infix_left(t7, where_clause, target);
    lemma_infix_left(t8, TRAIT_STREAM_2@, target);
    lemma_infix_left(t9, fields, target);
    lemma_infix_left(t10, TRAIT_STREAM_3@, target);
    lemma_infix_left(t11, generics, target);
    lemma_infix_left(t12, impl_name, target);
    lemma_infix_left(t13, generics, target);
    lemma_infix_left(t14, where_clause, target);
    lemma_infix_left(t15, TRAIT_STREAM_4@, target);
    lemma_infix_left(t16, mock_impl_methods, target);
    lemma_infix_left(t17, static_method_setup, target);
    lemma_infix_left(t18, TRAIT_STREAM_5@, target);
    lemma_infix_left(t19, impl_name, target);
    lemma_infix_left(t20, generics, target);
    lemma_infix_left(t21, TRAIT_STREAM_6@, target);
    lemma_infix_left(t22, impl_name, target);
    lemma_infix_left(t23, TRAIT_STREAM_7@, target);
    lemma_infix_left(t24, ctor, target);
    lemma_infix_left(t25, TRAIT_STREAM_8@, target);
    lemma_infix_left(t26, mock_method_body, target);
    lemma_infix_left(t27, unsafety, target);
    lemma_infix_left(t28, TRAIT_STREAM_9@, target);
    lemma_infix_left(t29, generics, target);
    lemma_infix_left(t30, trait_name, target);
    lemma_infix_left(t31, generics, target);
    lemma_infix_left(t32, TRAIT_STREAM_10@, target);
    lemma_infix_left(t33, impl_name, target);
    lemma_infix_left(t34, generics, target);
    lemma_infix_left(t35, where_clause, target);
    lemma_infix_left(t36, TRAIT_STREAM_11@, target);
    lemma_infix_left(t37, method_impls, target);
    lemma_infix_left(t38, static_method_impl, target);
    lemma_infix_left(t39, TRAIT_STREAM_12@, target);
    lemma_infix_left(t40, derived_additions, target);
}

/// The expansion of the attribute is the mock, in the arm for test builds,
/// followed by the item alone, in the arm for other builds:
/// `# [ cfg ( test ) ] .. {` mock `} } # [ cfg ( not ( test ) ) ] .. {` item
/// `} } mock_generate ! ( ) ;`.
pub proof fn law_expansion_arms(stream: Seq<char>, raw_item: Seq<char>)
    ensures
        expansion_text(stream, raw_item) == tok_join(
            tok_join(
                tok_join(
                    tok_join("# [ cfg ( test ) ] macro_rules ! mock_generate { ( ) => {"@, stream),
                    "} } # [ cfg ( not ( test ) ) ] macro_rules ! mock_generate { ( ) => {"@,
                ),
                raw_item,
            ),
            "} } mock_generate ! ( ) ;"@,
        ),
{
    reveal(expansion_text);
    law_tok_join_empty(EXPANSION_0@);
}

/// When the attribute is applied to a trait `T`, the arm of the expansion for
/// test builds declares the mock struct `MockT`, and the arm for other builds
/// is the trait alone.
pub proof fn law_trait_mock_in_test_arm(item: ItemModel, reg: Seq<TraitBlockView>)
    requires
        item.kind is Trait,
        expansion(item, reg).1 is Ok,
    ensures
        exists|s: Seq<char>|
            #[trigger] has_infix(s, "struct Mock"@ + item.ident@) && expansion(item, reg).1
                == Ok::<Seq<char>, MockError>(
                tok_join(
                    tok_join(
                        tok_join(
                            tok_join(
                                "# [ cfg ( test ) ] macro_rules ! mock_generate { ( ) => {"@,
                                s,
                            ),
                            "} } # [ cfg ( not ( test ) ) ] macro_rules ! mock_generate { ( ) => {"@,
                        ),
                        item.text@,
                    ),
                    "} } mock_generate ! ( ) ;"@,
                ),
            ),
{
    let raw = item.text@;
    if let ItemKindModel::Trait { is_unsafe, generics, bounds, items } = item.kind {
        let b = block_view(
            item.ident@,
            item.vis@,
            is_unsafe,
            generics,
            bounds@,
            items@,
            bounds_sized(bounds@),
        );
        let (impl_name, mmn) = mock_names_text(b.package_path, b.trait_name);
        law_tok_join_empty("Mock"@);
        assert(impl_name == "Mock"@ + item.ident@);
        let f = trait_fns_text(b, !b.impls_sized)->Ok_0;
        let init = BoundTexts {
            mock_impl_methods: f.mock_impl_methods,
            fields: f.fields,
            ctor: f.ctor,
            derived_additions: Seq::empty(),
        };
        let bt = bounds_fold(b.ty_bounds, init, reg, impl_name, b.generics, b.where_clause).1->Ok_0;
        let s = trait_stream_text(
            raw,
            static_content_of(b.trait_name, f),
            b.vis,
            impl_name,
            b.generics,
            b.where_clause,
            bt.fields,
            bt.mock_impl_methods,
            f.static_method_setup,
            bt.ctor,
            mock_method_body_text(b.vis, mmn),
            unsafety_text(b.is_unsafe),
            b.trait_name,
            f.method_impls,
            f.static_method_impl,
            bt.derived_additions,
        );
        reveal_strlit("Mock");
        lemma_trait_stream_declares_struct(
            raw,
            static_content_of(b.trait_name, f),
            b.vis,
            impl_name,
            b.generics,
            b.where_clause,
            bt.fields,
            bt.mock_impl_methods,
            f.static_method_setup,
            bt.ctor,
            mock_method_body_text(b.vis, mmn),
            unsafety_text(b.is_unsafe),
            b.trait_name,
            f.method_impls,
            f.static_method_impl,
            bt.derived_additions,
        );
        reveal_strlit("struct Mock");
        reveal_strlit("struct");
        assert("struct"@ + seq![' '] + impl_name =~= "struct Mock"@ + item.ident@);
        law_expansion_arms(s, raw);
        assert(expansion(item, reg).1 == Ok::<Seq<char>, MockError>(expansion_text(s, raw)));
        assert(has_infix(s, "struct Mock"@ + item.ident@));
    }
}

/// The text emitted for a function of an `extern` block begins with the text
/// emitted for the functions before it.
proof fn lemma_foreign_fn_extends(
    result: Seq<char>,
    mock_method_body: Seq<char>,
    extern_name: Seq<char>,
    name_lc: Seq<char>,
    name: Seq<char>,
    return_type: Seq<char>,
    setter_name: Seq<char>,
    static_name: Seq<char>,
    clear_name: Seq<char>,
    pubtok: Seq<char>,
    abi: Seq<char>,
    base_name: Seq<char>,
    args_with_types: Seq<char>,
    return_statement: Seq<char>,
    some_arg: Seq<char>,
    retval_statement: Seq<char>,
)
    ensures
        result.is_prefix_of(foreign_fn_text(
            result,
            mock_method_body,
            extern_name,
            name_lc,
            name,
            return_type,
            setter_name,
            static_name,
            clear_name,
            pubtok,
            abi,
            base_name,
            args_with_types,
            return_statement,
            some_arg,
            retval_statement,
        )),
{
    reveal(foreign_fn_text);
    let t0 = Seq::<char>::empty();
    let t1 = tok_join(t0, result);
    let t2 = tok_join(t1, mock_method_body);
    let t3 = tok_join(t2, FOREIGN_FN_0@);
    let t4 = tok_join(t3, extern_name);
    let t5 = tok_join(t4, FOREIGN_FN_1@);
    let t6 = tok_join(t5, name_lc);
    let t7 = tok_join(t6, FOREIGN_FN_2@);
    let t8 = tok_join(t7, name);
    let t9 = tok_join(t8, FOREIGN_FN_3@);
    let t10 = tok_join(t9, return_type);
    let t11 = tok_join(t10, FOREIGN_FN_4@);
    let t12 = tok_join(t11, name);
    let t13 = tok_join(t12, FOREIGN_FN_5@);
    let t14 = tok_join(t13, setter_name);
    let t15 = tok_join(t14, FOREIGN_FN_6@);
    let t16 = tok_join(t15, name);
    let t17 = tok_join(t16, FOREIGN_FN_7@);
    let t18 = tok_join(t17, return_type);
    let t19 = tok_join(t18, FOREIGN_FN_8@);
    let t20 = tok_join(t19, static_name);
    let t21 = tok_join(t20, FOREIGN_FN_9@);
    let t22 = tok_join(t21, name_lc);
    let t23 = tok_join(t22, FOREIGN_FN_10@);
    let t24 = tok_join(t23, clear_name);
    let t25 = tok_join(t24, FOREIGN_FN_11@);
    let t26 = tok_join(t25, static_name);
    let t27 = tok_join(t26, FOREIGN_FN_12@);
    let t28 = tok_join(t27, name_lc);
    let t29 = tok_join(t28, FOREIGN_FN_13@);
    let t30 = tok_join(t29, pubtok);
    let t31 = tok_join(t30, FOREIGN_FN_14@);
    let t32 = tok_join(t31, abi);
    let t33 = tok_join(t32, FOREIGN_FN_15@);
    let t34 = tok_join(t33, base_name);
    let t35 = tok_join(t34, FOREIGN_FN_16@);
    let t36 = tok_join(t35, args_with_types);
    let t37 = tok_join(t36, FOREIGN_FN_17@);
    let t38 = tok_join(t37, return_statement);
    let t39 = tok_join(t38, FOREIGN_FN_18@);
    let t40 = tok_join(t39, static_name);
    let t41 = tok_join(t40, FOREIGN_FN_19@);
    let t42 = tok_join(t41, name_lc);
    let t43 = tok_join(t42, FOREIGN_FN_20@);
    let t44 = tok_join(t43, some_arg);
    let t45 = tok_join(t44, FOREIGN_FN_21@);
    let t46 = tok_join(t45, retval_statement);
    let t47 = tok_join(t46, FOREIGN_FN_22@);
    assert(t47 == foreign_fn_text(
        result,
        mock_method_body,
        extern_name,
        name_lc,
        name,
        return_type,
        setter_name,
        static_name,
        clear_name,
        pubtok,
        abi,
        base_name,
        args_with_types,
        return_statement,
        some_arg,
        retval_statement,
    ));
    assert(t1 =~= result);
    lemma_prefix_left(result, t1, mock_method_body);
    lemma_prefix_left(result, t2, FOREIGN_FN_0@);
    lemma_prefix_left(result, t3, extern_name);
    lemma_prefix_left(result, t4, FOREIGN_FN_1@);
    lemma_prefix_left(result, t5, name_lc);
    lemma_prefix_left(result, t6, FOREIGN_FN_2@);
    lemma_prefix_left(result, t7, name);
    lemma_prefix_left(result, t8, FOREIGN_FN_3@);
    lemma_prefix_left(result, t9, return_type);
    lemma_prefix_left(result, t10, FOREIGN_FN_4@);
    lemma_prefix_left(result, t11, name);
    lemma_prefix_left(result, t12, FOREIGN_FN_5@);
    lemma_prefix_left(result, t13, setter_name);
    lemma_prefix_left(result, t14, FOREIGN_FN_6@);
    lemma_prefix_left(result, t15, name);
    lemma_prefix_left(result, t16, FOREIGN_FN_7@);
    lemma_prefix_left(result, t17, return_type);
    lemma_prefix_left(result, t18, FOREIGN_FN_8@);
    lemma_prefix_left(result, t19, static_name);
    lemma_prefix_left(result, t20, FOREIGN_FN_9@);
    lemma_prefix_left(result, t21, name_lc);
    lemma_prefix_left(result, t22, FOREIGN_FN_10@);
    lemma_prefix_left(result, t23, clear_name);
    lemma_prefix_left(result, t24, FOREIGN_FN_11@);
    lemma_prefix_left(result, t25, static_name);
    lemma_prefix_left(result, t26, FOREIGN_FN_12@);
    lemma_prefix_left(result, t27, name_lc);
    lemma_prefix_left(result, t28, FOREIGN_FN_13@);
    lemma_prefix_left(result, t29, pubtok);
    lemma_prefix_left(result, t30, FOREIGN_FN_14@);
    lemma_prefix_left(result, t31, abi);
    lemma_prefix_left(result, t32, FOREIGN_FN_15@);
    lemma_prefix_left(result, t33, base_name);
    lemma_prefix_left(result, t34, FOREIGN_FN_16@);
    lemma_prefix_left(result, t35, args_with_types);
    lemma_prefix_left(result, t36, FOREIGN_FN_17@);
    lemma_prefix_left(result, t37, return_statement);
    lemma_prefix_left(result, t38, FOREIGN_FN_18@);
    lemma_prefix_left(result, t39, static_name);
    lemma_prefix_left(result, t40, FOREIGN_FN_19@);
    lemma_prefix_left(result, t41, name_lc);
    lemma_prefix_left(result, t42, FOREIGN_FN_20@);
    lemma_prefix_left(result, t43, some_arg);
    lemma_prefix_left(result, t44, FOREIGN_FN_21@);
    lemma_prefix_left(result, t45, retval_statement);
    lemma_prefix_left(result, t46, FOREIGN_FN_22@);
}

/// The text emitted for a function of an `extern` block defines the function
/// that replaces it: it holds `fn`, the function's name and `(`.
proof fn lemma_foreign_fn_defines(
    result: Seq<char>,
    mock_method_body: Seq<char>,
    extern_name: Seq<char>,
    name_lc: Seq<char>,
    name: Seq<char>,
    return_type: Seq<char>,
    setter_name: Seq<char>,
    static_name: Seq<char>,
    clear_name: Seq<char>,
    pubtok: Seq<char>,
    abi: Seq<char>,
    base_name: Seq<char>,
    args_with_types: Seq<char>,
    return_statement: Seq<char>,
    some_arg: Seq<char>,
    retval_statement: Seq<char>,
)
    ensures
        has_infix(
            foreign_fn_text(
                result,
                mock_method_body,
                extern_name,
                name_lc,
                name,
                return_type,
                setter_name,
                static_name,
                clear_name,
                pubtok,
                abi,
                base_name,
                args_with_types,
                return_statement,
                some_arg,
                retval_statement,
            ),
            tok_join(tok_join("fn"@, base_name), "("@),
        ),
{
    reveal(foreign_fn_text);
    let t0 = Seq::<char>::empty();
    let t1 = tok_join(t0, result);
    let t2 = tok_join(t1, mock_method_body);
    let t3 = tok_join(t2, FOREIGN_FN_0@);
    let t4 = tok_join(t3, extern_name);
    let t5 = tok_join(t4, FOREIGN_FN_1@);
    let t6 = tok_join(t5, name_lc);
    let t7 = tok_join(t6, FOREIGN_FN_2@);
    let t8 = tok_join(t7, name);
    let t9 = tok_join(t8, FOREIGN_FN_3@);
    let t10 = tok_join(t9, return_type);
    let t11 = tok_join(t10, FOREIGN_FN_4@);
    let t12 = tok_join(t11, name);
    let t13 = tok_join(t12, FOREIGN_FN_5@);
    let t14 = tok_join(t13, setter_name);
    let t15 = tok_join(t14, FOREIGN_FN_6@);
    let t16 = tok_join(t15, name);
    let t17 = tok_join(t16, FOREIGN_FN_7@);
    let t18 = tok_join(t17, return_type);
    let t19 = tok_join(t18, FOREIGN_FN_8@);
    let t20 = tok_join(t19, static_name);
    let t21 = tok_join(t20, FOREIGN_FN_9@);
    let t22 = tok_join(t21, name_lc);
    let t23 = tok_join(t22, FOREIGN_FN_10@);
    let t24 = tok_join(t23, clear_name);
    let t25 = tok_join(t24, FOREIGN_FN_11@);
    let t26 = tok_join(t25, static_name);
    let t27 = tok_join(t26, FOREIGN_FN_12@);
    let t28 = tok_join(t27, name_lc);
    let t29 = tok_join(t28, FOREIGN_FN_13@);
    let t30 = tok_join(t29, pubtok);
    let t31 = tok_join(t30, FOREIGN_FN_14@);
    let t32 = tok_join(t31, abi);
    let t33 = tok_join(t32, FOREIGN_FN_15@);
    let t34 = tok_join(t33, base_name);
    let t35 = tok_join(t34, FOREIGN_FN_16@);
    let t36 = tok_join(t35, args_with_types);
    let t37 = tok_join(t36, FOREIGN_FN_17@);
    let t38 = tok_join(t37, return_statement);
    let t39 = tok_join(t38, FOREIGN_FN_18@);
    let t40 = tok_join(t39, static_name);
    let t41 = tok_join(t40, FOREIGN_FN_19@);
    let t42 = tok_join(t41, name_lc);
    let t43 = tok_join(t42, FOREIGN_FN_20@);
    let t44 = tok_join(t43, some_arg);
    let t45 = tok_join(t44, FOREIGN_FN_21@);
    let t46 = tok_join(t45, retval_statement);
    let t47 = tok_join(t46, FOREIGN_FN_22@);
    assert(t47 == foreign_fn_text(
        result,
        mock_method_body,
        extern_name,
        name_lc,
        name,
        return_type,
        setter_name,
        static_name,
        clear_name,
        pubtok,
        abi,
        base_name,
        args_with_types,
        return_statement,
        some_arg,
        retval_statement,
    ));
    let y = tok_join(tok_join(FOREIGN_FN_15@, base_name), FOREIGN_FN_16@);
    law_tok_join_assoc(t32, FOREIGN_FN_15@, base_name);
    law_tok_join_assoc(t32, tok_join(FOREIGN_FN_15@, base_name), FOREIGN_FN_16@);
    assert(t35 == tok_join(t32, y));
    lemma_infix_self(y);
    lemma_infix_right(t32, y, y);
    lemma_infix_left(t35, args_with_types, y);
    lemma_infix_left(t36, FOREIGN_FN_17@, y);
    lemma_infix_left(t37, return_statement, y);
    lemma_infix_left(t38, FOREIGN_FN_18@, y);
    lemma_infix_left(t39, static_name, y);
    lemma_infix_left(t40, FOREIGN_FN_19@, y);
    lemma_infix_left(t41, name_lc, y);
    lemma_infix_left(t42, FOREIGN_FN_20@, y);
    lemma_infix_left(t43, some_arg, y);
    lemma_infix_left(t44, FOREIGN_FN_21@, y);
    lemma_infix_left(t45, retval_statement, y);
    lemma_infix_left(t46, FOREIGN_FN_22@, y);
    assert(FOREIGN_FN_15@ == "fn"@);
    assert(FOREIGN_FN_16@ == "("@);
}

/// What occurs in the beginning of a text occurs in the whole text.
proof fn lemma_infix_prefix(p: Seq<char>, q: Seq<char>, t: Seq<char>)
    requires
        has_infix(p, t),
        p.is_prefix_of(q),
    ensures
        has_infix(q, t),
{
    let (x, y) = choose|x: Seq<char>, y: Seq<char>| #[trigger] (x + t + y) == p;
    let rest = q.skip(p.len() as int);
    assert(q.subrange(0, p.len() as int) =~= p);
    assert(q =~= p + rest);
    assert(x + t + (y + rest) =~= q);
}

/// The beginning of the beginning of a text is a beginning of the text.
proof fn lemma_prefix_trans(p: Seq<char>, q: Seq<char>, r: Seq<char>)
    requires
        p.is_prefix_of(q),
        q.is_prefix_of(r),
    ensures
        p.is_prefix_of(r),
{
    assert(r.subrange(0, p.len() as int) =~= r.subrange(0, q.len() as int).subrange(
        0,
        p.len() as int,
    ));
}

/// Mocking the functions of an `extern` block keeps what was emitted for the
/// functions before the last one whole: their mocks, their recorder slots and
/// the slots' initial values are the beginning of those for all the functions.
pub proof fn law_foreign_text_extends(
    items: Seq<ForeignItemModel>,
    abi: Seq<char>,
    extern_name: Seq<char>,
    static_name: Seq<char>,
)
    requires
        items.len() > 0,
        foreign_fold(items, abi, extern_name, static_name) is Ok,
    ensures
        foreign_fold(items.drop_last(), abi, extern_name, static_name) is Ok,
        foreign_fold(items.drop_last(), abi, extern_name, static_name)->Ok_0.result.is_prefix_of(
            foreign_fold(items, abi, extern_name, static_name)->Ok_0.result,
        ),
        foreign_fold(items.drop_last(), abi, extern_name, static_name)->Ok_0.defs.is_prefix_of(
            foreign_fold(items, abi, extern_name, static_name)->Ok_0.defs,
        ),
        foreign_fold(items.drop_last(), abi, extern_name, static_name)->Ok_0.ctor_args.is_prefix_of(
            foreign_fold(items, abi, extern_name, static_name)->Ok_0.ctor_args,
        ),
{
    let st = foreign_fold(items.drop_last(), abi, extern_name, static_name)->Ok_0;
    let item = items.last();
    if let ForeignItemKindModel::Fn { decl, n_ty_params, n_lifetimes } = item.kind {
        let a = args_text(decl.inputs@);
        let rt = return_type_text(decl.output);
        let r = return_tokens_text(rt.0, rt.1);
        let base = item.ident@;
        let name = "Method_"@ + base;
        let name_lc = "method_"@ + base;
        lemma_foreign_fn_extends(
            st.result,
            mock_method_body_text("pub"@, name),
            extern_name,
            name_lc,
            name,
            rt.1,
            "set_"@ + base,
            static_name,
            "clear_"@ + base,
            item.vis@,
            abi,
            base,
            a.with_types,
            r.0,
            r.2,
            r.1,
        );
        assert(st.defs.subrange(0, st.defs.len() as int) =~= st.defs);
        let d1 = tok_join(st.defs, name_lc);
        lemma_prefix_left(st.defs, st.defs, name_lc);
        let d2 = tok_join(d1, ": Option <"@);
        lemma_prefix_left(st.defs, d1, ": Option <"@);
        let d3 = tok_join(d2, name);
        lemma_prefix_left(st.defs, d2, name);
        let d4 = tok_join(d3, "<"@);
        lemma_prefix_left(st.defs, d3, "<"@);
        let d5 = tok_join(d4, rt.1);
        lemma_prefix_left(st.defs, d4, rt.1);
        lemma_prefix_left(st.defs, d5, ">> ,"@);
        assert(st.ctor_args.subrange(0, st.ctor_args.len() as int) =~= st.ctor_args);
        lemma_prefix_left(st.ctor_args, st.ctor_args, name_lc);
        lemma_prefix_left(st.ctor_args, tok_join(st.ctor_args, name_lc), ": None ,"@);
    }
}

/// What is emitted for the first `k` functions of an `extern` block (their
/// mocks, recorder slots and the slots' initial values) is the beginning of
/// what is emitted for all of them.
pub proof fn law_foreign_text_prefixes(
    items: Seq<ForeignItemModel>,
    k: int,
    abi: Seq<char>,
    extern_name: Seq<char>,
    static_name: Seq<char>,
)
    requires
        0 <= k <= items.len(),
        foreign_fold(items, abi, extern_name, static_name) is Ok,
    ensures
        foreign_fold(items.take(k), abi, extern_name, static_name) is Ok,
        foreign_fold(items.take(k), abi, extern_name, static_name)->Ok_0.result.is_prefix_of(
            foreign_fold(items, abi, extern_name, static_name)->Ok_0.result,
        ),
        foreign_fold(items.take(k), abi, extern_name, static_name)->Ok_0.defs.is_prefix_of(
            foreign_fold(items, abi, extern_name, static_name)->Ok_0.defs,
        ),
        foreign_fold(items.take(k), abi, extern_name, static_name)->Ok_0.ctor_args.is_prefix_of(
            foreign_fold(items, abi, extern_name, static_name)->Ok_0.ctor_args,
        ),
    decreases items.len() - k,
{
    if k < items.len() {
        law_foreign_text_prefixes(items, k + 1, abi, extern_name, static_name);
        let t = items.take(k + 1);
        assert(t.drop_last() =~= items.take(k));
        law_foreign_text_extends(t, abi, extern_name, static_name);
        let sk = foreign_fold(items.take(k), abi, extern_name, static_name)->Ok_0;
        let st = foreign_fold(t, abi, extern_name, static_name)->Ok_0;
        let all = foreign_fold(items, abi, extern_name, static_name)->Ok_0;
        lemma_prefix_trans(sk.result, st.result, all.result);
        lemma_prefix_trans(sk.defs, st.defs, all.defs);
        lemma_prefix_trans(sk.ctor_args, st.ctor_args, all.ctor_args);
    } else {
        assert(items.take(k) =~= items);
        let all = foreign_fold(items, abi, extern_name, static_name)->Ok_0;
        assert(all.result.subrange(0, all.result.len() as int) =~= all.result);
        assert(all.defs.subrange(0, all.defs.len() as int) =~= all.defs);
        assert(all.ctor_args.subrange(0, all.ctor_args.len() as int) =~= all.ctor_args);
    }
}

/// Every function of an `extern` block gets its replacement: the text emitted
/// for the block holds `fn`, the function's name and `(` for each of them.
pub proof fn law_foreign_fns_each_defined(
    items: Seq<ForeignItemModel>,
    i: int,
    abi: Seq<char>,
    extern_name: Seq<char>,
    static_name: Seq<char>,
)
    requires
        0 <= i < items.len(),
        items[i].kind is Fn,
        foreign_fold(items, abi, extern_name, static_name) is Ok,
    ensures
        has_infix(
            foreign_fold(items, abi, extern_name, static_name)->Ok_0.result,
            tok_join(tok_join("fn"@, items[i].ident@), "("@),
        ),
{
    law_foreign_text_prefixes(items, i + 1, abi, extern_name, static_name);
    let t = items.take(i + 1);
    assert(t.drop_last() =~= items.take(i));
    assert(t.last() == items[i]);
    let st = foreign_fold(items.take(i), abi, extern_name, static_name)->Ok_0;
    let item = items[i];
    if let ForeignItemKindModel::Fn { decl, n_ty_params, n_lifetimes } = item.kind {
        let a = args_text(decl.inputs@);
        let rt = return_type_text(decl.output);
        let r = return_tokens_text(rt.0, rt.1);
        let base = item.ident@;
        let name = "Method_"@ + base;
        let name_lc = "method_"@ + base;
        lemma_foreign_fn_defines(
            st.result,
            mock_method_body_text("pub"@, name),
            extern_name,
            name_lc,
            name,
            rt.1,
            "set_"@ + base,
            static_name,
            "clear_"@ + base,
            item.vis@,
            abi,
            base,
            a.with_types,
            r.0,
            r.2,
            r.1,
        );
        lemma_infix_prefix(
            foreign_fold(t, abi, extern_name, static_name)->Ok_0.result,
            foreign_fold(items, abi, extern_name, static_name)->Ok_0.result,
            tok_join(tok_join("fn"@, base), "("@),
        );
    }
}

/// Mocking an `extern` block replaces every one of its functions: the
/// expansion's mock holds `fn`, the function's name and `(` for each of them.
pub proof fn law_foreign_expansion_defines_each(fmod: ForeignModModel, i: int)
    requires
        0 <= i < fmod.items@.len(),
        fmod.items@[i].kind is Fn,
        foreign_expansion(fmod) is Ok,
    ensures
        has_infix(
            foreign_expansion(fmod)->Ok_0,
            tok_join(tok_join("fn"@, fmod.items@[i].ident@), "("@),
        ),
{
    let extern_name = extern_name_text(fmod.abi);
    let static_name = "Static"@ + extern_name;
    let abi = abi_text(fmod.abi);
    law_foreign_fns_each_defined(fmod.items@, i, abi, extern_name, static_name);
    let st = foreign_fold(fmod.items@, abi, extern_name, static_name)->Ok_0;
    let y = tok_join(tok_join("fn"@, fmod.items@[i].ident@), "("@);
    reveal(extern_result_text);
    let e = foreign_expansion(fmod)->Ok_0;
    let n = e.len() - st.result.len();
    let v = e.take(n);
    assert(e =~= v + st.result) by {
        let t = extern_result_text(
            extern_name,
            st.defs,
            crate::traits::mut_static_full_text(
                static_name,
                extern_name,
                crate::templates::extern_init_text(extern_name, st.ctor_args),
            ),
            st.result,
        );
        assert(e == t);
    }
    let (x, z) = choose|x: Seq<char>, z: Seq<char>| #[trigger] (x + y + z) == st.result;
    assert((v + x) + y + z =~= e);
}

/// The mocked instance method defines the method: `fn`, its name and `(`.
proof fn lemma_method_impl_defines(
    unsafety: Seq<char>,
    name_stream: Seq<char>,
    args_with_types: Seq<char>,
    return_statement: Seq<char>,
    some_arg: Seq<char>,
    retval_statement: Seq<char>,
    fallback: Seq<char>,
)
    ensures
        has_infix(
            method_impl_text(
                unsafety,
                name_stream,
                args_with_types,
                return_statement,
                some_arg,
                retval_statement,
                fallback,
            ),
            tok_join(tok_join("fn"@, name_stream), "("@),
        ),
{
    reveal(method_impl_text);
    let t0 = Seq::<char>::empty();
    let t1 = tok_join(t0, unsafety);
    let t2 = tok_join(t1, METHOD_IMPL_0@);
    let t3 = tok_join(t2, name_stream);
    let t4 = tok_join(t3, METHOD_IMPL_1@);
    let t5 = tok_join(t4, args_with_types);
    let t6 = tok_join(t5, METHOD_IMPL_2@);
    let t7 = tok_join(t6, return_statement);
    let t8 = tok_join(t7, METHOD_IMPL_3@);
    let t9 = tok_join(t8, name_stream);
    let t10 = tok_join(t9, METHOD_IMPL_4@);
    let t11 = tok_join(t10, some_arg);
    let t12 = tok_join(t11, METHOD_IMPL_5@);
    let t13 = tok_join(t12, retval_statement);
    let t14 = tok_join(t13, METHOD_IMPL_6@);
    let t15 = tok_join(t14, fallback);
    let t16 = tok_join(t15, METHOD_IMPL_7@);
    let t17 = tok_join(t16, fallback);
    let t18 = tok_join(t17, METHOD_IMPL_8@);
    assert(t18 == method_impl_text(
        unsafety,
        name_stream,
        args_with_types,
        return_statement,
        some_arg,
        retval_statement,
        fallback,
    ));
    let y = tok_join(tok_join(METHOD_IMPL_0@, name_stream), METHOD_IMPL_1@);
    law_tok_join_assoc(t1, METHOD_IMPL_0@, name_stream);
    law_tok_join_assoc(t1, tok_join(METHOD_IMPL_0@, name_stream), METHOD_IMPL_1@);
    assert(t4 == tok_join(t1, y));
    lemma_infix_self(y);
    lemma_infix_right(t1, y, y);
    lemma_infix_left(t4, args_with_types, y);
    lemma_infix_left(t5, METHOD_IMPL_2@, y);
    lemma_infix_left(t6, return_statement, y);
    lemma_infix_left(t7, METHOD_IMPL_3@, y);
    lemma_infix_left(t8, name_stream, y);
    lemma_infix_left(t9, METHOD_IMPL_4@, y);
    lemma_infix_left(t10, some_arg, y);
    lemma_infix_left(t11, METHOD_IMPL_5@, y);
    lemma_infix_left(t12, retval_statement, y);
    lemma_infix_left(t13, METHOD_IMPL_6@, y);
    lemma_infix_left(t14, fallback, y);
    lemma_infix_left(t15, METHOD_IMPL_7@, y);
    lemma_infix_left(t16, fallback, y);
    lemma_infix_left(t17, METHOD_IMPL_8@, y);
    assert(METHOD_IMPL_0@ == "fn"@);
    assert(METHOD_IMPL_1@ == "("@);
}

/// The mocked static method defines the method: `fn`, its name and `(`.
proof fn lemma_static_impl_defines(
    unsafety: Seq<char>,
    base_name: Seq<char>,
    args_with_types: Seq<char>,
    return_statement: Seq<char>,
    static_name: Seq<char>,
    name_lc: Seq<char>,
    some_arg: Seq<char>,
    retval_statement: Seq<char>,
)
    ensures
        has_infix(
            static_impl_text(
                unsafety,
                base_name,
                args_with_types,
                return_statement,
                static_name,
                name_lc,
                some_arg,
                retval_statement,
            ),
            tok_join(tok_join("fn"@, base_name), "("@),
        ),
{
    reveal(static_impl_text);
    let t0 = Seq::<char>::empty();
    let t1 = tok_join(t0, unsafety);
    let t2 = tok_join(t1, STATIC_IMPL_0@);
    let t3 = tok_join(t2, base_name);
    let t4 = tok_join(t3, STATIC_IMPL_1@);
    let t5 = tok_join(t4, args_with_types);
    let t6 = tok_join(t5, STATIC_IMPL_2@);
    let t7 = tok_join(t6, return_statement);
    let t8 = tok_join(t7, STATIC_IMPL_3@);
    let t9 = tok_join(t8, static_name);
    let t10 = tok_join(t9, STATIC_IMPL_4@);
    let t11 = tok_join(t10, name_lc);
    let t12 = tok_join(t11, STATIC_IMPL_5@);
    let t13 = tok_join(t12, some_arg);
    let t14 = tok_join(t13, STATIC_IMPL_6@);
    let t15 = tok_join(t14, retval_statement);
    let t16 = tok_join(t15, STATIC_IMPL_7@);
    assert(t16 == static_impl_text(
        unsafety,
        base_name,
        args_with_types,
        return_statement,
        static_name,
        name_lc,
        some_arg,
        retval_statement,
    ));
    let y = tok_join(tok_join(STATIC_IMPL_0@, base_name), STATIC_IMPL_1@);
    law_tok_join_assoc(t1, STATIC_IMPL_0@, base_name);
    law_tok_join_assoc(t1, tok_join(STATIC_IMPL_0@, base_name), STATIC_IMPL_1@);
    assert(t4 == tok_join(t1, y));
    lemma_infix_self(y);
    lemma_infix_right(t1, y, y);
    lemma_infix_left(t4, args_with_types, y);
    lemma_infix_left(t5, STATIC_IMPL_2@, y);
    lemma_infix_left(t6, return_statement, y);
    lemma_infix_left(t7, STATIC_IMPL_3@, y);
    lemma_infix_left(t8, static_name, y);
    lemma_infix_left(t9, STATIC_IMPL_4@, y);
    lemma_infix_left(t10, name_lc, y);
    lemma_infix_left(t11, STATIC_IMPL_5@, y);
    lemma_infix_left(t12, some_arg, y);
    lemma_infix_left(t13, STATIC_IMPL_6@, y);
    lemma_infix_left(t14, retval_statement, y);
    lemma_infix_left(t15, STATIC_IMPL_7@, y);
    assert(STATIC_IMPL_0@ == "fn"@);
    assert(STATIC_IMPL_1@ == "("@);
}

/// Every method of a trait gets its mocked definition: an instance method among
/// the mocked instance methods, a static method among the mocked static
/// methods, each holding `fn`, the method's name and `(`.
pub proof fn law_trait_fns_each_defined(
    funcs: Seq<Function>,
    trait_name: Seq<char>,
    mmn: Seq<char>,
    static_name: Seq<char>,
    allow0: bool,
    i: int,
)
    requires
        0 <= i < funcs.len(),
        fns_fold(funcs, trait_name, mmn, static_name, allow0) is Ok,
    ensures
        args_text(funcs[i].decl.inputs@).instance ==> has_infix(
            fns_fold(funcs, trait_name, mmn, static_name, allow0)->Ok_0.text.method_impls,
            tok_join(tok_join("fn"@, funcs[i].name@), "("@),
        ),
        !args_text(funcs[i].decl.inputs@).instance ==> has_infix(
            fns_fold(funcs, trait_name, mmn, static_name, allow0)->Ok_0.text.static_method_impl,
            tok_join(tok_join("fn"@, funcs[i].name@), "("@),
        ),
    decreases funcs.len(),
{
    let rest = funcs.drop_last();
    let st0 = fns_fold(rest, trait_name, mmn, static_name, allow0)->Ok_0;
    let f = funcs.last();
    let st = fns_fold(funcs, trait_name, mmn, static_name, allow0)->Ok_0;
    assert(st == fn_step(st0, f, trait_name, mmn, static_name));
    let name = f.name@;
    let ident = "method_"@ + name;
    let a = args_text(f.decl.inputs@);
    let rt = return_type_text(f.decl.output);
    let unsafety = unsafety_text(f.is_unsafe);
    let r = return_tokens_text(rt.0, rt.1);
    let m = method_impl_text(
        unsafety,
        name,
        a.with_types,
        r.0,
        r.2,
        r.1,
        fallback_text(a, st0.allow_fallback, name),
    );
    let si = static_impl_text(unsafety, name, a.with_types, r.0, static_name, ident, r.2, r.1);
    let y = tok_join(tok_join("fn"@, funcs[i].name@), "("@);
    let inst_i = args_text(funcs[i].decl.inputs@).instance;
    if i < funcs.len() - 1 {
        assert(rest[i] == funcs[i]);
        law_trait_fns_each_defined(rest, trait_name, mmn, static_name, allow0, i);
        if a.instance {
            assert(st.text.method_impls == tok_join(st0.text.method_impls, m));
            if inst_i {
                lemma_infix_left(st0.text.method_impls, m, y);
            }
        } else {
            assert(st.text.static_method_impl == tok_join(st0.text.static_method_impl, si));
            if !inst_i {
                lemma_infix_left(st0.text.static_method_impl, si, y);
            }
        }
    } else {
        assert(f == funcs[i]);
        if a.instance {
            lemma_method_impl_defines(
                unsafety,
                name,
                a.with_types,
                r.0,
                r.2,
                r.1,
                fallback_text(a, st0.allow_fallback, name),
            );
            lemma_infix_right(st0.text.method_impls, m, y);
        } else {
            lemma_static_impl_defines(
                unsafety,
                name,
                a.with_types,
                r.0,
                static_name,
                ident,
                r.2,
                r.1,
            );
            lemma_infix_right(st0.text.static_method_impl, si, y);
        }
    }
}

/// The mock of a trait `T` implements `T` with a definition of every one of its
/// methods, instance or static: the text has a block `impl <..> T <..> for
/// MockT <..> where .. { .. }` whose body holds `fn`, the method's name and `(`
/// for each method.
pub proof fn law_trait_impl_defines_each_method(
    b: TraitBlockView,
    raw: Seq<char>,
    reg: Seq<TraitBlockView>,
    i: int,
)
    requires
        0 <= i < b.funcs.len(),
        trait_expansion(b, raw, reg).1 is Ok,
    ensures
        exists|body: Seq<char>|
            #[trigger] has_infix(body, tok_join(tok_join("fn"@, b.funcs[i].name@), "("@))
                && has_infix(
                trait_expansion(b, raw, reg).1->Ok_0,
                tok_join(
                    tok_join(
                        tok_join(
                            tok_join(
                                tok_join(
                                    tok_join(
                                        tok_join(
                                            tok_join(
                                                tok_join(tok_join("impl"@, b.generics), b.trait_name),
                                                b.generics,
                                            ),
                                            "for"@,
                                        ),
                                        tok_join(b.package_path, "Mock"@) + b.trait_name,
                                    ),
                                    b.generics,
                                ),
                                b.where_clause,
                            ),
                            "{"@,
                        ),
                        body,
                    ),
                    "}"@,
                ),
            ),
{
    let (impl_name, mmn) = mock_names_text(b.package_path, b.trait_name);
    let static_name = static_name_text(b.trait_name);
    let allow0 = !b.impls_sized;
    let st = fns_fold(b.funcs, b.trait_name, mmn, static_name, allow0)->Ok_0;
    let f = trait_fns_text(b, allow0)->Ok_0;
    assert(f.method_impls == st.text.method_impls);
    assert(f.static_method_impl == st.text.static_method_impl);
    law_trait_fns_each_defined(b.funcs, b.trait_name, mmn, static_name, allow0, i);
    let y = tok_join(tok_join("fn"@, b.funcs[i].name@), "("@);
    let body = tok_join(f.method_impls, f.static_method_impl);
    if args_text(b.funcs[i].decl.inputs@).instance {
        lemma_infix_left(f.method_impls, f.static_method_impl, y);
    } else {
        lemma_infix_right(f.method_impls, f.static_method_impl, y);
    }
    let init = BoundTexts {
        mock_impl_methods: f.mock_impl_methods,
        fields: f.fields,
        ctor: f.ctor,
        derived_additions: Seq::empty(),
    };
    let bt = bounds_fold(b.ty_bounds, init, reg, impl_name, b.generics, b.where_clause).1->Ok_0;
    law_trait_impl_defines_all_methods(
        raw,
        static_content_of(b.trait_name, f),
        b.vis,
        impl_name,
        b.generics,
        b.where_clause,
        bt.fields,
        bt.mock_impl_methods,
        f.static_method_setup,
        bt.ctor,
        mock_method_body_text(b.vis, mmn),
        unsafety_text(b.is_unsafe),
        b.trait_name,
        f.method_impls,
        f.static_method_impl,
        bt.derived_additions,
    );
    let head = tok_join(
        tok_join(
            tok_join(
                tok_join(
                    tok_join(
                        tok_join(tok_join(tok_join("impl"@, b.generics), b.trait_name), b.generics),
                        "for"@,
                    ),
                    impl_name,
                ),
                b.generics,
            ),
            b.where_clause,
        ),
        "{"@,
    );
    law_tok_join_assoc(head, f.method_impls, f.static_method_impl);
    assert(has_infix(body, y));
}

} // verus!
