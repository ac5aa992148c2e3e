//! Properties of the generator that hold of all inputs.
use vstd::prelude::*;
use crate::args::{arg_name, args_empty, args_text};
use crate::expand::expansion;
use crate::foreign::{abi_type_name, foreign_fold};
use crate::model::{
    AbiModel, BoundModel, FnArgModel, PathModel, ForeignItemKindModel, ForeignItemModel, Function, ItemKindModel, ItemModel,
    MockError,
};
use crate::registry::{
    find_last, lemma_find_last, lemma_find_last_unique, registry_insert, registry_lookup,
};
use crate::templates::{
    derived_impl_text, disabled_fallback_text, mock_method_body_text, object_fallback_text,
    owned_self_fallback_text, trait_stream_text,
};
use crate::tokens::{decimal_text, digit_char, remove_all, tok_join};
use crate::traits::{
    bound_step, bounds_fold, fallback_text, fns_fold, mock_names_text, path_text, returns_self, static_content_of,
    trait_expansion, trait_fns_text, unsafety_text,
    BoundTexts, FnsState, TraitBlockView,
};

verus! {

/// Appending an empty token stream, or appending to one, changes nothing.
pub proof fn law_tok_join_empty(s: Seq<char>)
    ensures
        tok_join(s, Seq::empty()) == s,
        tok_join(Seq::empty(), s) == s,
{
    assert(s + Seq::<char>::empty() =~= s);
    assert(Seq::<char>::empty() + s =~= s);
}

/// A trait registered under its name is what the registry then gives back for
/// that name; what it gives back for any other name is unchanged.
pub proof fn law_registry_insert_lookup(
    reg: Seq<TraitBlockView>,
    b: TraitBlockView,
    name: Seq<char>,
)
    ensures
        registry_lookup(registry_insert(reg, b), b.trait_name) == Some(b),
        name != b.trait_name ==> registry_lookup(registry_insert(reg, b), name) == registry_lookup(
            reg,
            name,
        ),
{
    lemma_find_last(reg, b.trait_name);
    lemma_find_last(reg, name);
    let i = find_last(reg, b.trait_name);
    let j = find_last(reg, name);
    let upd = registry_insert(reg, b);
    if i < 0 {
        assert(upd == reg.push(b));
        assert(upd.drop_last() =~= reg);
        assert(find_last(upd, b.trait_name) == reg.len());
        if name != b.trait_name {
            assert(find_last(upd, name) == find_last(reg, name));
            if j >= 0 {
                assert(upd[j] == reg[j]);
            }
        }
    } else {
        assert(upd == reg.update(i, b));
        assert forall|m: int| i < m < upd.len() implies #[trigger] upd[m].trait_name
            != b.trait_name by {
            assert(upd[m] == reg[m]);
        }
        lemma_find_last_unique(upd, b.trait_name, i);
        if name != b.trait_name {
            assert(j != i);
            if j >= 0 {
                assert(upd[j] == reg[j]);
            }
            assert forall|m: int| j < m < upd.len() implies #[trigger] upd[m].trait_name != name by {
                if m != i {
                    assert(upd[m] == reg[m]);
                }
            }
            lemma_find_last_unique(upd, name, j);
        }
    }
}

/// Mocking a trait registers it: the registry then gives back that trait for its
/// name.
pub proof fn law_mocked_trait_registered(b: TraitBlockView, raw: Seq<char>, reg: Seq<TraitBlockView>)
    requires
        trait_expansion(b, raw, reg).1 is Ok,
    ensures
        registry_lookup(trait_expansion(b, raw, reg).0, b.trait_name) == Some(b),
{
    let (reg2, _) = trait_expansion(b, raw, reg);
    let pre = bounds_fold(
        b.ty_bounds,
        BoundTexts {
            mock_impl_methods: trait_fns_text(b, !b.impls_sized)->Ok_0.mock_impl_methods,
            fields: trait_fns_text(b, !b.impls_sized)->Ok_0.fields,
            ctor: trait_fns_text(b, !b.impls_sized)->Ok_0.ctor,
            derived_additions: Seq::empty(),
        },
        reg,
        mock_names_text(b.package_path, b.trait_name).0,
        b.generics,
        b.where_clause,
    ).0;
    assert(reg2 == registry_insert(pre, b));
    law_registry_insert_lookup(pre, b, b.trait_name);
}

/// Whether the supertrait bound `b` names, by the last segment of its path, the
/// trait `name`.
pub open spec fn bound_names_at(b: BoundModel, name: Seq<char>) -> bool {
    match b {
        BoundModel::Trait(p) => p.segments@.last().ident@ == name,
        BoundModel::Region => false,
    }
}

/// Whether one of the bounds `bounds` names the trait `name`.
pub open spec fn bound_names(bounds: Seq<BoundModel>, name: Seq<char>) -> bool {
    exists|i: int| 0 <= i < bounds.len() && #[trigger] bound_names_at(bounds[i], name)
}

/// Replacing an entry by one of the same name moves no name.
proof fn lemma_update_keeps_names(
    reg: Seq<TraitBlockView>,
    i: int,
    e: TraitBlockView,
    name: Seq<char>,
)
    requires
        0 <= i < reg.len(),
        e.trait_name == reg[i].trait_name,
    ensures
        find_last(reg.update(i, e), name) == find_last(reg, name),
    decreases reg.len(),
{
    if i == reg.len() - 1 {
        assert(reg.update(i, e).drop_last() =~= reg.drop_last());
    } else {
        assert(reg.update(i, e).drop_last() =~= reg.drop_last().update(i, e));
        lemma_update_keeps_names(reg.drop_last(), i, e, name);
    }
}

/// The supertrait bounds of a trait change no registered trait that they do not
/// name.
proof fn lemma_bounds_fold_frame(
    bounds: Seq<BoundModel>,
    init: BoundTexts,
    reg: Seq<TraitBlockView>,
    impl_name: Seq<char>,
    generics: Seq<char>,
    where_clause: Seq<char>,
    name: Seq<char>,
)
    requires
        !bound_names(bounds, name),
    ensures
        registry_lookup(bounds_fold(bounds, init, reg, impl_name, generics, where_clause).0, name)
            == registry_lookup(reg, name),
    decreases bounds.len(),
{
    if bounds.len() > 0 {
        let rest = bounds.drop_last();
        assert forall|i: int| 0 <= i < rest.len() implies !#[trigger] bound_names_at(rest[i], name) by {
            assert(rest[i] == bounds[i]);
            assert(!bound_names_at(bounds[i], name));
        }
        lemma_bounds_fold_frame(rest, init, reg, impl_name, generics, where_clause, name);
        let (r, res) = bounds_fold(rest, init, reg, impl_name, generics, where_clause);
        assert(bounds.last() == bounds[bounds.len() - 1]);
        assert(!bound_names_at(bounds.last(), name));
        if res is Ok {
            if let BoundModel::Trait(path) = bounds.last() {
                let key = path.segments@.last().ident@;
                lemma_find_last(r, key);
                lemma_find_last(r, name);
                let i = find_last(r, key);
                if i >= 0 {
                    let r2 = bound_step(r, res->Ok_0, bounds.last(), impl_name, generics, where_clause).0;
                    let entry = r2[i];
                    assert(r2 == r.update(i, entry));
                    lemma_update_keeps_names(r, i, entry, name);
                    let j = find_last(r, name);
                    if j >= 0 {
                        assert(j != i);
                        assert(r2[j] == r[j]);
                    }
                }
            }
        }
    }
}

/// Mocking a trait changes no registered trait but the trait itself and the
/// supertraits its bounds name.
pub proof fn law_mock_keeps_other_traits(
    b: TraitBlockView,
    raw: Seq<char>,
    reg: Seq<TraitBlockView>,
    name: Seq<char>,
)
    requires
        name != b.trait_name,
        !bound_names(b.ty_bounds, name),
    ensures
        registry_lookup(trait_expansion(b, raw, reg).0, name) == registry_lookup(reg, name),
{
    if trait_fns_text(b, !b.impls_sized) is Ok {
        let f = trait_fns_text(b, !b.impls_sized)->Ok_0;
        let init = BoundTexts {
            mock_impl_methods: f.mock_impl_methods,
            fields: f.fields,
            ctor: f.ctor,
            derived_additions: Seq::empty(),
        };
        let (impl_name, _) = mock_names_text(b.package_path, b.trait_name);
        lemma_bounds_fold_frame(
            b.ty_bounds,
            init,
            reg,
            impl_name,
            b.generics,
            b.where_clause,
            name,
        );
        let reg2 = bounds_fold(b.ty_bounds, init, reg, impl_name, b.generics, b.where_clause).0;
        law_registry_insert_lookup(reg2, b, name);
    }
}

/// A supertrait bound that names no registered trait, or a lifetime bound, adds
/// nothing to a mock and changes no registered trait.
pub proof fn law_unregistered_bound_adds_nothing(
    reg: Seq<TraitBlockView>,
    st: BoundTexts,
    bound: BoundModel,
    impl_name: Seq<char>,
    generics: Seq<char>,
    where_clause: Seq<char>,
)
    requires
        bound matches BoundModel::Trait(p) ==> registry_lookup(reg, p.segments@.last().ident@) is None,
    ensures
        bound_step(reg, st, bound, impl_name, generics, where_clause) == (reg, Ok::<
            BoundTexts,
            MockError,
        >(st)),
{
}

/// A supertrait bound that names a registered trait `sb`, by the last segment
/// of its path, adds `sb`'s instance methods to the mock: its recorder fields,
/// their initialisers and accessors, all without a fallback object, and an impl
/// of `sb` that answers from them. `sb` stays registered, now under the path in
/// front of the bound's last segment when there is one.
pub proof fn law_registered_bound_implements(
    reg: Seq<TraitBlockView>,
    st: BoundTexts,
    p: PathModel,
    impl_name: Seq<char>,
    generics: Seq<char>,
    where_clause: Seq<char>,
    sb: TraitBlockView,
)
    requires
        p.segments@.len() > 0,
        registry_lookup(reg, p.segments@.last().ident@) == Some(sb),
    ensures
        ({
            let segs = p.segments@;
            let entry = if segs.len() > 1 {
                TraitBlockView {
                    package_path: tok_join(path_text(p.global, segs.drop_last()), "::"@),
                    ..sb
                }
            } else {
                sb
            };
            let (reg2, res) = bound_step(reg, st, BoundModel::Trait(p), impl_name, generics, where_clause);
            &&& registry_lookup(reg2, segs.last().ident@) == Some(entry)
            &&& res == match trait_fns_text(entry, false) {
                Err(e) => Err(e),
                Ok(base) => Ok(
                    BoundTexts {
                        mock_impl_methods: tok_join(st.mock_impl_methods, base.mock_impl_methods),
                        fields: tok_join(st.fields, base.fields),
                        ctor: tok_join(st.ctor, base.ctor),
                        derived_additions: tok_join(
                            st.derived_additions,
                            derived_impl_text(
                                entry.generics,
                                path_text(p.global, segs),
                                impl_name,
                                generics,
                                where_clause,
                                base.method_impls,
                            ),
                        ),
                    },
                ),
            }
        }),
{
    let key = p.segments@.last().ident@;
    lemma_find_last(reg, key);
    let i = find_last(reg, key);
    let reg2 = bound_step(reg, st, BoundModel::Trait(p), impl_name, generics, where_clause).0;
    lemma_update_keeps_names(reg, i, reg2[i], key);
}

/// A trait mocked earlier is implemented by the later mock of a trait whose
/// bound names it: the later mock gains the earlier trait's recorder fields,
/// their initialisers and their `method_`/`set_` accessors, all without a
/// fallback object, and an impl of the earlier trait that answers from them.
pub proof fn law_subtrait_implements_supertrait(
    sb: TraitBlockView,
    raw_s: Seq<char>,
    reg0: Seq<TraitBlockView>,
    tb: TraitBlockView,
    raw_t: Seq<char>,
    p: PathModel,
)
    requires
        trait_expansion(sb, raw_s, reg0).1 is Ok,
        tb.ty_bounds == seq![BoundModel::Trait(p)],
        p.segments@.len() == 1,
        p.segments@[0].ident@ == sb.trait_name,
        trait_fns_text(tb, !tb.impls_sized) is Ok,
        trait_fns_text(sb, false) is Ok,
    ensures
        ({
            let reg1 = trait_expansion(sb, raw_s, reg0).0;
            let f = trait_fns_text(tb, !tb.impls_sized)->Ok_0;
            let base = trait_fns_text(sb, false)->Ok_0;
            let (impl_name, mmn) = mock_names_text(tb.package_path, tb.trait_name);
            trait_expansion(tb, raw_t, reg1).1 == Ok::<Seq<char>, MockError>(
                trait_stream_text(
                    raw_t,
                    static_content_of(tb.trait_name, f),
                    tb.vis,
                    impl_name,
                    tb.generics,
                    tb.where_clause,
                    tok_join(f.fields, base.fields),
                    tok_join(f.mock_impl_methods, base.mock_impl_methods),
                    f.static_method_setup,
                    tok_join(f.ctor, base.ctor),
                    mock_method_body_text(tb.vis, mmn),
                    unsafety_text(tb.is_unsafe),
                    tb.trait_name,
                    f.method_impls,
                    f.static_method_impl,
                    tok_join(
                        Seq::empty(),
                        derived_impl_text(
                            sb.generics,
                            path_text(p.global, p.segments@),
                            impl_name,
                            tb.generics,
                            tb.where_clause,
                            base.method_impls,
                        ),
                    ),
                ),
            )
        }),
{
    law_mocked_trait_registered(sb, raw_s, reg0);
    let reg1 = trait_expansion(sb, raw_s, reg0).0;
    lemma_find_last(reg1, sb.trait_name);
    let f = trait_fns_text(tb, !tb.impls_sized)->Ok_0;
    let init = BoundTexts {
        mock_impl_methods: f.mock_impl_methods,
        fields: f.fields,
        ctor: f.ctor,
        derived_additions: Seq::empty(),
    };
    let (impl_name, _) = mock_names_text(tb.package_path, tb.trait_name);
    let bounds = tb.ty_bounds;
    assert(bounds.drop_last() =~= Seq::<BoundModel>::empty());
    assert(bounds.len() == 1 && bounds.last() == BoundModel::Trait(p));
    assert(bounds_fold(bounds.drop_last(), init, reg1, impl_name, tb.generics, tb.where_clause)
        == (reg1, Ok::<BoundTexts, MockError>(init)));
    assert(p.segments@.last() == p.segments@[0]);
    let i = find_last(reg1, sb.trait_name);
    assert(reg1.update(i, reg1[i]) =~= reg1);
    assert(bounds_fold(bounds, init, reg1, impl_name, tb.generics, tb.where_clause) == bound_step(
        reg1,
        init,
        BoundModel::Trait(p),
        impl_name,
        tb.generics,
        tb.where_clause,
    ));
}

/// Applying the attribute to an `extern` block, to an inherent implementation
/// or to another item that is no trait leaves the registry as it was.
pub proof fn law_non_trait_keeps_registry(item: ItemModel, reg: Seq<TraitBlockView>)
    requires
        item.kind is ForeignMod || item.kind is Other || item.kind matches ItemKindModel::Impl {
            trait_path: None,
            ..
        },
    ensures
        expansion(item, reg).0 == reg,
{
}

/// Every method is a static method or an instance method.
pub open spec fn all_instance(funcs: Seq<Function>) -> bool {
    forall|i: int| 0 <= i < funcs.len() ==> #[trigger] args_text(funcs[i].decl.inputs@).instance
}

/// A mock falls back on an object of the trait exactly when it may (its trait is
/// not `Sized`) and none of the trait's methods is static.
pub proof fn law_fallback_iff_no_static(
    funcs: Seq<Function>,
    trait_name: Seq<char>,
    mmn: Seq<char>,
    static_name: Seq<char>,
    allow0: bool,
)
    ensures
        fns_fold(funcs, trait_name, mmn, static_name, allow0) matches Ok(st) ==> st.allow_fallback
            == (allow0 && all_instance(funcs)),
    decreases funcs.len(),
{
    if funcs.len() > 0 {
        let rest = funcs.drop_last();
        law_fallback_iff_no_static(rest, trait_name, mmn, static_name, allow0);
        assert forall|i: int| 0 <= i < rest.len() implies rest[i] == funcs[i] by {}
        if all_instance(funcs) {
            assert(args_text(funcs[funcs.len() - 1].decl.inputs@).instance);
            assert(all_instance(rest)) by {
                assert forall|i: int| 0 <= i < rest.len() implies #[trigger] args_text(
                    rest[i].decl.inputs@,
                ).instance by {
                    assert(args_text(funcs[i].decl.inputs@).instance);
                }
            }
        } else {
            let k = choose|k: int|
                0 <= k < funcs.len() && !#[trigger] args_text(funcs[k].decl.inputs@).instance;
            if k < funcs.len() - 1 {
                assert(!args_text(rest[k].decl.inputs@).instance);
            }
        }
        if all_instance(rest) && args_text(funcs.last().decl.inputs@).instance {
            assert forall|i: int| 0 <= i < funcs.len() implies #[trigger] args_text(
                funcs[i].decl.inputs@,
            ).instance by {
                if i < funcs.len() - 1 {
                    assert(args_text(rest[i].decl.inputs@).instance);
                }
            }
        }
    }
}

/// The methods of a trait are refused exactly when one of them returns `Self`,
/// and then for that reason.
pub proof fn law_self_return_refused(
    funcs: Seq<Function>,
    trait_name: Seq<char>,
    mmn: Seq<char>,
    static_name: Seq<char>,
    allow0: bool,
)
    ensures
        fns_fold(funcs, trait_name, mmn, static_name, allow0) is Err <==> exists|i: int|
            0 <= i < funcs.len() && #[trigger] returns_self(funcs[i]),
        fns_fold(funcs, trait_name, mmn, static_name, allow0) is Err ==> fns_fold(
            funcs,
            trait_name,
            mmn,
            static_name,
            allow0,
        ) == Err::<FnsState, MockError>(MockError::SelfReturnType),
    decreases funcs.len(),
{
    if funcs.len() > 0 {
        let rest = funcs.drop_last();
        law_self_return_refused(rest, trait_name, mmn, static_name, allow0);
        if exists|i: int| 0 <= i < rest.len() && #[trigger] returns_self(rest[i]) {
            let i = choose|i: int| 0 <= i < rest.len() && #[trigger] returns_self(rest[i]);
            assert(returns_self(funcs[i]));
        }
        if exists|i: int| 0 <= i < funcs.len() && #[trigger] returns_self(funcs[i]) {
            let i = choose|i: int| 0 <= i < funcs.len() && #[trigger] returns_self(funcs[i]);
            if i < funcs.len() - 1 {
                assert(returns_self(rest[i]));
            }
        }
    }
}

/// Why an item of an `extern` block cannot be mocked, if it cannot.
pub open spec fn foreign_item_refused(item: ForeignItemModel) -> bool {
    match item.kind {
        ForeignItemKindModel::Static => true,
        ForeignItemKindModel::Fn { decl, n_ty_params, n_lifetimes } => decl.variadic || n_ty_params
            > 0 || n_lifetimes > 0,
    }
}

/// An `extern` block is refused exactly when it declares a static, a variadic
/// function, or a function with type or lifetime parameters.
pub proof fn law_foreign_refused(
    items: Seq<ForeignItemModel>,
    abi: Seq<char>,
    extern_name: Seq<char>,
    static_name: Seq<char>,
)
    ensures
        foreign_fold(items, abi, extern_name, static_name) is Err <==> exists|i: int|
            0 <= i < items.len() && #[trigger] foreign_item_refused(items[i]),
    decreases items.len(),
{
    if items.len() > 0 {
        let rest = items.drop_last();
        law_foreign_refused(rest, abi, extern_name, static_name);
        assert(items.last() == items[items.len() - 1]);
        if foreign_item_refused(items.last()) {
            assert(foreign_item_refused(items[items.len() - 1]));
        }
        if exists|i: int| 0 <= i < rest.len() && #[trigger] foreign_item_refused(rest[i]) {
            let i = choose|i: int| 0 <= i < rest.len() && #[trigger] foreign_item_refused(rest[i]);
            assert(foreign_item_refused(items[i]));
        }
        if exists|i: int| 0 <= i < items.len() && #[trigger] foreign_item_refused(items[i]) {
            let i = choose|i: int| 0 <= i < items.len() && #[trigger] foreign_item_refused(items[i]);
            if i < items.len() - 1 {
                assert(foreign_item_refused(rest[i]));
            }
        }
    }
}

/// Taking every quote out of a text leaves no quote.
proof fn lemma_remove_quotes(s: Seq<char>)
    ensures
        !remove_all(s, seq!['"']).contains('"'),
    decreases s.len(),
{
    if s.len() > 0 {
        lemma_remove_quotes(s.skip(1));
        if s[0] == '"' {
            assert(s.take(1) =~= seq!['"']);
        } else {
            let r = remove_all(s, seq!['"']);
            let tail = remove_all(s.skip(1), seq!['"']);
            if s.take(1) == seq!['"'] {
                assert(s.take(1)[0] == s[0]);
            }
            assert(r == seq![s[0]] + tail);
            assert forall|k: int| 0 <= k < r.len() implies r[k] != '"' by {
                if k > 0 {
                    assert(r[k] == tail[k - 1]);
                }
            }
        }
    }
}

/// The name that an `extern` block's ABI gives to its mocks holds no quote.
pub proof fn law_abi_name_unquoted(abi: AbiModel)
    ensures
        !abi_type_name(abi).contains('"'),
{
    reveal_strlit("\"");
    reveal_strlit("Rust");
    match abi {
        AbiModel::Named(name) => {
            lemma_remove_quotes(remove_all(name@, "extern"@));
            assert("\""@ =~= seq!['"']);
        },
        AbiModel::Rust => {
            let r = "Rust"@;
            assert(r =~= seq!['R', 'u', 's', 't']);
        },
    }
}

/// The decimal notation of a number has at least two digits from ten on.
proof fn lemma_decimal_len(n: nat)
    ensures
        decimal_text(n).len() >= 1,
        n >= 10 ==> decimal_text(n).len() >= 2,
    decreases n,
{
    if n >= 10 {
        lemma_decimal_len(n / 10);
    }
}

/// Different numbers have different decimal notations.
pub proof fn law_decimal_injective(a: nat, b: nat)
    requires
        a != b,
    ensures
        decimal_text(a) != decimal_text(b),
    decreases a + b,
{
    lemma_decimal_len(a);
    lemma_decimal_len(b);
    let da = decimal_text(a);
    let db = decimal_text(b);
    if da == db {
        assert(da.last() == db.last());
        if a < 10 && b < 10 {
            assert(digit_char(a) == digit_char(b));
            assert(((a + 48) as u8) as char == ((b + 48) as u8) as char);
        } else if a >= 10 && b >= 10 {
            assert(digit_char(a % 10) == digit_char(b % 10));
            assert(((a % 10 + 48) as u8) as char == ((b % 10 + 48) as u8) as char);
            assert(da.drop_last() =~= decimal_text(a / 10));
            assert(db.drop_last() =~= decimal_text(b / 10));
            assert(a / 10 != b / 10);
            law_decimal_injective(a / 10, b / 10);
        }
    }
}

/// The parameters of a mocked method are given different names.
pub proof fn law_arg_names_distinct(i: nat, j: nat)
    requires
        i != j,
    ensures
        arg_name(i) != arg_name(j),
{
    law_decimal_injective(i, j);
    reveal_strlit("_a");
    if arg_name(i) == arg_name(j) {
        assert(arg_name(i).skip(2) =~= decimal_text(i));
        assert(arg_name(j).skip(2) =~= decimal_text(j));
    }
}

/// Whether a parameter is `self` in some form.
pub open spec fn is_self_arg(a: FnArgModel) -> bool {
    a is SelfRef || a is SelfValue
}

/// A method is an instance method exactly when one of its parameters is `self`,
/// and takes `self` by value exactly when one of them is `self` by value.
pub proof fn law_instance_iff_self(inputs: Seq<FnArgModel>)
    ensures
        args_text(inputs).instance <==> exists|i: int|
            0 <= i < inputs.len() && #[trigger] is_self_arg(inputs[i]),
        args_text(inputs).owns_self <==> exists|i: int|
            0 <= i < inputs.len() && #[trigger] inputs[i] is SelfValue,
    decreases inputs.len(),
{
    if inputs.len() > 0 {
        let rest = inputs.drop_last();
        law_instance_iff_self(rest);
        assert(inputs.last() == inputs[inputs.len() - 1]);
        if is_self_arg(inputs.last()) {
            assert(is_self_arg(inputs[inputs.len() - 1]));
        }
        if inputs.last() is SelfValue {
            assert(inputs[inputs.len() - 1] is SelfValue);
        }
        if exists|i: int| 0 <= i < rest.len() && #[trigger] is_self_arg(rest[i]) {
            let i = choose|i: int| 0 <= i < rest.len() && #[trigger] is_self_arg(rest[i]);
            assert(is_self_arg(inputs[i]));
        }
        if exists|i: int| 0 <= i < inputs.len() && #[trigger] is_self_arg(inputs[i]) {
            let i = choose|i: int| 0 <= i < inputs.len() && #[trigger] is_self_arg(inputs[i]);
            if i < inputs.len() - 1 {
                assert(is_self_arg(rest[i]));
            }
        }
        if exists|i: int| 0 <= i < rest.len() && #[trigger] rest[i] is SelfValue {
            let i = choose|i: int| 0 <= i < rest.len() && #[trigger] rest[i] is SelfValue;
            assert(inputs[i] is SelfValue);
        }
        if exists|i: int| 0 <= i < inputs.len() && #[trigger] inputs[i] is SelfValue {
            let i = choose|i: int| 0 <= i < inputs.len() && #[trigger] inputs[i] is SelfValue;
            if i < inputs.len() - 1 {
                assert(rest[i] is SelfValue);
            }
        }
    }
}

/// The mutability that the first parameter `p` gives `self`.
pub open spec fn self_mutable(p: FnArgModel) -> bool {
    match p {
        FnArgModel::SelfRef { mutable, .. } => mutable,
        FnArgModel::SelfValue { mutable } => mutable,
        _ => false,
    }
}

/// The state of the parameters of a method whose first parameter is `self` in
/// some form, and no other one: an instance method, which owns `self` exactly
/// when it takes `self` by value, and with the mutability its `self` has.
proof fn lemma_args_self_first(inputs: Seq<FnArgModel>)
    requires
        inputs.len() > 0,
        is_self_arg(inputs[0]),
        forall|i: int| 1 <= i < inputs.len() ==> !is_self_arg(#[trigger] inputs[i]),
    ensures
        args_text(inputs).mutable == self_mutable(inputs[0]),
        args_text(inputs).instance,
        args_text(inputs).owns_self == inputs[0] is SelfValue,
    decreases inputs.len(),
{
    if inputs.len() > 1 {
        let rest = inputs.drop_last();
        assert(rest[0] == inputs[0]);
        assert forall|i: int| 1 <= i < rest.len() implies !is_self_arg(#[trigger] rest[i]) by {
            assert(rest[i] == inputs[i]);
        }
        lemma_args_self_first(rest);
        assert(!is_self_arg(inputs[inputs.len() - 1]));
        assert(inputs.last() == inputs[inputs.len() - 1]);
    } else {
        assert(inputs.drop_last().len() == 0);
        assert(args_text(inputs.drop_last()) == args_empty());
        assert(inputs.last() == inputs[0]);
    }
}

/// When the mock may fall back on an object of the trait, a method taking
/// `&mut self` borrows that object mutably (`let ref mut fallback = self .
/// fallback . as_mut ( )`), and a method taking `&self` borrows it shared
/// (`let ref fallback = self . fallback . as_ref ( )`), then calls the method
/// on it with the method's own arguments.
pub proof fn law_fallback_borrows_like_self(inputs: Seq<FnArgModel>, name: Seq<char>)
    requires
        inputs.len() > 0,
        inputs[0] is SelfRef,
        forall|i: int| 1 <= i < inputs.len() ==> !is_self_arg(#[trigger] inputs[i]),
    ensures
        inputs[0] matches FnArgModel::SelfRef { mutable, .. } ==> fallback_text(
            args_text(inputs),
            true,
            name,
        ) == object_fallback_text(
            if mutable {
                "mut"@
            } else {
                Seq::empty()
            },
            if mutable {
                ". as_mut ( )"@
            } else {
                ". as_ref ( )"@
            },
            name,
            args_text(inputs).names,
        ),
{
    lemma_args_self_first(inputs);
}

/// A method taking `self` by value never falls back through a borrow of the
/// fallback object: it gets the fallback for an owned `self`, whether or not
/// the mock may fall back.
pub proof fn law_owned_self_fallback(inputs: Seq<FnArgModel>, allow_fallback: bool, name: Seq<char>)
    requires
        inputs.len() > 0,
        inputs[0] is SelfValue,
        forall|i: int| 1 <= i < inputs.len() ==> !is_self_arg(#[trigger] inputs[i]),
    ensures
        fallback_text(args_text(inputs), allow_fallback, name) == owned_self_fallback_text(),
{
    lemma_args_self_first(inputs);
}

/// When the mock may not fall back (its trait is `Sized`, or has a static
/// method), a method borrowing `self` gets the fallback that refuses the call.
pub proof fn law_borrowed_self_without_fallback(inputs: Seq<FnArgModel>, name: Seq<char>)
    requires
        inputs.len() > 0,
        inputs[0] is SelfRef,
        forall|i: int| 1 <= i < inputs.len() ==> !is_self_arg(#[trigger] inputs[i]),
    ensures
        fallback_text(args_text(inputs), false, name) == disabled_fallback_text(),
{
    lemma_args_self_first(inputs);
}

} // verus!
