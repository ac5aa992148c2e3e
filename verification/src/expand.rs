//! The attribute itself: what is mocked, and the expansion that replaces the
//! item.
use vstd::prelude::*;
use crate::foreign::{foreign_expansion, parse_foreign_functions};
use crate::model::{
    bounds_wf, item_wf, path_wf, BoundModel, ForeignModModel, Function, GenericsModel,
    ItemKindModel, ItemModel, MockError, Mockable, TraitBlock, TraitItemKindModel,
    TraitItemModel,
};
use crate::registry::BoundsRegistry;
use crate::syntax::{parse_item_source, parsed_item};
use crate::templates::{expansion_text, expansion_tokens};
use crate::tokens::{append_tokens, tok_join};
use crate::traits::{parse_trait, text_result_view, trait_expansion, TraitBlockView};

verus! {

/// `acc` followed by each of `items`, each followed by a comma.
pub open spec fn comma_list_text(acc: Seq<char>, items: Seq<String>) -> Seq<char>
    decreases items.len(),
{
    if items.len() == 0 {
        acc
    } else {
        tok_join(comma_list_text(acc, items.drop_last()), tok_join(items.last()@, ","@))
    }
}

/// The token text of the generic parameters of a trait, between `<` and `>`:
/// the lifetimes, then the type parameters, each followed by a comma.
pub open spec fn generics_text(g: GenericsModel) -> Seq<char> {
    tok_join(
        tok_join("<"@, comma_list_text(comma_list_text(Seq::empty(), g.lifetimes@), g.ty_params@)),
        ">"@,
    )
}

/// Whether `b` is a trait bound whose path ends in `Sized`.
pub open spec fn bound_is_sized(b: BoundModel) -> bool {
    match b {
        BoundModel::Trait(p) => p.segments@.last().ident@ == "Sized"@,
        BoundModel::Region => false,
    }
}

/// Whether one of `bounds` is a trait whose path ends in `Sized`.
pub open spec fn bounds_sized(bounds: Seq<BoundModel>) -> bool {
    exists|i: int| 0 <= i < bounds.len() && #[trigger] bound_is_sized(bounds[i])
}

/// The methods among the trait items `items`, in order.
pub open spec fn methods_of(items: Seq<TraitItemModel>) -> Seq<Function>
    decreases items.len(),
{
    if items.len() == 0 {
        Seq::empty()
    } else {
        let rest = methods_of(items.drop_last());
        match items.last().kind {
            TraitItemKindModel::Method { decl, is_unsafe } => rest.push(
                Function { name: items.last().ident, decl, is_unsafe },
            ),
            TraitItemKindModel::Other => rest,
        }
    }
}

/// The value of a [`Mockable`].
pub enum MockableView {
    ForeignFunctions(ForeignModModel),
    Trait(TraitBlockView),
}

/// The value of a result of [`parse_block`].
pub open spec fn mockable_result_view(r: Result<Mockable, MockError>) -> Result<
    MockableView,
    MockError,
> {
    match r {
        Ok(Mockable::ForeignFunctions(f)) => Ok(MockableView::ForeignFunctions(f)),
        Ok(Mockable::Trait(b)) => Ok(MockableView::Trait(b@)),
        Err(e) => Err(e),
    }
}

/// What the item `item` gives to mock: its `extern` block; a trait with its
/// name, visibility, generic parameters, methods and supertrait bounds; or, for
/// an implementation of a trait, that trait, named by the last segment of its
/// path, with the implementation's generic parameters and methods and no bounds.
/// An inherent implementation and any other item are refused.
pub open spec fn block_of(item: ItemModel) -> Result<MockableView, MockError> {
    match item.kind {
        ItemKindModel::Trait { is_unsafe, generics, bounds, items } => Ok(
            MockableView::Trait(
                block_view(
                    item.ident@,
                    item.vis@,
                    is_unsafe,
                    generics,
                    bounds@,
                    items@,
                    bounds_sized(bounds@),
                ),
            ),
        ),
        ItemKindModel::Impl { is_unsafe, generics, trait_path, items } => match trait_path {
            Some(p) => Ok(
                MockableView::Trait(
                    block_view(
                        p.segments@.last().ident@,
                        item.vis@,
                        is_unsafe,
                        generics,
                        Seq::empty(),
                        items@,
                        false,
                    ),
                ),
            ),
            None => Err(MockError::NotMockable),
        },
        ItemKindModel::ForeignMod(f) => Ok(MockableView::ForeignFunctions(f)),
        ItemKindModel::Other => Err(MockError::NotMockable),
    }
}

/// Appends each of `items`, each followed by a comma.
fn append_comma_list(acc: &mut String, items: &Vec<String>)
    ensures
        final(acc)@ == comma_list_text(old(acc)@, items@),
{
    let ghost acc0 = acc@;
    let mut i: usize = 0;
    assert(items@.take(0) =~= Seq::<String>::empty());
    while i < items.len()
        invariant
            i <= items@.len(),
            acc@ == comma_list_text(acc0, items@.take(i as int)),
        decreases items@.len() - i,
    {
        assert(items@.take(i + 1).drop_last() =~= items@.take(i as int));
        let mut entry = String::from_str(items[i].as_str());
        append_tokens(&mut entry, ",");
        append_tokens(acc, entry.as_str());
        i = i + 1;
    }
    assert(items@.take(i as int) =~= items@);
}

/// Whether one of `bounds` is a trait whose path ends in `Sized`.
fn find_sized(bounds: &Vec<BoundModel>) -> (res: bool)
    requires
        bounds_wf(bounds@),
    ensures
        res == bounds_sized(bounds@),
{
    let sized = String::from_str("Sized");
    let mut res = false;
    let mut i: usize = 0;
    while i < bounds.len()
        invariant
            i <= bounds@.len(),
            bounds_wf(bounds@),
            sized@ == "Sized"@,
            res == exists|j: int| 0 <= j < i && #[trigger] bound_is_sized(bounds@[j]),
        decreases bounds@.len() - i,
    {
        let ghost prev = res;
        if let BoundModel::Trait(path) = &bounds[i] {
            assert(bounds@[i as int] matches BoundModel::Trait(p) ==> path_wf(p));
            let n = path.segments.len();
            assert(path.segments@.last() == path.segments@[n - 1]);
            if path.segments[n - 1].ident == sized {
                res = true;
            }
        }
        assert(res == (prev || bound_is_sized(bounds@[i as int])));
        i = i + 1;
    }
    res
}

/// The methods among the trait items `items`, in order.
fn collect_methods(items: Vec<TraitItemModel>) -> (res: Vec<Function>)
    ensures
        res@ == methods_of(items@),
{
    let ghost orig = items@;
    let mut items = items;
    let mut funcs: Vec<Function> = Vec::new();
    let mut i: usize = 0;
    let n = items.len();
    assert(orig.skip(0) =~= orig);
    while i < n
        invariant
            n == orig.len(),
            i <= n,
            items@ == orig.skip(i as int),
            funcs@ == methods_of(orig.take(i as int)),
        decreases n - i,
    {
        assert(orig.take(i + 1).drop_last() =~= orig.take(i as int));
        assert(orig.take(i + 1).last() == orig[i as int]);
        let item = items.remove(0);
        assert(items@ =~= orig.skip(i + 1));
        match item.kind {
            TraitItemKindModel::Method { decl, is_unsafe } => {
                funcs.push(Function { name: item.ident, decl, is_unsafe });
            },
            TraitItemKindModel::Other => {},
        }
        i = i + 1;
    }
    assert(orig.take(n as int) =~= orig);
    funcs
}

/// The trait `trait_name` to mock, with its visibility, unsafety, generic
/// parameters, supertrait bounds, the methods among `items`, and whether it is
/// `Sized`.
pub open spec fn block_view(
    trait_name: Seq<char>,
    vis: Seq<char>,
    is_unsafe: bool,
    generics: GenericsModel,
    bounds: Seq<BoundModel>,
    items: Seq<TraitItemModel>,
    impls_sized: bool,
) -> TraitBlockView {
    TraitBlockView {
        trait_name,
        vis,
        generics: generics_text(generics),
        where_clause: generics.where_clause@,
        funcs: methods_of(items),
        ty_bounds: bounds,
        is_unsafe,
        package_path: Seq::empty(),
        impls_sized,
    }
}

/// Builds the trait to mock.
fn new_block(
    trait_name: String,
    vis: String,
    is_unsafe: bool,
    generics: GenericsModel,
    bounds: Vec<BoundModel>,
    items: Vec<TraitItemModel>,
    impls_sized: bool,
) -> (res: TraitBlock)
    ensures
        res@ == block_view(trait_name@, vis@, is_unsafe, generics, bounds@, items@, impls_sized),
        res.ty_bounds@ == bounds@,
{
    let mut generic_tokens = String::new();
    append_comma_list(&mut generic_tokens, &generics.lifetimes);
    append_comma_list(&mut generic_tokens, &generics.ty_params);
    let mut generics_text = String::from_str("<");
    append_tokens(&mut generics_text, generic_tokens.as_str());
    append_tokens(&mut generics_text, ">");
    let funcs = collect_methods(items);
    let GenericsModel { lifetimes: _, ty_params: _, where_clause } = generics;
    TraitBlock {
        trait_name,
        vis,
        generics: generics_text,
        where_clause,
        funcs,
        ty_bounds: bounds,
        is_unsafe,
        package_path: String::new(),
        impls_sized,
    }
}

/// Reads what the attribute was applied to: a trait, an implementation of a
/// trait, or an `extern` block; any other item is refused.
pub fn parse_block(item: ItemModel) -> (res: Result<Mockable, MockError>)
    requires
        item_wf(item),
    ensures
        mockable_result_view(res) == block_of(item),
        res matches Ok(Mockable::Trait(b)) ==> bounds_wf(b.ty_bounds@),
{
    let ItemModel { ident, vis, text: _, kind } = item;
    match kind {
        ItemKindModel::Trait { is_unsafe, generics, bounds, items } => {
            let impls_sized = find_sized(&bounds);
            Ok(Mockable::Trait(new_block(ident, vis, is_unsafe, generics, bounds, items, impls_sized)))
        },
        ItemKindModel::Impl { is_unsafe, generics, trait_path, items } => match trait_path {
            Some(path) => {
                let n = path.segments.len();
                let trait_name = path.segments[n - 1].ident.clone();
                assert(path.segments@.last() == path.segments@[n - 1]);
                let bounds: Vec<BoundModel> = Vec::new();
                assert(bounds_wf(bounds@));
                Ok(Mockable::Trait(new_block(trait_name, vis, is_unsafe, generics, bounds, items, false)))
            },
            None => Err(MockError::NotMockable),
        },
        ItemKindModel::ForeignMod(fmod) => Ok(Mockable::ForeignFunctions(fmod)),
        ItemKindModel::Other => Err(MockError::NotMockable),
    }
}

/// The registry after the attribute is applied to `item`, and the token text
/// that replaces the item, or why there is none.
pub open spec fn expansion(item: ItemModel, reg: Seq<TraitBlockView>) -> (
    Seq<TraitBlockView>,
    Result<Seq<char>, MockError>,
) {
    let raw = item.text@;
    match block_of(item) {
        Err(e) => (reg, Err(e)),
        Ok(MockableView::ForeignFunctions(f)) => match foreign_expansion(f) {
            Err(e) => (reg, Err(e)),
            Ok(s) => (reg, Ok(expansion_text(s, raw))),
        },
        Ok(MockableView::Trait(b)) => {
            let (reg2, res) = trait_expansion(b, raw, reg);
            match res {
                Err(e) => (reg2, Err(e)),
                Ok(s) => (reg2, Ok(expansion_text(s, raw))),
            }
        },
    }
}

/// Applies the attribute to `item`: the item followed, in test builds, by its
/// mock. Mocked traits are registered in `registry`.
pub fn expand_item(item: ItemModel, registry: &mut BoundsRegistry) -> (res: Result<
    String,
    MockError,
>)
    requires
        item_wf(item),
    ensures
        (final(registry)@, text_result_view(res)) == expansion(item, old(registry)@),
{
    let raw_item = item.text.clone();
    let stream = match parse_block(item) {
        Err(e) => {
            return Err(e);
        },
        Ok(Mockable::ForeignFunctions(fmod)) => match parse_foreign_functions(
            &fmod,
            raw_item.as_str(),
        ) {
            Err(e) => {
                return Err(e);
            },
            Ok(s) => s,
        },
        Ok(Mockable::Trait(trait_block)) => match parse_trait(
            trait_block,
            raw_item.as_str(),
            registry,
        ) {
            Err(e) => {
                return Err(e);
            },
            Ok(s) => s,
        },
    };
    Ok(expansion_tokens(stream.as_str(), raw_item.as_str()))
}

/// The registry after the attribute is applied to the source text `src`, and the
/// token text that replaces it, or why there is none.
pub open spec fn source_expansion(src: Seq<char>, reg: Seq<TraitBlockView>) -> (
    Seq<TraitBlockView>,
    Result<Seq<char>, MockError>,
) {
    match parsed_item(src) {
        Err(e) => (reg, Err(MockError::Parse(e))),
        Ok(item) => expansion(item, reg),
    }
}

/// The attribute `#[mock]`, from the source text of the item it is applied to
/// to the source text that replaces the item. The attribute's own arguments are
/// not read.
pub fn mock(_attr: &str, item: &str, registry: &mut BoundsRegistry) -> (res: Result<
    String,
    MockError,
>)
    ensures
        (final(registry)@, text_result_view(res)) == source_expansion(item@, old(registry)@),
{
    match parse_item_source(item) {
        Err(e) => Err(MockError::Parse(e)),
        Ok(parsed) => expand_item(parsed, registry),
    }
}

} // verus!
