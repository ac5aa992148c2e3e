//! The parser and printer of Rust source (`syn`, `quote`), and the conversion of
//! what the parser returns into the plain values of `model`.
//!
//! Nothing here is proved: the functions below are trusted to do what their
//! contracts and doc comments say. Each converter takes one node of `syn`'s
//! syntax tree to its counterpart in `model`, one variant to one variant; token
//! text is what `quote`'s printer writes for the node.
use vstd::prelude::*;
use crate::model::{
    item_wf, AbiModel, BoundModel, FnArgModel, FnDeclModel, ForeignItemKindModel,
    ForeignItemModel, ForeignModModel, GenericsModel, ItemKindModel, ItemModel, PathModel,
    SegmentModel, TraitItemKindModel, TraitItemModel,
};

verus! {

#[verifier::external_type_specification]
#[verifier::external_body]
pub struct ExItem(syn::Item);

#[verifier::external_type_specification]
#[verifier::external_body]
pub struct ExItemKind(syn::ItemKind);

#[verifier::external_type_specification]
#[verifier::external_body]
pub struct ExUnsafety(syn::Unsafety);

#[verifier::external_type_specification]
#[verifier::external_body]
pub struct ExMutability(syn::Mutability);

#[verifier::external_type_specification]
#[verifier::external_body]
pub struct ExGenerics(syn::Generics);

#[verifier::external_type_specification]
#[verifier::external_body]
pub struct ExLifetimeDef(syn::LifetimeDef);

#[verifier::external_type_specification]
#[verifier::external_body]
pub struct ExTyParam(syn::TyParam);

#[verifier::external_type_specification]
#[verifier::external_body]
pub struct ExTyParamBound(syn::TyParamBound);

#[verifier::external_type_specification]
#[verifier::external_body]
pub struct ExPath(syn::Path);

#[verifier::external_type_specification]
#[verifier::external_body]
pub struct ExPathSegment(syn::PathSegment);

#[verifier::external_type_specification]
#[verifier::external_body]
pub struct ExTraitItem(syn::TraitItem);

#[verifier::external_type_specification]
#[verifier::external_body]
pub struct ExImplItem(syn::ImplItem);

#[verifier::external_type_specification]
#[verifier::external_body]
pub struct ExFnDecl(syn::FnDecl);

#[verifier::external_type_specification]
#[verifier::external_body]
pub struct ExFnArg(syn::FnArg);

#[verifier::external_type_specification]
#[verifier::external_body]
pub struct ExFunctionRetTy(syn::FunctionRetTy);

#[verifier::external_type_specification]
#[verifier::external_body]
pub struct ExForeignMod(syn::ForeignMod);

#[verifier::external_type_specification]
#[verifier::external_body]
pub struct ExForeignItem(syn::ForeignItem);

/// What `syn::parse_item` makes of the source text `src`, converted by the
/// converters below: the item, or the parser's error message.
pub uninterp spec fn parsed_item(src: Seq<char>) -> Result<ItemModel, String>;

/// The hexadecimal digit `d`, lower case.
pub open spec fn hex_digit(d: nat) -> char {
    if d < 10 {
        ((d + 48) as u8) as char
    } else {
        ((d + 87) as u8) as char
    }
}

/// The shortest hexadecimal notation of `n`, lower case.
pub open spec fn hex_text(n: nat) -> Seq<char>
    decreases n,
{
    if n < 16 {
        seq![hex_digit(n)]
    } else {
        hex_text(n / 16).push(hex_digit(n % 16))
    }
}

/// What `char::escape_default` writes for `c`: a backslash before tab, return,
/// newline, backslash and both quotes (`\t`, `\r`, `\n`); printable ASCII as it
/// is; every other character as `\u{..}` with its shortest hexadecimal code.
pub open spec fn escape_default_text(c: char) -> Seq<char> {
    if c == '\t' {
        seq!['\\', 't']
    } else if c == '\r' {
        seq!['\\', 'r']
    } else if c == '\n' {
        seq!['\\', 'n']
    } else if c == '\\' || c == '\'' || c == '"' {
        seq!['\\', c]
    } else if 0x20 <= (c as u32) <= 0x7e {
        seq![c]
    } else {
        seq!['\\', 'u', '{'] + hex_text(c as u32 as nat) + seq!['}']
    }
}

/// What `quote` writes for one character of a string: `\0` for NUL, a single
/// quote as it is, and otherwise what `char::escape_default` writes.
pub open spec fn quoted_char_text(c: char) -> Seq<char> {
    if c == '\0' {
        seq!['\\', '0']
    } else if c == '\'' {
        seq!['\'']
    } else {
        escape_default_text(c)
    }
}

/// The escaped characters of `s`, in order.
pub open spec fn quoted_chars(s: Seq<char>) -> Seq<char>
    decreases s.len(),
{
    if s.len() == 0 {
        Seq::empty()
    } else {
        quoted_char_text(s[0]) + quoted_chars(s.skip(1))
    }
}

/// What `quote` writes for the string `s` interpolated as a value: a string
/// literal between double quotes, each character escaped.
pub open spec fn str_literal_text(s: Seq<char>) -> Seq<char> {
    seq!['"'] + quoted_chars(s) + seq!['"']
}

/// Parses the source text of one item with `syn::parse_item` and converts the
/// result. The contract names the result; it also states that every path in the
/// result (a supertrait bound, the trait of an implementation) has a segment,
/// which `syn`'s grammar of paths
/// (`separated_nonempty_list!(punct!("::"), path_segment)`) guarantees.
#[verifier::external_body]
pub fn parse_item_source(src: &str) -> (res: Result<ItemModel, String>)
    ensures
        res == parsed_item(src@),
        res matches Ok(item) ==> item_wf(item),
{
    match syn::parse_item(src) {
        Ok(item) => Ok(convert_item(&item)),
        Err(e) => Err(e),
    }
}

/// Writes the string `s` as `quote` interpolates it (`<str as ToTokens>::to_tokens`
/// into empty tokens): the contract states the escaping of that impl, with
/// `char::escape_default` as its documentation describes it.
#[verifier::external_body]
pub fn str_literal_tokens(s: &str) -> (res: String)
    ensures
        res@ == str_literal_text(s@),
{
    let mut t = quote::Tokens::new();
    quote::ToTokens::to_tokens(s, &mut t);
    t.into_string()
}

/// Converts an item: its name, the token text of its visibility and of the whole
/// item, and its kind.
#[verifier::external_body]
fn convert_item(item: &syn::Item) -> ItemModel {
    let mut text = quote::Tokens::new();
    quote::ToTokens::to_tokens(item, &mut text);
    let mut vis = quote::Tokens::new();
    quote::ToTokens::to_tokens(&item.vis, &mut vis);
    ItemModel {
        ident: String::from(item.ident.as_ref()),
        vis: vis.into_string(),
        text: text.into_string(),
        kind: convert_item_kind(&item.node),
    }
}

/// Converts the kind of an item; kinds other than traits, implementations and
/// `extern` blocks are not looked into. Of an implementation the polarity and
/// the implementing type are not kept.
#[verifier::external_body]
fn convert_item_kind(kind: &syn::ItemKind) -> ItemKindModel {
    match *kind {
        syn::ItemKind::Trait(ref unsafety, ref generics, ref bounds, ref items) => {
            convert_trait(unsafety, generics, bounds, items)
        },
        syn::ItemKind::Impl(ref unsafety, _, ref generics, ref path, _, ref items) => {
            convert_impl(unsafety, generics, path, items)
        },
        syn::ItemKind::ForeignMod(ref fmod) => ItemKindModel::ForeignMod(convert_foreign_mod(fmod)),
        _ => ItemKindModel::Other,
    }
}

/// Converts the parts of a trait declaration.
#[verifier::external_body]
fn convert_trait(
    unsafety: &syn::Unsafety,
    generics: &syn::Generics,
    bounds: &Vec<syn::TyParamBound>,
    items: &Vec<syn::TraitItem>,
) -> ItemKindModel {
    ItemKindModel::Trait {
        is_unsafe: is_unsafe(unsafety),
        generics: convert_generics(generics),
        bounds: bounds.iter().map(convert_bound).collect(),
        items: items.iter().map(convert_trait_item).collect(),
    }
}

/// Converts the parts of an implementation block that are kept.
#[verifier::external_body]
fn convert_impl(
    unsafety: &syn::Unsafety,
    generics: &syn::Generics,
    path: &Option<syn::Path>,
    items: &Vec<syn::ImplItem>,
) -> ItemKindModel {
    ItemKindModel::Impl {
        is_unsafe: is_unsafe(unsafety),
        generics: convert_generics(generics),
        trait_path: path.as_ref().map(convert_path),
        items: items.iter().map(convert_impl_item).collect(),
    }
}

/// Tells `syn::Unsafety::Unsafe` from `syn::Unsafety::Normal`.
#[verifier::external_body]
fn is_unsafe(u: &syn::Unsafety) -> bool {
    match *u {
        syn::Unsafety::Unsafe => true,
        syn::Unsafety::Normal => false,
    }
}

/// Tells `syn::Mutability::Mutable` from `syn::Mutability::Immutable`.
#[verifier::external_body]
fn is_mutable(m: &syn::Mutability) -> bool {
    match *m {
        syn::Mutability::Mutable => true,
        syn::Mutability::Immutable => false,
    }
}

/// Converts generic parameters: the token text of each lifetime and type
/// parameter, and of the where clause.
#[verifier::external_body]
fn convert_generics(g: &syn::Generics) -> GenericsModel {
    let mut where_clause = quote::Tokens::new();
    quote::ToTokens::to_tokens(&g.where_clause, &mut where_clause);
    GenericsModel {
        lifetimes: g.lifetimes.iter().map(render_lifetime_def).collect(),
        ty_params: g.ty_params.iter().map(render_ty_param).collect(),
        where_clause: where_clause.into_string(),
    }
}

/// The token text of a lifetime parameter.
#[verifier::external_body]
fn render_lifetime_def(l: &syn::LifetimeDef) -> String {
    let mut t = quote::Tokens::new();
    quote::ToTokens::to_tokens(l, &mut t);
    t.into_string()
}

/// The token text of a type parameter.
#[verifier::external_body]
fn render_ty_param(p: &syn::TyParam) -> String {
    let mut t = quote::Tokens::new();
    quote::ToTokens::to_tokens(p, &mut t);
    t.into_string()
}

/// Converts a supertrait bound: the path of a trait bound (`?` or not), or a
/// lifetime bound.
#[verifier::external_body]
fn convert_bound(b: &syn::TyParamBound) -> BoundModel {
    match *b {
        syn::TyParamBound::Trait(ref poly, _) => BoundModel::Trait(convert_path(&poly.trait_ref)),
        syn::TyParamBound::Region(_) => BoundModel::Region,
    }
}

/// Converts a path: whether it starts with `::`, and its segments.
#[verifier::external_body]
fn convert_path(p: &syn::Path) -> PathModel {
    PathModel { global: p.global, segments: p.segments.iter().map(convert_segment).collect() }
}

/// Converts a path segment: its identifier and its token text.
#[verifier::external_body]
fn convert_segment(s: &syn::PathSegment) -> SegmentModel {
    let mut t = quote::Tokens::new();
    quote::ToTokens::to_tokens(s, &mut t);
    SegmentModel { ident: String::from(s.ident.as_ref()), text: t.into_string() }
}

/// Converts a trait item: its name, and for a method its declaration and
/// unsafety.
#[verifier::external_body]
fn convert_trait_item(item: &syn::TraitItem) -> TraitItemModel {
    let kind = match item.node {
        syn::TraitItemKind::Method(ref sig, _) => TraitItemKindModel::Method {
            decl: convert_fn_decl(&sig.decl),
            is_unsafe: is_unsafe(&sig.unsafety),
        },
        _ => TraitItemKindModel::Other,
    };
    TraitItemModel { ident: String::from(item.ident.as_ref()), kind }
}

/// Converts an item of an implementation: its name, and for a method its
/// declaration and unsafety.
#[verifier::external_body]
fn convert_impl_item(item: &syn::ImplItem) -> TraitItemModel {
    let kind = match item.node {
        syn::ImplItemKind::Method(ref sig, _) => TraitItemKindModel::Method {
            decl: convert_fn_decl(&sig.decl),
            is_unsafe: is_unsafe(&sig.unsafety),
        },
        _ => TraitItemKindModel::Other,
    };
    TraitItemModel { ident: String::from(item.ident.as_ref()), kind }
}

/// Converts a function declaration.
#[verifier::external_body]
fn convert_fn_decl(decl: &syn::FnDecl) -> FnDeclModel {
    FnDeclModel {
        inputs: decl.inputs.iter().map(convert_fn_arg).collect(),
        output: convert_ret_ty(&decl.output),
        variadic: decl.variadic,
    }
}

/// Converts a parameter; of a lifetime and of a type only the token text is kept.
#[verifier::external_body]
fn convert_fn_arg(arg: &syn::FnArg) -> FnArgModel {
    let mut t = quote::Tokens::new();
    match *arg {
        syn::FnArg::SelfRef(ref lifetime, ref m) => {
            quote::ToTokens::to_tokens(lifetime, &mut t);
            FnArgModel::SelfRef { lifetime: t.into_string(), mutable: is_mutable(m) }
        },
        syn::FnArg::SelfValue(ref m) => FnArgModel::SelfValue { mutable: is_mutable(m) },
        syn::FnArg::Captured(_, ref ty) => {
            quote::ToTokens::to_tokens(ty, &mut t);
            FnArgModel::Captured { ty: t.into_string() }
        },
        syn::FnArg::Ignored(_) => FnArgModel::Ignored,
    }
}

/// Converts a return type: `None` when none is written, else its token text.
#[verifier::external_body]
fn convert_ret_ty(output: &syn::FunctionRetTy) -> Option<String> {
    match *output {
        syn::FunctionRetTy::Default => None,
        syn::FunctionRetTy::Ty(ref ty) => {
            let mut t = quote::Tokens::new();
            quote::ToTokens::to_tokens(ty, &mut t);
            Some(t.into_string())
        },
    }
}

/// Converts an `extern` block: its ABI and its items.
#[verifier::external_body]
fn convert_foreign_mod(fmod: &syn::ForeignMod) -> ForeignModModel {
    let abi = match fmod.abi {
        syn::Abi::Named(ref name) => AbiModel::Named(name.clone()),
        syn::Abi::Rust => AbiModel::Rust,
    };
    ForeignModModel { abi, items: fmod.items.iter().map(convert_foreign_item).collect() }
}

/// Converts an item of an `extern` block: its name, the token text of its
/// visibility, and for a function its declaration and numbers of type and
/// lifetime parameters.
#[verifier::external_body]
fn convert_foreign_item(item: &syn::ForeignItem) -> ForeignItemModel {
    let mut vis = quote::Tokens::new();
    quote::ToTokens::to_tokens(&item.vis, &mut vis);
    let kind = match item.node {
        syn::ForeignItemKind::Fn(ref decl, ref g) => ForeignItemKindModel::Fn {
            decl: convert_fn_decl(decl),
            n_ty_params: g.ty_params.len(),
            n_lifetimes: g.lifetimes.len(),
        },
        syn::ForeignItemKind::Static(..) => ForeignItemKindModel::Static,
    };
    ForeignItemModel { ident: String::from(item.ident.as_ref()), vis: vis.into_string(), kind }
}

} // verus!
