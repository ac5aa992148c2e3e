//! The declarations that the generator reads, held as plain values.
//!
//! Token fragments that are only copied into the output (types, lifetimes,
//! visibilities, where clauses, whole items) are kept as the token text that the
//! parser printed for them.
use vstd::prelude::*;

verus! {

/// One segment of a path: its identifier, and its whole token text
/// (identifier and generic arguments).
pub struct SegmentModel {
    pub ident: String,
    pub text: String,
}

/// A path such as `::a::b::Trait<T>`.
pub struct PathModel {
    pub global: bool,
    pub segments: Vec<SegmentModel>,
}

/// A bound in a trait's supertrait list.
pub enum BoundModel {
    /// A trait bound, `?` or not, given by the path of the trait.
    Trait(PathModel),
    /// A lifetime bound.
    Region,
}

/// The generic parameters of a trait, each as token text.
pub struct GenericsModel {
    pub lifetimes: Vec<String>,
    pub ty_params: Vec<String>,
    pub where_clause: String,
}

/// One parameter of a function declaration.
pub enum FnArgModel {
    /// `&'a mut self`; `lifetime` is the lifetime's token text, empty when absent.
    SelfRef { lifetime: String, mutable: bool },
    /// `mut self`.
    SelfValue { mutable: bool },
    /// `pattern: Type`, of which the type's token text is kept.
    Captured { ty: String },
    /// A parameter given by its type alone.
    Ignored,
}

/// A function declaration: parameters, return type (`None` for none written)
/// and whether it ends in `...`.
pub struct FnDeclModel {
    pub inputs: Vec<FnArgModel>,
    pub output: Option<String>,
    pub variadic: bool,
}

/// What an item of a trait declaration or of an implementation is.
pub enum TraitItemKindModel {
    Method { decl: FnDeclModel, is_unsafe: bool },
    Other,
}

/// An item of a trait declaration or of an implementation.
pub struct TraitItemModel {
    pub ident: String,
    pub kind: TraitItemKindModel,
}

/// The ABI of an `extern` block: `extern "name"` or plain `extern`.
pub enum AbiModel {
    Named(String),
    Rust,
}

/// What an item of an `extern` block is.
pub enum ForeignItemKindModel {
    /// A function, with the numbers of its type and lifetime parameters.
    Fn { decl: FnDeclModel, n_ty_params: usize, n_lifetimes: usize },
    Static,
}

/// An item of an `extern` block; `vis` is the token text of its visibility.
pub struct ForeignItemModel {
    pub ident: String,
    pub vis: String,
    pub kind: ForeignItemKindModel,
}

/// An `extern` block.
pub struct ForeignModModel {
    pub abi: AbiModel,
    pub items: Vec<ForeignItemModel>,
}

/// What an item is.
pub enum ItemKindModel {
    Trait {
        is_unsafe: bool,
        generics: GenericsModel,
        bounds: Vec<BoundModel>,
        items: Vec<TraitItemModel>,
    },
    /// An implementation block, with the path of the trait it implements
    /// (`None` for an inherent implementation) and its items.
    Impl {
        is_unsafe: bool,
        generics: GenericsModel,
        trait_path: Option<PathModel>,
        items: Vec<TraitItemModel>,
    },
    ForeignMod(ForeignModModel),
    Other,
}

/// An item handed to the attribute: its name, the token text of its visibility,
/// the token text of the whole item, and its kind.
pub struct ItemModel {
    pub ident: String,
    pub vis: String,
    pub text: String,
    pub kind: ItemKindModel,
}

/// A path has at least one segment.
pub open spec fn path_wf(p: PathModel) -> bool {
    p.segments@.len() > 0
}

/// Every trait bound in `bounds` has a path with at least one segment.
pub open spec fn bounds_wf(bounds: Seq<BoundModel>) -> bool {
    forall|i: int|
        0 <= i < bounds.len() ==> (#[trigger] bounds[i] matches BoundModel::Trait(p) ==> path_wf(
            p,
        ))
}

/// An item as the parser produces it: every path has a segment.
pub open spec fn item_wf(item: ItemModel) -> bool {
    match item.kind {
        ItemKindModel::Trait { bounds, .. } => bounds_wf(bounds@),
        ItemKindModel::Impl { trait_path: Some(p), .. } => path_wf(p),
        _ => true,
    }
}

/// A method of a trait to mock: its name, declaration and unsafety.
pub struct Function {
    pub name: String,
    pub decl: FnDeclModel,
    pub is_unsafe: bool,
}

/// A trait to mock, with the token text the generator reuses.
pub struct TraitBlock {
    pub trait_name: String,
    pub vis: String,
    pub generics: String,
    pub where_clause: String,
    pub funcs: Vec<Function>,
    pub ty_bounds: Vec<BoundModel>,
    pub is_unsafe: bool,
    pub package_path: String,
    pub impls_sized: bool,
}

/// What the attribute was applied to.
pub enum Mockable {
    ForeignFunctions(ForeignModModel),
    Trait(TraitBlock),
}

/// Why no mock could be generated.
pub enum MockError {
    /// The source handed to the attribute does not parse as an item.
    Parse(String),
    /// The item is neither a trait, an implementation of a trait, nor an `extern`
    /// block.
    NotMockable,
    /// A trait method returns `Self`.
    SelfReturnType,
    /// A foreign function is variadic.
    VariadicForeignFunction,
    /// A foreign function has type or lifetime parameters.
    GenericForeignFunction,
    /// An `extern` block declares a static.
    ForeignStatic,
}

impl MockError {
    /// The message the attribute fails with.
    pub open spec fn message_text(&self) -> Seq<char> {
        match self {
            MockError::Parse(e) => e@,
            MockError::NotMockable => "#[mock] must be applied to a trait declaration OR a extern block."@,
            MockError::SelfReturnType => "Impls with the 'Self' return type are not supported. This is due to the fact that we generate an impl of your trait for a Mock struct. Methods that return Self will return an instance on our mock struct, not YOUR struct, which is not what you want."@,
            MockError::VariadicForeignFunction => "Mocking variadic functions not yet supported. This will be added in the future."@,
            MockError::GenericForeignFunction => "Mocking extern functions with generics/lifetimes not yet supported."@,
            MockError::ForeignStatic => "Mocking statics not yet supported."@,
        }
    }

    /// The message the attribute fails with: the parser's message for source
    /// that does not parse, else a sentence that says what is not supported.
    pub fn message(&self) -> (res: String)
        ensures
            res@ == self.message_text(),
    {
        match self {
            MockError::Parse(e) => e.clone(),
            MockError::NotMockable => String::from_str("#[mock] must be applied to a trait declaration OR a extern block."),
            MockError::SelfReturnType => String::from_str("Impls with the 'Self' return type are not supported. This is due to the fact that we generate an impl of your trait for a Mock struct. Methods that return Self will return an instance on our mock struct, not YOUR struct, which is not what you want."),
            MockError::VariadicForeignFunction => String::from_str("Mocking variadic functions not yet supported. This will be added in the future."),
            MockError::GenericForeignFunction => String::from_str("Mocking extern functions with generics/lifetimes not yet supported."),
            MockError::ForeignStatic => String::from_str("Mocking statics not yet supported."),
        }
    }
}

} // verus!
