//! Mocks of the functions of an `extern` block.
use vstd::prelude::*;
use crate::args::{
    args_text, make_return_tokens, parse_args, parse_return_type, return_tokens_text,
    return_type_text,
};
use crate::model::{AbiModel, ForeignItemKindModel, ForeignItemModel, ForeignModModel, MockError};
use crate::syntax::{str_literal_text, str_literal_tokens};
use crate::templates::{
    extern_init_text, extern_init_tokens, extern_result_text, extern_result_tokens,
    foreign_fn_text, foreign_fn_tokens, generate_mock_method_body, mock_method_body_text,
};
use crate::tokens::{append_tokens, concat_idents, remove_all, remove_occurrences, tok_join};
use crate::traits::{make_mut_static, mut_static_full_text, text_result_view};

verus! {

/// The name that the ABI of an `extern` block gives to its mocks: the ABI's name
/// with `extern` and quotes taken out, or `Rust`.
pub open spec fn abi_type_name(abi: AbiModel) -> Seq<char> {
    match abi {
        AbiModel::Named(name) => remove_all(remove_all(name@, "extern"@), "\""@),
        AbiModel::Rust => "Rust"@,
    }
}

/// The token text of the ABI of the mocked functions.
pub open spec fn abi_text(abi: AbiModel) -> Seq<char> {
    match abi {
        AbiModel::Named(name) => tok_join("extern"@, str_literal_text(name@)),
        AbiModel::Rust => "extern"@,
    }
}

/// The name of the struct of recorder slots of an `extern` block.
pub open spec fn extern_name_text(abi: AbiModel) -> Seq<char> {
    "Extern"@ + abi_type_name(abi) + "Mocks"@
}

/// What has been emitted for the functions of an `extern` block so far.
pub struct ForeignState {
    pub result: Seq<char>,
    pub ctor_args: Seq<char>,
    pub defs: Seq<char>,
}

/// The state after the item `item`, or why it cannot be mocked.
pub open spec fn foreign_step(
    st: ForeignState,
    item: ForeignItemModel,
    abi: Seq<char>,
    extern_name: Seq<char>,
    static_name: Seq<char>,
) -> Result<ForeignState, MockError> {
    match item.kind {
        ForeignItemKindModel::Static => Err(MockError::ForeignStatic),
        ForeignItemKindModel::Fn { decl, n_ty_params, n_lifetimes } => {
            if decl.variadic {
                Err(MockError::VariadicForeignFunction)
            } else if n_ty_params > 0 || n_lifetimes > 0 {
                Err(MockError::GenericForeignFunction)
            } else {
                let a = args_text(decl.inputs@);
                let rt = return_type_text(decl.output);
                let r = return_tokens_text(rt.0, rt.1);
                let base = item.ident@;
                let name = "Method_"@ + base;
                let name_lc = "method_"@ + base;
                Ok(
                    ForeignState {
                        ctor_args: tok_join(tok_join(st.ctor_args, name_lc), ": None ,"@),
                        defs: tok_join(
                            tok_join(
                                tok_join(
                                    tok_join(
                                        tok_join(tok_join(st.defs, name_lc), ": Option <"@),
                                        name,
                                    ),
                                    "<"@,
                                ),
                                rt.1,
                            ),
                            ">> ,"@,
                        ),
                        result: foreign_fn_text(
                            st.result,
                            mock_method_body_text("pub"@, name),
                            extern_name,
                            name_lc,
                            name,
                            rt.1,
                            "set_"@ + base,
                            static_name,
                            "clear_"@ + base,
                            item.vis@,
                            abi,
                            base,
                            a.with_types,
                            r.0,
                            r.2,
                            r.1,
                        ),
                    },
                )
            }
        },
    }
}

/// The state after the items `items`, or why the first refused one cannot be
/// mocked.
pub open spec fn foreign_fold(
    items: Seq<ForeignItemModel>,
    abi: Seq<char>,
    extern_name: Seq<char>,
    static_name: Seq<char>,
) -> Result<ForeignState, MockError>
    decreases items.len(),
{
    if items.len() == 0 {
        Ok(ForeignState { result: Seq::empty(), ctor_args: Seq::empty(), defs: Seq::empty() })
    } else {
        match foreign_fold(items.drop_last(), abi, extern_name, static_name) {
            Err(e) => Err(e),
            Ok(st) => foreign_step(st, items.last(), abi, extern_name, static_name),
        }
    }
}

/// Once an item is refused, so is the block.
pub proof fn lemma_foreign_fold_err(
    items: Seq<ForeignItemModel>,
    k: int,
    abi: Seq<char>,
    extern_name: Seq<char>,
    static_name: Seq<char>,
)
    requires
        0 <= k <= items.len(),
        foreign_fold(items.take(k), abi, extern_name, static_name) is Err,
    ensures
        foreign_fold(items, abi, extern_name, static_name) == foreign_fold(
            items.take(k),
            abi,
            extern_name,
            static_name,
        ),
    decreases items.len() - k,
{
    if k < items.len() {
        assert(items.take(k + 1).drop_last() =~= items.take(k));
        lemma_foreign_fold_err(items, k + 1, abi, extern_name, static_name);
    } else {
        assert(items.take(k) =~= items);
    }
}

/// The token text of the mocks of the functions of an `extern` block, or why
/// there is none.
pub open spec fn foreign_expansion(fmod: ForeignModModel) -> Result<Seq<char>, MockError> {
    let extern_name = extern_name_text(fmod.abi);
    let static_name = "Static"@ + extern_name;
    match foreign_fold(fmod.items@, abi_text(fmod.abi), extern_name, static_name) {
        Err(e) => Err(e),
        Ok(st) => Ok(
            extern_result_text(
                extern_name,
                st.defs,
                mut_static_full_text(static_name, extern_name, extern_init_text(extern_name, st.ctor_args)),
                st.result,
            ),
        ),
    }
}

/// Emits the mocks of the functions of an `extern` block: a recorder slot for
/// each function and an exported function of the same name that answers from it.
pub fn parse_foreign_functions(func_block: &ForeignModModel, _raw_block: &str) -> (res: Result<
    String,
    MockError,
>)
    ensures
        text_result_view(res) == foreign_expansion(*func_block),
{
    let (abi, abi_name) = match &func_block.abi {
        AbiModel::Named(name) => {
            let mut abi = String::from_str("extern");
            let lit = str_literal_tokens(name.as_str());
            append_tokens(&mut abi, lit.as_str());
            let stripped = remove_occurrences(name.as_str(), "extern");
            (abi, remove_occurrences(stripped.as_str(), "\""))
        },
        AbiModel::Rust => (String::from_str("extern"), String::from_str("Rust")),
    };
    let mut extern_name = concat_idents("Extern", abi_name.as_str());
    extern_name.append("Mocks");
    let static_name = concat_idents("Static", extern_name.as_str());
    let mut result = String::new();
    let mut ctor_args = String::new();
    let mut defs = String::new();
    let ghost items = func_block.items@;
    let mut i: usize = 0;
    assert(items.take(0) =~= Seq::<ForeignItemModel>::empty());
    while i < func_block.items.len()
        invariant
            items == func_block.items@,
            abi@ == abi_text(func_block.abi),
            extern_name@ == extern_name_text(func_block.abi),
            static_name@ == "Static"@ + extern_name@,
            i <= items.len(),
            foreign_fold(items.take(i as int), abi@, extern_name@, static_name@) == Ok::<
                ForeignState,
                MockError,
            >(ForeignState { result: result@, ctor_args: ctor_args@, defs: defs@ }),
        decreases items.len() - i,
    {
        assert(items.take(i + 1).drop_last() =~= items.take(i as int));
        assert(items.take(i + 1).last() == items[i as int]);
        let item = &func_block.items[i];
        match &item.kind {
            ForeignItemKindModel::Static => {
                proof {
                    lemma_foreign_fold_err(items, i + 1, abi@, extern_name@, static_name@);
                }
                return Err(MockError::ForeignStatic);
            },
            ForeignItemKindModel::Fn { decl, n_ty_params, n_lifetimes } => {
                if decl.variadic {
                    proof {
                        lemma_foreign_fold_err(items, i + 1, abi@, extern_name@, static_name@);
                    }
                    return Err(MockError::VariadicForeignFunction);
                }
                if *n_ty_params > 0 || *n_lifetimes > 0 {
                    proof {
                        lemma_foreign_fold_err(items, i + 1, abi@, extern_name@, static_name@);
                    }
                    return Err(MockError::GenericForeignFunction);
                }
                let fn_args = parse_args(&decl.inputs);
                let (no_return, return_type) = parse_return_type(&decl.output);
                let base_name = item.ident.as_str();
                let name = concat_idents("Method_", base_name);
                let name_lc = concat_idents("method_", base_name);
                let setter_name = concat_idents("set_", base_name);
                let clear_name = concat_idents("clear_", base_name);
                append_tokens(&mut ctor_args, name_lc.as_str());
                append_tokens(&mut ctor_args, ": None ,");
                append_tokens(&mut defs, name_lc.as_str());
                append_tokens(&mut defs, ": Option <");
                append_tokens(&mut defs, name.as_str());
                append_tokens(&mut defs, "<");
                append_tokens(&mut defs, return_type.as_str());
                append_tokens(&mut defs, ">> ,");
                let (return_statement, retval_statement, some_arg) = make_return_tokens(
                    no_return,
                    return_type.as_str(),
                );
                let mock_method_body = generate_mock_method_body("pub", name.as_str());
                result =
                foreign_fn_tokens(
                    result.as_str(),
                    mock_method_body.as_str(),
                    extern_name.as_str(),
                    name_lc.as_str(),
                    name.as_str(),
                    return_type.as_str(),
                    setter_name.as_str(),
                    static_name.as_str(),
                    clear_name.as_str(),
                    item.vis.as_str(),
                    abi.as_str(),
                    base_name,
                    fn_args.args_with_types.as_str(),
                    return_statement.as_str(),
                    some_arg.as_str(),
                    retval_statement.as_str(),
                );
            },
        }
        i = i + 1;
    }
    assert(items.take(i as int) =~= items);
    let init_body = extern_init_tokens(extern_name.as_str(), ctor_args.as_str());
    let external_static = make_mut_static(
        static_name.as_str(),
        extern_name.as_str(),
        init_body.as_str(),
    );
    Ok(
        extern_result_tokens(
            extern_name.as_str(),
            defs.as_str(),
            external_static.as_str(),
            result.as_str(),
        ),
    )
}

} // verus!
