//! Parameter lists and return types of the methods to mock.
use vstd::prelude::*;
use crate::model::FnArgModel;
use crate::tokens::{append_tokens, concat_idents, decimal, decimal_text, tok_join};

verus! {

/// What the generator needs to know of a method's parameters.
pub struct FnArgs {
    /// The parameter list, with `_a0`, `_a1`, ... for the named parameters.
    pub args_with_types: String,
    /// The names given to the parameters after `self`, separated by commas.
    pub args_with_no_self_no_types: String,
    /// Whether the `self` parameter is `mut`.
    pub mutable_status: bool,
    /// Whether the method takes `self` in some form.
    pub is_instance_method: bool,
    /// Whether the method takes `self` by value.
    pub takes_self_ownership: bool,
}

/// The value of a [`FnArgs`], its texts as character sequences.
pub struct ArgsView {
    pub with_types: Seq<char>,
    pub names: Seq<char>,
    pub mutable: bool,
    pub instance: bool,
    pub owns_self: bool,
}

impl View for FnArgs {
    type V = ArgsView;

    open spec fn view(&self) -> ArgsView {
        ArgsView {
            with_types: self.args_with_types@,
            names: self.args_with_no_self_no_types@,
            mutable: self.mutable_status,
            instance: self.is_instance_method,
            owns_self: self.takes_self_ownership,
        }
    }
}

impl FnArgs {
    /// No parameter seen yet.
    pub fn new() -> (res: FnArgs)
        ensures
            res@ == args_empty(),
    {
        FnArgs {
            args_with_types: String::new(),
            args_with_no_self_no_types: String::new(),
            mutable_status: false,
            is_instance_method: false,
            takes_self_ownership: false,
        }
    }
}

/// The state before any parameter.
pub open spec fn args_empty() -> ArgsView {
    ArgsView {
        with_types: Seq::empty(),
        names: Seq::empty(),
        mutable: false,
        instance: false,
        owns_self: false,
    }
}

/// The token text of a mutability: `mut` or nothing.
pub open spec fn mut_text(mutable: bool) -> Seq<char> {
    if mutable {
        "mut"@
    } else {
        Seq::empty()
    }
}

/// The name given to the parameter at position `argc`.
pub open spec fn arg_name(argc: nat) -> Seq<char> {
    "_a"@ + decimal_text(argc)
}

/// The state after the parameter `arg` at position `argc`.
pub open spec fn args_step(v: ArgsView, arg: FnArgModel, argc: nat) -> ArgsView {
    match arg {
        FnArgModel::SelfRef { lifetime, mutable } => ArgsView {
            with_types: tok_join(tok_join(tok_join("&"@, lifetime@), mut_text(mutable)), "self"@),
            mutable: mutable,
            instance: true,
            ..v
        },
        FnArgModel::SelfValue { mutable } => ArgsView {
            with_types: tok_join(mut_text(mutable), "self"@),
            mutable: mutable,
            instance: true,
            owns_self: true,
            ..v
        },
        FnArgModel::Captured { ty } => {
            let w = if argc > 0 {
                tok_join(v.with_types, ","@)
            } else {
                v.with_types
            };
            let n = if argc > 1 {
                tok_join(v.names, ","@)
            } else {
                v.names
            };
            ArgsView {
                with_types: tok_join(w, tok_join(tok_join(arg_name(argc), ":"@), ty@)),
                names: tok_join(n, arg_name(argc)),
                ..v
            }
        },
        FnArgModel::Ignored => v,
    }
}

/// The state after the parameters `inputs`, in order.
pub open spec fn args_text(inputs: Seq<FnArgModel>) -> ArgsView
    decreases inputs.len(),
{
    if inputs.len() == 0 {
        args_empty()
    } else {
        args_step(
            args_text(inputs.drop_last()),
            inputs.last(),
            (inputs.len() - 1) as nat,
        )
    }
}

/// The token text of a mutability.
pub fn mutability_tokens(mutable: bool) -> (res: String)
    ensures
        res@ == mut_text(mutable),
{
    if mutable {
        String::from_str("mut")
    } else {
        String::new()
    }
}

/// Reads a method's parameters.
pub fn parse_args(inputs: &Vec<FnArgModel>) -> (args: FnArgs)
    ensures
        args@ == args_text(inputs@),
{
    let mut args = FnArgs::new();
    let mut argc: usize = 0;
    while argc < inputs.len()
        invariant
            argc <= inputs@.len(),
            args@ == args_text(inputs@.take(argc as int)),
        decreases inputs@.len() - argc,
    {
        assert(inputs@.take(argc + 1).drop_last() =~= inputs@.take(argc as int));
        match &inputs[argc] {
            FnArgModel::SelfRef { lifetime, mutable } => {
                let mut t = String::from_str("&");
                append_tokens(&mut t, lifetime.as_str());
                let m = mutability_tokens(*mutable);
                append_tokens(&mut t, m.as_str());
                append_tokens(&mut t, "self");
                args.args_with_types = t;
                args.mutable_status = *mutable;
                args.is_instance_method = true;
            },
            FnArgModel::SelfValue { mutable } => {
                let mut t = mutability_tokens(*mutable);
                append_tokens(&mut t, "self");
                args.args_with_types = t;
                args.mutable_status = *mutable;
                args.is_instance_method = true;
                args.takes_self_ownership = true;
            },
            FnArgModel::Captured { ty } => {
                let num = decimal(argc);
                let tok = concat_idents("_a", num.as_str());
                if argc > 0 {
                    append_tokens(&mut args.args_with_types, ",");
                }
                if argc > 1 {
                    append_tokens(&mut args.args_with_no_self_no_types, ",");
                }
                let mut typed = String::from_str(tok.as_str());
                append_tokens(&mut typed, ":");
                append_tokens(&mut typed, ty.as_str());
                append_tokens(&mut args.args_with_types, typed.as_str());
                append_tokens(&mut args.args_with_no_self_no_types, tok.as_str());
            },
            FnArgModel::Ignored => {},
        }
        argc = argc + 1;
    }
    assert(inputs@.take(argc as int) =~= inputs@);
    args
}

/// The three return-related token texts of a method: the `-> T` part of its
/// signature, the expression it returns, and the pattern that binds the mocked
/// result.
pub open spec fn return_tokens_text(no_return: bool, return_type: Seq<char>) -> (
    Seq<char>,
    Seq<char>,
    Seq<char>,
) {
    if no_return {
        (Seq::empty(), Seq::empty(), "_"@)
    } else {
        (tok_join("->"@, return_type), "retval"@, "retval"@)
    }
}

/// Builds the return-related token texts of a method.
pub fn make_return_tokens(no_return: bool, return_type: &str) -> (res: (String, String, String))
    ensures
        (res.0@, res.1@, res.2@) == return_tokens_text(no_return, return_type@),
{
    if no_return {
        (String::new(), String::new(), String::from_str("_"))
    } else {
        let mut r = String::from_str("->");
        append_tokens(&mut r, return_type);
        (r, String::from_str("retval"), String::from_str("retval"))
    }
}

/// Whether a method returns nothing, and the token text of its return type
/// (`( )` when it returns nothing).
pub open spec fn return_type_text(output: Option<String>) -> (bool, Seq<char>) {
    match output {
        None => (true, "( )"@),
        Some(ty) => (false, ty@),
    }
}

/// Reads a method's return type.
pub fn parse_return_type(output: &Option<String>) -> (res: (bool, String))
    ensures
        (res.0, res.1@) == return_type_text(*output),
{
    match output {
        None => (true, String::from_str("( )")),
        Some(ty) => (false, ty.clone()),
    }
}

} // verus!
