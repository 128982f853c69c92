//! The exported WASM function through which the runtime calls one entry point.
use vstd::prelude::*;

use super::arg::{append_fn_args, casper_args_text, fn_args_text, CasperArgs};
use super::contract_def::Entrypoint;
use super::path::{path_text, Path};
use crate::text::lemma_concat_parts;
use super::ty::ClType;

verus! {

/// The body that binds the arguments, calls the entry point on `contract` and, unless it
/// returns unit, hands the result back to the runtime.
pub open spec fn contract_call_text(ep: Entrypoint) -> Seq<char> {
    if ep.ret is Unit {
        casper_args_text(ep.args@) + "contract."@ + ep.ident@ + "("@ + fn_args_text(ep.args@)
            + ");"@
    } else {
        "use casper_backend::backend::casper_contract::unwrap_or_revert::UnwrapOrRevert; "@
            + casper_args_text(ep.args@) + "let result = contract."@ + ep.ident@ + "("@
            + fn_args_text(ep.args@)
            + "); let result = casper_backend::backend::casper_types::CLValue::from_t(result).unwrap_or_revert(); casper_backend::backend::casper_contract::contract_api::runtime::ret(result);"@
    }
}

/// The exported function for entry point `ep` of the contract at `path`.
pub open spec fn wasm_entrypoint_text(ep: Entrypoint, path: Seq<Seq<char>>) -> Seq<char> {
    "#[no_mangle] fn "@ + ep.ident@ + "() { let contract = "@ + path_text(path)
        + "::instance(\"contract\"); "@ + contract_call_text(ep) + " }"@
}

/// The statement that hands the result of a call back to the runtime, with which the
/// exported function of an entry point that returns a value ends.
pub open spec fn return_statement_text() -> Seq<char> {
    "casper_backend::backend::casper_contract::contract_api::runtime::ret(result); }"@
}

/// The exported function of an entry point opens with `#[no_mangle] fn <ident>()` and an
/// instance of the contract at `path`. If the entry point returns unit, the function ends
/// with the plain call of the entry point on its arguments; otherwise the call's result is
/// converted to a `CLValue` and the function ends by handing it back to the runtime,
/// whatever the number of arguments.
pub proof fn lemma_wasm_entrypoint_shape(ep: Entrypoint, path: Seq<Seq<char>>)
    ensures
        ("#[no_mangle] fn "@ + ep.ident@ + "() { let contract = "@ + path_text(path)
            + "::instance(\"contract\"); "@).is_prefix_of(wasm_entrypoint_text(ep, path)),
        ep.ret is Unit ==> ("contract."@ + ep.ident@ + "("@ + fn_args_text(ep.args@)
            + "); }"@).is_suffix_of(wasm_entrypoint_text(ep, path)),
        !(ep.ret is Unit) ==> ("let result = contract."@ + ep.ident@ + "("@ + fn_args_text(
            ep.args@,
        )
            + "); let result = casper_backend::backend::casper_types::CLValue::from_t(result).unwrap_or_revert(); "@
            + return_statement_text()).is_suffix_of(wasm_entrypoint_text(ep, path)),
        !(ep.ret is Unit) ==> return_statement_text().is_suffix_of(wasm_entrypoint_text(ep, path)),
{
    let head = "#[no_mangle] fn "@ + ep.ident@ + "() { let contract = "@ + path_text(path)
        + "::instance(\"contract\"); "@;
    let text = wasm_entrypoint_text(ep, path);
    let args = fn_args_text(ep.args@);
    lemma_concat_parts(head, contract_call_text(ep) + " }"@);
    assert(text =~= head + (contract_call_text(ep) + " }"@));
    if ep.ret is Unit {
        let tail = "contract."@ + ep.ident@ + "("@ + args + "); }"@;
        let front = head + casper_args_text(ep.args@);
        reveal_strlit("); }");
        reveal_strlit(");");
        reveal_strlit(" }");
        assert(text =~= front + tail);
        lemma_concat_parts(front, tail);
    } else {
        reveal_strlit("casper_backend::backend::casper_contract::contract_api::runtime::ret(result); }");
        reveal_strlit("casper_backend::backend::casper_contract::contract_api::runtime::ret(result);");
        reveal_strlit(" }");
        reveal_strlit("); let result = casper_backend::backend::casper_types::CLValue::from_t(result).unwrap_or_revert(); casper_backend::backend::casper_contract::contract_api::runtime::ret(result);");
        reveal_strlit("); let result = casper_backend::backend::casper_types::CLValue::from_t(result).unwrap_or_revert(); ");
        let ret = return_statement_text();
        let tail = "let result = contract."@ + ep.ident@ + "("@ + args
            + "); let result = casper_backend::backend::casper_types::CLValue::from_t(result).unwrap_or_revert(); "@
            + ret;
        let front = head + "use casper_backend::backend::casper_contract::unwrap_or_revert::UnwrapOrRevert; "@
            + casper_args_text(ep.args@);
        assert(text =~= front + tail);
        lemma_concat_parts(front, tail);
        let front2 = front + "let result = contract."@ + ep.ident@ + "("@ + args
            + "); let result = casper_backend::backend::casper_types::CLValue::from_t(result).unwrap_or_revert(); "@;
        assert(text =~= front2 + ret);
        lemma_concat_parts(front2, ret);
    }
}

/// An entry point together with the path of the contract that owns it.
pub struct WasmEntrypoint<'a>(pub &'a Entrypoint, pub &'a Path);

impl<'a> WasmEntrypoint<'a> {
    /// Appends the exported function for the entry point.
    pub fn to_tokens(&self, tokens: &mut String)
        ensures
            final(tokens)@ == old(tokens)@ + wasm_entrypoint_text(*self.0, self.1@),
    {
        let ep = self.0;
        tokens.append("#[no_mangle] fn ");
        tokens.append(ep.ident.as_str());
        tokens.append("() { let contract = ");
        self.1.to_tokens(tokens);
        tokens.append("::instance(\"contract\"); ");
        match ep.ret {
            ClType::Unit => {
                CasperArgs(&ep.args).to_tokens(tokens);
                tokens.append("contract.");
                tokens.append(ep.ident.as_str());
                tokens.append("(");
                append_fn_args(&ep.args, tokens);
                tokens.append(");");
            },
            _ => {
                tokens.append(
                    "use casper_backend::backend::casper_contract::unwrap_or_revert::UnwrapOrRevert; ",
                );
                CasperArgs(&ep.args).to_tokens(tokens);
                tokens.append("let result = contract.");
                tokens.append(ep.ident.as_str());
                tokens.append("(");
                append_fn_args(&ep.args, tokens);
                tokens.append(
                    "); let result = casper_backend::backend::casper_types::CLValue::from_t(result).unwrap_or_revert(); casper_backend::backend::casper_contract::contract_api::runtime::ret(result);",
                );
            },
        }
        tokens.append(" }");
    }
}

} // verus!
