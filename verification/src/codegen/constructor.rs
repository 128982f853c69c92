//! The part of the installer that runs the constructor named in the installation arguments.
use vstd::prelude::*;

use super::arg::{append_fn_args, casper_args_text, fn_args_text, CasperArgs};
use super::contract_def::Entrypoint;
use crate::text::lemma_concat_parts;

verus! {

/// The match arm that runs constructor `ep` on a reference to the new contract, whose type is
/// `sample_contract::<name>Ref`.
pub open spec fn constructor_arm_text(ep: Entrypoint, name: Seq<char>) -> Seq<char> {
    "stringify!("@ + ep.ident@ + ") => { let contract_ref = sample_contract::"@ + name
        + "Ref { address: odra_address, }; "@ + casper_args_text(ep.args@) + "contract_ref."@
        + ep.ident@ + "("@ + fn_args_text(ep.args@) + "); },"@
}

/// The match arms of every constructor of `eps`, in order.
pub open spec fn constructor_arms_text(eps: Seq<Entrypoint>, name: Seq<char>) -> Seq<
    char,
>
    decreases eps.len(),
{
    if eps.len() == 0 {
        Seq::empty()
    } else {
        constructor_arms_text(eps.drop_last(), name) + constructor_arm_text(eps.last(), name)
    }
}

/// The match arms of two lists of constructors, one after the other, are those of the
/// joined list.
pub proof fn lemma_constructor_arms_concat(a: Seq<Entrypoint>, b: Seq<Entrypoint>, name: Seq<char>)
    ensures
        constructor_arms_text(a + b, name) == constructor_arms_text(a, name) + constructor_arms_text(
            b,
            name,
        ),
    decreases b.len(),
{
    if b.len() == 0 {
        assert(a + b =~= a);
        assert(constructor_arms_text(a, name) + constructor_arms_text(b, name) =~= constructor_arms_text(
            a,
            name,
        ));
    } else {
        lemma_constructor_arms_concat(a, b.drop_last(), name);
        assert((a + b).drop_last() =~= a + b.drop_last());
        assert((a + b).last() == b.last());
        assert(constructor_arms_text(a, name) + constructor_arms_text(b, name) =~= constructor_arms_text(
            a,
            name,
        ) + constructor_arms_text(b.drop_last(), name) + constructor_arm_text(b.last(), name));
    }
}

/// The match arm of a constructor is selected by the constructor's name,
/// `stringify!(<ident>) => {`, and ends by calling it on its arguments,
/// `contract_ref.<ident>(<args>); },`.
pub proof fn lemma_constructor_arm_shape(ep: Entrypoint, name: Seq<char>)
    ensures
        ("stringify!("@ + ep.ident@ + ") => {"@).is_prefix_of(constructor_arm_text(ep, name)),
        ("contract_ref."@ + ep.ident@ + "("@ + fn_args_text(ep.args@) + "); },"@).is_suffix_of(
            constructor_arm_text(ep, name),
        ),
{
    let arm = constructor_arm_text(ep, name);
    let opening = "stringify!("@ + ep.ident@ + ") => {"@;
    let rest = " let contract_ref = sample_contract::"@ + name + "Ref { address: odra_address, }; "@
        + casper_args_text(ep.args@) + "contract_ref."@ + ep.ident@ + "("@ + fn_args_text(ep.args@)
        + "); },"@;
    reveal_strlit(") => { let contract_ref = sample_contract::");
    reveal_strlit(") => {");
    reveal_strlit(" let contract_ref = sample_contract::");
    assert(arm =~= opening + rest);
    lemma_concat_parts(opening, rest);
    let closing = "contract_ref."@ + ep.ident@ + "("@ + fn_args_text(ep.args@) + "); },"@;
    let front = "stringify!("@ + ep.ident@ + ") => { let contract_ref = sample_contract::"@ + name
        + "Ref { address: odra_address, }; "@ + casper_args_text(ep.args@);
    assert(arm =~= front + closing);
    lemma_concat_parts(front, closing);
}

/// The constructor block has one match arm per constructor, in their order, before the
/// catch-all arm that ends it: for every `i`, the arms of the constructors before `i`, then
/// the arm of constructor `i` (see `lemma_constructor_arm_shape`), then those after it.
pub proof fn lemma_constructor_arm_per_constructor(eps: Seq<Entrypoint>, name: Seq<char>, i: int)
    requires
        0 <= i < eps.len(),
    ensures
        constructor_arms_text(eps, name) == constructor_arms_text(eps.take(i), name)
            + constructor_arm_text(eps[i], name) + constructor_arms_text(eps.skip(i + 1), name),
        wasm_constructor_text(eps, name) == constructor_head_text() + constructor_arms_text(eps, name)
            + constructor_tail_text(),
        constructor_tail_text().is_suffix_of(wasm_constructor_text(eps, name)),
        ("stringify!("@ + eps[i].ident@ + ") => {"@).is_prefix_of(constructor_arm_text(eps[i], name)),
        ("contract_ref."@ + eps[i].ident@ + "("@ + fn_args_text(eps[i].args@) + "); },"@).is_suffix_of(
            constructor_arm_text(eps[i], name),
        ),
{
    let ep = eps[i];
    assert(constructor_arms_text(eps, name) == constructor_arms_text(eps.take(i), name)
        + constructor_arm_text(ep, name) + constructor_arms_text(eps.skip(i + 1), name)) by {
        assert(eps =~= eps.take(i) + (seq![ep] + eps.skip(i + 1)));
        lemma_constructor_arms_concat(eps.take(i), seq![ep] + eps.skip(i + 1), name);
        lemma_constructor_arms_concat(seq![ep], eps.skip(i + 1), name);
        assert(seq![ep].drop_last() =~= Seq::<Entrypoint>::empty());
        assert(seq![ep].last() == ep);
        assert(constructor_arms_text(Seq::<Entrypoint>::empty(), name) == Seq::<char>::empty());
        assert(constructor_arms_text(seq![ep], name) =~= Seq::<char>::empty() + constructor_arm_text(
            ep,
            name,
        ));
        assert(constructor_arms_text(eps.take(i), name) + (constructor_arm_text(ep, name)
            + constructor_arms_text(eps.skip(i + 1), name)) =~= constructor_arms_text(eps.take(i), name)
            + constructor_arm_text(ep, name) + constructor_arms_text(eps.skip(i + 1), name));
    }
    lemma_concat_parts(
        constructor_head_text() + constructor_arms_text(eps, name),
        constructor_tail_text(),
    );
    lemma_constructor_arm_shape(ep, name);
}

/// The entry points that the references in `eps` point to.
pub open spec fn deref_entrypoints(eps: Seq<&Entrypoint>) -> Seq<Entrypoint> {
    eps.map_values(|e: &Entrypoint| *e)
}

/// The opening of the installer's constructor block, up to the match arms.
pub open spec fn constructor_head_text() -> Seq<char> {
    "if casper_backend::backend::is_named_arg_exist(\"constructor\") { use casper_backend::backend::casper_contract::unwrap_or_revert::UnwrapOrRevert; let constructor_access: odra::types::URef = casper_backend::backend::casper_contract::contract_api::storage::create_contract_user_group(contract_package_hash, \"constructor\", 1, Default::default()).unwrap_or_revert().pop().unwrap_or_revert(); let casper_address = casper_backend::backend::Address::from(contract_package_hash); let odra_address: odra::types::Address = casper_address.into(); let constructor_name = casper_backend::backend::casper_contract::contract_api::runtime::get_named_arg::<String>(\"constructor\",); let constructor_name = constructor_name.as_str(); match constructor_name { "@
}

/// The end of the installer's constructor block: the catch-all arm and the revocation of
/// the constructor group's access.
pub open spec fn constructor_tail_text() -> Seq<char> {
    " _ => {} }; let mut urefs = std::collections::BTreeSet::new(); urefs.insert(constructor_access); casper_backend::backend::casper_contract::contract_api::storage::remove_contract_user_group_urefs(contract_package_hash, \"constructor\", urefs).unwrap_or_revert(); }"@
}

/// The installer's constructor block for the constructors `eps` of the contract `name`.
pub open spec fn wasm_constructor_text(eps: Seq<Entrypoint>, name: Seq<char>) -> Seq<char> {
    constructor_head_text() + constructor_arms_text(eps, name) + constructor_tail_text()
}

/// Appends the match arm that runs constructor `ep`.
fn append_constructor_arm(ep: &Entrypoint, name: &String, tokens: &mut String)
    ensures
        final(tokens)@ == old(tokens)@ + constructor_arm_text(*ep, name@),
{
    tokens.append("stringify!(");
    tokens.append(ep.ident.as_str());
    tokens.append(") => { let contract_ref = sample_contract::");
    tokens.append(name.as_str());
    tokens.append("Ref { address: odra_address, }; ");
    CasperArgs(&ep.args).to_tokens(tokens);
    tokens.append("contract_ref.");
    tokens.append(ep.ident.as_str());
    tokens.append("(");
    append_fn_args(&ep.args, tokens);
    tokens.append("); },");
}

/// The constructors of a contract and the contract's name; the reference type that runs them
/// is `sample_contract::<name>Ref`.
pub struct WasmConstructor<'a>(pub Vec<&'a Entrypoint>, pub &'a String);

impl<'a> WasmConstructor<'a> {
    /// Appends the installer's constructor block.
    pub fn to_tokens(&self, tokens: &mut String)
        ensures
            final(tokens)@ == old(tokens)@ + wasm_constructor_text(
                deref_entrypoints(self.0@),
                self.1@,
            ),
    {
        tokens.append(
            "if casper_backend::backend::is_named_arg_exist(\"constructor\") { use casper_backend::backend::casper_contract::unwrap_or_revert::UnwrapOrRevert; let constructor_access: odra::types::URef = casper_backend::backend::casper_contract::contract_api::storage::create_contract_user_group(contract_package_hash, \"constructor\", 1, Default::default()).unwrap_or_revert().pop().unwrap_or_revert(); let casper_address = casper_backend::backend::Address::from(contract_package_hash); let odra_address: odra::types::Address = casper_address.into(); let constructor_name = casper_backend::backend::casper_contract::contract_api::runtime::get_named_arg::<String>(\"constructor\",); let constructor_name = constructor_name.as_str(); match constructor_name { ",
        );
        let ghost start = tokens@;
        let eps = &self.0;
        let n = eps.len();
        let mut i: usize = 0;
        while i < n
            invariant
                n == eps@.len(),
                i <= n,
                tokens@ == start + constructor_arms_text(
                    deref_entrypoints(eps@).take(i as int),
                    self.1@,
                ),
            decreases n - i,
        {
            append_constructor_arm(eps[i], self.1, tokens);
            proof {
                let all = deref_entrypoints(eps@);
                assert(all.take(i + 1).drop_last() =~= all.take(i as int));
                assert(all[i as int] == *eps@[i as int]);
            }
            i = i + 1;
        }
        proof {
            assert(deref_entrypoints(eps@).take(n as int) =~= deref_entrypoints(eps@));
        }
        tokens.append(
            " _ => {} }; let mut urefs = std::collections::BTreeSet::new(); urefs.insert(constructor_access); casper_backend::backend::casper_contract::contract_api::storage::remove_contract_user_group_urefs(contract_package_hash, \"constructor\", urefs).unwrap_or_revert(); }",
        );
    }
}

} // verus!
