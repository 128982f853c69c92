//! Generation of the WASM entry points and the installer of a contract, as source text.
use vstd::prelude::*;

pub mod arg;
pub mod call;
pub mod constructor;
pub mod contract_def;
pub mod path;
pub mod ty;
pub mod ty_read;
pub mod wasm_entrypoint;

use convert_case::Casing;
use crate::naming::{package_hash_key, package_hash_key_text};
use call::{contract_entrypoints_text, ContractEntrypoints};
use constructor::{deref_entrypoints, wasm_constructor_text, WasmConstructor};
use contract_def::{ContractDef, Entrypoint, EntrypointType};
use path::{fqn_to_path, split_segments};
use wasm_entrypoint::{lemma_wasm_entrypoint_shape, wasm_entrypoint_text, WasmEntrypoint};
use path::path_text;
use crate::text::lemma_concat_parts;

verus! {

/// The snake-case form that `convert_case` gives to an upper-camel-case name when digits
/// are not treated as word boundaries.
pub uninterp spec fn snake_case_name(text: Seq<char>) -> Seq<char>;

/// Whether every character of `s` is an ASCII letter, an ASCII digit or `_`.
pub open spec fn is_plain_word(s: Seq<char>) -> bool {
    forall|i: int|
        0 <= i < s.len() ==> {
            let c = #[trigger] s[i];
            ('a' <= c && c <= 'z') || ('A' <= c && c <= 'Z') || ('0' <= c && c <= '9') || c
                == '_'
        }
}

/// Converts an upper-camel-case name to snake case with `convert_case`: `from_case(UpperCamel)`,
/// digits not taken as boundaries, `to_case(Snake)`. The crate cuts the name into words at
/// character positions with `str::split_at`, which counts bytes, so a name with characters
/// outside ASCII can make it panic; the name is required to be a plain ASCII word. Claimed:
/// the result is `snake_case_name` of the name, and it is a plain word again (the words are
/// pieces of the name, lower-cased and joined by `_`). Which words the crate finds is not
/// stated here.
#[verifier::external_body]
fn camel_to_snake(text: &str) -> (snake: String)
    requires
        is_plain_word(text@),
    ensures
        snake@ == snake_case_name(text@),
        is_plain_word(snake@),
{
    text.from_case(convert_case::Case::UpperCamel).without_boundaries(
        &[convert_case::Boundary::UpperDigit, convert_case::Boundary::LowerDigit],
    ).to_case(convert_case::Case::Snake)
}

/// Writes the plain word `s` as a string literal with `proc_macro2::Literal::string`. Claimed:
/// `s` stands between double quotes unchanged, since escaping leaves ASCII letters, digits and
/// `_` as they are. How other characters are escaped is not stated here.
#[verifier::external_body]
fn string_literal(s: &str) -> (lit: String)
    requires
        is_plain_word(s@),
    ensures
        lit@ == seq!['"'] + s@ + seq!['"'],
{
    proc_macro2::Literal::string(s).to_string()
}

/// The constructors among `eps`, in order.
pub open spec fn constructors_of(eps: Seq<Entrypoint>) -> Seq<Entrypoint>
    decreases eps.len(),
{
    if eps.len() == 0 {
        Seq::empty()
    } else if eps.last().ty is Constructor {
        constructors_of(eps.drop_last()).push(eps.last())
    } else {
        constructors_of(eps.drop_last())
    }
}

/// The installer offers exactly the constructors: every entry point it can run as a
/// constructor is one, and every constructor among `eps` is offered.
pub proof fn lemma_constructors_of(eps: Seq<Entrypoint>)
    ensures
        forall|i: int|
            0 <= i < constructors_of(eps).len() ==> (#[trigger] constructors_of(eps)[i]).ty is Constructor,
        forall|j: int|
            0 <= j < eps.len() && (#[trigger] eps[j]).ty is Constructor ==> constructors_of(eps).contains(
                eps[j],
            ),
        constructors_of(eps).len() <= eps.len(),
    decreases eps.len(),
{
    if eps.len() > 0 {
        let rest = eps.drop_last();
        lemma_constructors_of(rest);
        assert forall|j: int|
            0 <= j < eps.len() && (#[trigger] eps[j]).ty is Constructor implies constructors_of(
                eps,
            ).contains(eps[j]) by {
            if j < eps.len() - 1 {
                assert(rest[j] == eps[j]);
                let k = choose|k: int| 0 <= k < constructors_of(rest).len() && constructors_of(rest)[k]
                    == rest[j];
                assert(constructors_of(eps)[k] == eps[j]);
            } else {
                assert(constructors_of(eps).last() == eps[j]);
            }
        }
    }
}

/// The exported functions of every entry point of `eps`, for the contract at `path`.
pub open spec fn wasm_entrypoints_text(eps: Seq<Entrypoint>, path: Seq<Seq<char>>) -> Seq<char>
    decreases eps.len(),
{
    if eps.len() == 0 {
        Seq::empty()
    } else {
        wasm_entrypoints_text(eps.drop_last(), path) + wasm_entrypoint_text(eps.last(), path)
    }
}

/// The exported functions of two lists of entry points, one after the other, are those of
/// the joined list.
pub proof fn lemma_wasm_entrypoints_concat(a: Seq<Entrypoint>, b: Seq<Entrypoint>, path: Seq<Seq<char>>)
    ensures
        wasm_entrypoints_text(a + b, path) == wasm_entrypoints_text(a, path) + wasm_entrypoints_text(
            b,
            path,
        ),
    decreases b.len(),
{
    if b.len() == 0 {
        assert(a + b =~= a);
        assert(wasm_entrypoints_text(a, path) + wasm_entrypoints_text(b, path) =~= wasm_entrypoints_text(
            a,
            path,
        ));
    } else {
        lemma_wasm_entrypoints_concat(a, b.drop_last(), path);
        assert((a + b).drop_last() =~= a + b.drop_last());
        assert((a + b).last() == b.last());
        assert(wasm_entrypoints_text(a, path) + wasm_entrypoints_text(b, path) =~= wasm_entrypoints_text(
            a,
            path,
        ) + wasm_entrypoints_text(b.drop_last(), path) + wasm_entrypoint_text(b.last(), path));
    }
}

/// The module exports one function per entry point, constructors included, in the order of
/// the entry points: for every `i`, the functions of the entry points before `i`, then the
/// exported function of entry point `i` (which opens with `#[no_mangle] fn <ident>()`), then
/// those of the entry points after it.
pub proof fn lemma_wasm_entrypoints_one_per_entry_point(eps: Seq<Entrypoint>, path: Seq<Seq<char>>, i: int)
    requires
        0 <= i < eps.len(),
    ensures
        wasm_entrypoints_text(eps, path) == wasm_entrypoints_text(eps.take(i), path)
            + wasm_entrypoint_text(eps[i], path) + wasm_entrypoints_text(eps.skip(i + 1), path),
        ("#[no_mangle] fn "@ + eps[i].ident@ + "()"@).is_prefix_of(wasm_entrypoint_text(eps[i], path)),
{
    assert(eps =~= eps.take(i) + (seq![eps[i]] + eps.skip(i + 1)));
    lemma_wasm_entrypoints_concat(eps.take(i), seq![eps[i]] + eps.skip(i + 1), path);
    lemma_wasm_entrypoints_concat(seq![eps[i]], eps.skip(i + 1), path);
    assert(seq![eps[i]].drop_last() =~= Seq::<Entrypoint>::empty());
    assert(seq![eps[i]].last() == eps[i]);
    assert(wasm_entrypoints_text(Seq::<Entrypoint>::empty(), path) == Seq::<char>::empty());
    assert(wasm_entrypoints_text(seq![eps[i]], path) =~= Seq::<char>::empty() + wasm_entrypoint_text(
        eps[i],
        path,
    ));
    lemma_wasm_entrypoint_shape(eps[i], path);
    let head = "#[no_mangle] fn "@ + eps[i].ident@ + "() { let contract = "@ + path_text(path)
        + "::instance(\"contract\"); "@;
    let opening = "#[no_mangle] fn "@ + eps[i].ident@ + "()"@;
    reveal_strlit("()");
    reveal_strlit("() { let contract = ");
    reveal_strlit(" { let contract = ");
    assert(head =~= opening + (" { let contract = "@ + path_text(path) + "::instance(\"contract\"); "@));
    lemma_concat_parts(opening, " { let contract = "@ + path_text(path) + "::instance(\"contract\"); "@);
    assert(wasm_entrypoint_text(eps[i], path).subrange(0, opening.len() as int) =~= head.subrange(
        0,
        opening.len() as int,
    ));
}

/// The installer: creates the package, stores its hash under the contract's key, registers
/// the entry points and runs the requested constructor through the contract's reference type
/// `sample_contract::<name>Ref`.
pub open spec fn call_fn_text(def: ContractDef) -> Seq<char> {
    "#[no_mangle] fn call() { let (contract_package_hash, _) = casper_backend::backend::casper_contract::contract_api::storage::create_contract_package_at_hash(); casper_backend::backend::casper_contract::contract_api::runtime::put_key("@
        + seq!['"'] + package_hash_key_text(snake_case_name(def.ident@)) + seq!['"']
        + ", contract_package_hash.into()); "@ + contract_entrypoints_text(def.entrypoints@)
        + " casper_backend::backend::casper_contract::contract_api::storage::add_contract_version(contract_package_hash, entry_points, odra::types::contracts::NamedKeys::new()); "@
        + wasm_constructor_text(constructors_of(def.entrypoints@), def.ident@) + " }"@
}

/// The whole generated module of the contract whose type has the fully qualified name `fqn`.
pub open spec fn contract_text(def: ContractDef, fqn: Seq<char>) -> Seq<char> {
    "#![no_main] use odra::instance::Instance; use casper_backend; "@ + call_fn_text(def) + " "@ + wasm_entrypoints_text(def.entrypoints@, split_segments(fqn))
}

/// The exported functions of all entry points of `contract_def`, for the contract `fqn`.
pub fn generate_entrypoints(contract_def: &ContractDef, fqn: String) -> (tokens: String)
    ensures
        tokens@ == wasm_entrypoints_text(contract_def.entrypoints@, split_segments(fqn@)),
{
    let path = fqn_to_path(fqn.as_str());
    let eps = &contract_def.entrypoints;
    let n = eps.len();
    let mut tokens = String::new();
    let mut i: usize = 0;
    while i < n
        invariant
            n == eps@.len(),
            i <= n,
            path@ == split_segments(fqn@),
            tokens@ == wasm_entrypoints_text(eps@.take(i as int), path@),
        decreases n - i,
    {
        WasmEntrypoint(&eps[i], &path).to_tokens(&mut tokens);
        proof {
            assert(eps@.take(i + 1).drop_last() =~= eps@.take(i as int));
        }
        i = i + 1;
    }
    proof {
        assert(eps@.take(n as int) =~= eps@);
    }
    tokens
}

/// The constructors of `eps`, in order.
fn collect_constructors(eps: &Vec<Entrypoint>) -> (cons: Vec<&Entrypoint>)
    ensures
        deref_entrypoints(cons@) == constructors_of(eps@),
{
    let n = eps.len();
    let mut cons: Vec<&Entrypoint> = Vec::new();
    let mut i: usize = 0;
    while i < n
        invariant
            n == eps@.len(),
            i <= n,
            deref_entrypoints(cons@) == constructors_of(eps@.take(i as int)),
        decreases n - i,
    {
        let ghost before = deref_entrypoints(cons@);
        let ep = &eps[i];
        proof {
            assert(eps@.take(i + 1).drop_last() =~= eps@.take(i as int));
            assert(eps@.take(i + 1).last() == eps@[i as int]);
        }
        match ep.ty {
            EntrypointType::Constructor => {
                cons.push(ep);
                proof {
                    assert(deref_entrypoints(cons@) =~= before.push(*ep));
                }
            },
            EntrypointType::Public => {},
        }
        i = i + 1;
    }
    proof {
        assert(eps@.take(n as int) =~= eps@);
    }
    cons
}

/// The installer function of the contract `contract_def`. The constructor block names the
/// reference type by the contract's name, as `sample_contract::<name>Ref`; the fully
/// qualified name of the reference type, `_ref_fqn`, is not read.
pub fn generate_call(contract_def: &ContractDef, _ref_fqn: String) -> (tokens: String)
    requires
        is_plain_word(contract_def.ident@),
    ensures
        tokens@ == call_fn_text(*contract_def),
{
    let snake = camel_to_snake(contract_def.ident.as_str());
    let package_hash = package_hash_key(snake.as_str());
    proof {
        reveal_strlit("_package_hash");
        assert forall|i: int| 0 <= i < package_hash@.len() implies {
            let c = #[trigger] package_hash@[i];
            ('a' <= c && c <= 'z') || ('A' <= c && c <= 'Z') || ('0' <= c && c <= '9') || c
                == '_'
        } by {
            if i >= snake@.len() {
                assert(package_hash@[i] == "_package_hash"@[i - snake@.len()]);
            } else {
                assert(package_hash@[i] == snake@[i]);
            }
        }
    }
    let constructors = collect_constructors(&contract_def.entrypoints);
    let mut tokens = String::from_str(
        "#[no_mangle] fn call() { let (contract_package_hash, _) = casper_backend::backend::casper_contract::contract_api::storage::create_contract_package_at_hash(); casper_backend::backend::casper_contract::contract_api::runtime::put_key(",
    );
    let lit = string_literal(package_hash.as_str());
    tokens.append(lit.as_str());
    tokens.append(", contract_package_hash.into()); ");
    ContractEntrypoints(&contract_def.entrypoints).to_tokens(&mut tokens);
    tokens.append(
        " casper_backend::backend::casper_contract::contract_api::storage::add_contract_version(contract_package_hash, entry_points, odra::types::contracts::NamedKeys::new()); ",
    );
    WasmConstructor(constructors, &contract_def.ident).to_tokens(&mut tokens);
    tokens.append(" }");
    tokens
}

/// The source text of the generated module of contract `contract_def`, whose type has the
/// fully qualified name `fqn`: the installer, then the exported function of every entry point.
pub fn gen_contract(contract_def: ContractDef, fqn: String) -> (source: String)
    requires
        is_plain_word(contract_def.ident@),
    ensures
        source@ == contract_text(contract_def, fqn@),
{
    let entrypoints = generate_entrypoints(&contract_def, fqn.clone());
    let ref_fqn = fqn.concat("Ref");
    let call_fn = generate_call(&contract_def, ref_fqn);
    let mut source = String::from_str("#![no_main] use odra::instance::Instance; use casper_backend; ");
    source.append(call_fn.as_str());
    source.append(" ");
    source.append(entrypoints.as_str());
    source
}

} // verus!
