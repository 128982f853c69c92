use std::str::FromStr;

use odra_casper::codegen::arg::CasperArgs;
use odra_casper::codegen::call::{ContractEntrypoints, EntrypointParams};
use odra_casper::codegen::constructor::WasmConstructor;
use odra_casper::codegen::contract_def::{Argument, ContractDef, Entrypoint, EntrypointType};
use odra_casper::codegen::path::fqn_to_path;
use odra_casper::codegen::ty::{ClType, WrappedType};
use odra_casper::codegen::wasm_entrypoint::WasmEntrypoint;
use odra_casper::codegen::{gen_contract, generate_call, generate_entrypoints};

fn normalized(text: &str) -> String {
    proc_macro2::TokenStream::from_str(text).unwrap().to_string()
}

fn assert_same_tokens(generated: &str, expected: &str) {
    assert_eq!(normalized(generated), normalized(expected));
}

fn arg(ident: &str, ty: ClType) -> Argument {
    Argument { ident: ident.to_string(), ty }
}

fn entrypoint(ident: &str, args: Vec<Argument>, ret: ClType, ty: EntrypointType) -> Entrypoint {
    Entrypoint { ident: ident.to_string(), args, ret, ty }
}

fn wrapped(ty: &ClType) -> String {
    let mut s = String::new();
    WrappedType(ty).to_tokens(&mut s);
    s
}

#[test]
fn test_constructor() {
    let entrypoint = entrypoint(
        "construct_me",
        vec![arg("value", ClType::I32)],
        ClType::Unit,
        EntrypointType::Public,
    );
    let path = fqn_to_path("my_contract::MyContract");
    let mut tokens = String::new();
    WasmEntrypoint(&entrypoint, &path).to_tokens(&mut tokens);
    assert_same_tokens(
        &tokens,
        r#"
        #[no_mangle]
        fn construct_me() {
            let contract = my_contract::MyContract::instance("contract");
            let value = casper_backend::backend::casper_contract::contract_api::runtime::get_named_arg(stringify!(value));
            contract.construct_me(value);
        }
        "#,
    );
}

#[test]
fn entrypoint_with_result_returns_it_to_the_runtime() {
    let ep = entrypoint(
        "get",
        vec![arg("a", ClType::U32), arg("b", ClType::String)],
        ClType::U64,
        EntrypointType::Public,
    );
    let path = fqn_to_path("c::Counter");
    let mut tokens = String::new();
    WasmEntrypoint(&ep, &path).to_tokens(&mut tokens);
    assert_same_tokens(
        &tokens,
        r#"
        #[no_mangle]
        fn get() {
            let contract = c::Counter::instance("contract");
            use casper_backend::backend::casper_contract::unwrap_or_revert::UnwrapOrRevert;
            let a = casper_backend::backend::casper_contract::contract_api::runtime::get_named_arg(stringify!(a));
            let b = casper_backend::backend::casper_contract::contract_api::runtime::get_named_arg(stringify!(b));
            let result = contract.get(a, b);
            let result = casper_backend::backend::casper_types::CLValue::from_t(result).unwrap_or_revert();
            casper_backend::backend::casper_contract::contract_api::runtime::ret(result);
        }
        "#,
    );
}

#[test]
fn simple_types_are_written_by_name() {
    assert_eq!(wrapped(&ClType::Bool), "odra::types::CLType::Bool");
    assert_eq!(wrapped(&ClType::U512), "odra::types::CLType::U512");
    assert_eq!(wrapped(&ClType::Any), "odra::types::CLType::Any");
    assert_eq!(wrapped(&ClType::PublicKey), "odra::types::CLType::PublicKey");
}

#[test]
fn byte_array_length_is_a_u32_literal() {
    assert_same_tokens(&wrapped(&ClType::ByteArray(32)), "odra::types::CLType::ByteArray(32u32)");
    assert_same_tokens(&wrapped(&ClType::ByteArray(0)), "odra::types::CLType::ByteArray(0u32)");
    assert_same_tokens(
        &wrapped(&ClType::ByteArray(4294967295)),
        "odra::types::CLType::ByteArray(4294967295u32)",
    );
}

#[test]
fn nested_types_are_written_recursively() {
    let ty = ClType::MapOf {
        key: Box::new(ClType::Bool),
        value: Box::new(ClType::Option(Box::new(ClType::List(Box::new(ClType::U128))))),
    };
    assert_same_tokens(
        &wrapped(&ty),
        "odra::types::CLType::Map { key: Box::new(odra::types::CLType::Bool), value: Box::new(odra::types::CLType::Option(Box::new(odra::types::CLType::List(Box::new(odra::types::CLType::U128))))), }",
    );
    let res = ClType::Result { ok: Box::new(ClType::Unit), err: Box::new(ClType::U8) };
    assert_same_tokens(
        &wrapped(&res),
        "odra::types::CLType::Result { ok: Box::new(odra::types::CLType::Unit), err: Box::new(odra::types::CLType::U8), }",
    );
}

#[test]
fn tuples_keep_their_items() {
    assert_same_tokens(
        &wrapped(&ClType::Tuple1(Box::new(ClType::Key))),
        "odra::types::CLType::Tuple1([odra::types::CLType::Key])",
    );
    assert_same_tokens(
        &wrapped(&ClType::Tuple2(Box::new(ClType::I64), Box::new(ClType::URef))),
        "odra::types::CLType::Tuple2([odra::types::CLType::I64, odra::types::CLType::URef])",
    );
    // The three-element tuple is written with the two-element constructor.
    assert_same_tokens(
        &wrapped(&ClType::Tuple3(
            Box::new(ClType::U8),
            Box::new(ClType::U32),
            Box::new(ClType::U256),
        )),
        "odra::types::CLType::Tuple2([odra::types::CLType::U8, odra::types::CLType::U32, odra::types::CLType::U256])",
    );
}

#[test]
fn parameters_of_an_entrypoint() {
    let empty: Vec<Argument> = vec![];
    let mut tokens = String::new();
    EntrypointParams(&empty).to_tokens(&mut tokens);
    assert_same_tokens(&tokens, "Vec::<odra::types::Parameter>::new()");

    let args = vec![arg("x", ClType::Bool), arg("y", ClType::String)];
    let mut tokens = String::new();
    EntrypointParams(&args).to_tokens(&mut tokens);
    assert_same_tokens(
        &tokens,
        r#"{
            let mut params: Vec<odra::types::Parameter> = Vec::new();
            params.push(odra::types::Parameter::new(stringify!(x), odra::types::CLType::Bool));
            params.push(odra::types::Parameter::new(stringify!(y), odra::types::CLType::String));
            params
        }"#,
    );
}

#[test]
fn entrypoints_are_registered_with_their_access() {
    let eps = vec![
        entrypoint("init", vec![], ClType::Unit, EntrypointType::Constructor),
        entrypoint("get", vec![], ClType::Bool, EntrypointType::Public),
    ];
    let mut tokens = String::new();
    ContractEntrypoints(&eps).to_tokens(&mut tokens);
    assert_same_tokens(
        &tokens,
        r#"
        let mut entry_points = odra::types::EntryPoints::new();
        entry_points.add_entry_point(
            odra::types::EntryPoint::new(
                stringify!(init),
                Vec::<odra::types::Parameter>::new(),
                odra::types::CLType::Unit,
                odra::types::EntryPointAccess::Groups(vec![odra::types::Group::new("constructor")]),
                odra::types::EntryPointType::Contract,
            )
        );
        entry_points.add_entry_point(
            odra::types::EntryPoint::new(
                stringify!(get),
                Vec::<odra::types::Parameter>::new(),
                odra::types::CLType::Bool,
                odra::types::EntryPointAccess::Public,
                odra::types::EntryPointType::Contract,
            )
        );
        "#,
    );
}

#[test]
fn arguments_are_bound_from_the_runtime() {
    let args = vec![arg("amount", ClType::U512)];
    let mut tokens = String::new();
    CasperArgs(&args).to_tokens(&mut tokens);
    assert_same_tokens(
        &tokens,
        "let amount = casper_backend::backend::casper_contract::contract_api::runtime::get_named_arg(stringify!(amount));",
    );
}

#[test]
fn fully_qualified_names_become_paths() {
    let path = fqn_to_path("a::b::C");
    assert_eq!(path.segments, vec!["a".to_string(), "b".to_string(), "C".to_string()]);
    assert_eq!(fqn_to_path("Single").segments, vec!["Single".to_string()]);
    let mut tokens = String::new();
    path.to_tokens(&mut tokens);
    assert_eq!(tokens, "a::b::C");
}

fn sample_contract() -> ContractDef {
    ContractDef {
        ident: "MyContract".to_string(),
        entrypoints: vec![
            entrypoint("init", vec![arg("value", ClType::U32)], ClType::Unit, EntrypointType::Constructor),
            entrypoint("get_value", vec![], ClType::U32, EntrypointType::Public),
        ],
    }
}

const EXPECTED_CALL: &str = r#"
    #[no_mangle]
    fn call() {
        let (contract_package_hash, _) = casper_backend::backend::casper_contract::contract_api::storage::create_contract_package_at_hash();
        casper_backend::backend::casper_contract::contract_api::runtime::put_key("my_contract_package_hash", contract_package_hash.into());
        let mut entry_points = odra::types::EntryPoints::new();
        entry_points.add_entry_point(odra::types::EntryPoint::new(stringify!(init), { let mut params: Vec<odra::types::Parameter> = Vec::new(); params.push(odra::types::Parameter::new(stringify!(value), odra::types::CLType::U32)); params }, odra::types::CLType::Unit, odra::types::EntryPointAccess::Groups(vec![odra::types::Group::new("constructor")]), odra::types::EntryPointType::Contract,));
        entry_points.add_entry_point(odra::types::EntryPoint::new(stringify!(get_value), Vec::<odra::types::Parameter>::new(), odra::types::CLType::U32, odra::types::EntryPointAccess::Public, odra::types::EntryPointType::Contract,));
        casper_backend::backend::casper_contract::contract_api::storage::add_contract_version(
            contract_package_hash,
            entry_points,
            odra::types::contracts::NamedKeys::new()
        );
        if casper_backend::backend::is_named_arg_exist("constructor") {
            use casper_backend::backend::casper_contract::unwrap_or_revert::UnwrapOrRevert;
            let constructor_access: odra::types::URef =
                casper_backend::backend::casper_contract::contract_api::storage::create_contract_user_group(
                    contract_package_hash,
                    "constructor",
                    1,
                    Default::default()
                )
                .unwrap_or_revert()
                .pop()
                .unwrap_or_revert();
            let casper_address = casper_backend::backend::Address::from(contract_package_hash);
            let odra_address: odra::types::Address = casper_address.into();
            let constructor_name = casper_backend::backend::casper_contract::contract_api::runtime::get_named_arg::<String>(
                "constructor",
            );
            let constructor_name = constructor_name.as_str();
            match constructor_name {
                stringify!(init) => {
                    let contract_ref = sample_contract::MyContractRef { address: odra_address, };
                    let value = casper_backend::backend::casper_contract::contract_api::runtime::get_named_arg(stringify!(value));
                    contract_ref.init(value);
                },
                _ => {}
            };
            let mut urefs = std::collections::BTreeSet::new();
            urefs.insert(constructor_access);
            casper_backend::backend::casper_contract::contract_api::storage::remove_contract_user_group_urefs(
                contract_package_hash,
                "constructor",
                urefs
            ).unwrap_or_revert();
        }
    }
"#;

#[test]
fn installer_runs_the_named_constructor() {
    let tokens = generate_call(&sample_contract(), "my_contract::MyContractRef".to_string());
    assert_same_tokens(&tokens, EXPECTED_CALL);
}

#[test]
fn constructor_block_without_constructors_has_only_the_catch_all_arm() {
    let name = "Y".to_string();
    let mut tokens = String::new();
    WasmConstructor(vec![], &name).to_tokens(&mut tokens);
    let normalized_tokens = normalized(&tokens);
    assert!(normalized_tokens.contains("match constructor_name { _ => { } }"));
    assert!(!normalized_tokens.contains("contract_ref"));
}

#[test]
fn whole_module_is_generated_and_lexes() {
    let def = sample_contract();
    let mut expected = String::from("#![no_main] use odra::instance::Instance; use casper_backend; ");
    expected.push_str(EXPECTED_CALL);
    expected.push_str(&generate_entrypoints(&def, "my_contract::MyContract".to_string()));
    let source = gen_contract(def, "my_contract::MyContract".to_string());
    assert_same_tokens(&source, &expected);
    assert!(normalized(&source).contains("fn get_value ()"));
}

#[test]
fn package_key_uses_the_snake_case_name() {
    let def = ContractDef {
        ident: "Erc20Token".to_string(),
        entrypoints: vec![],
    };
    let tokens = normalized(&generate_call(&def, "erc20::Erc20TokenRef".to_string()));
    assert!(tokens.contains("put_key (\"erc20_token_package_hash\""));
    assert!(tokens.contains("match constructor_name { _ => { } }"));
}
