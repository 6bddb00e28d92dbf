use wasmlib::render::render;
use wasmlib::{compile, CallKind, ContractSchema, FunctionEntry, SchemaError};

fn entry(name: &str, params: &[&str], results: &[&str]) -> FunctionEntry {
    FunctionEntry {
        name: String::from(name),
        params: params.iter().map(|p| String::from(*p)).collect(),
        results: results.iter().map(|r| String::from(*r)).collect(),
    }
}

fn accounts_schema() -> ContractSchema {
    ContractSchema {
        name: String::from("accounts"),
        description: String::from("Core chain account ledger contract"),
        funcs: vec![entry("deposit", &["a"], &[]), entry("withdraw", &[], &[])],
        views: vec![
            entry("accounts", &[], &[]),
            entry("balance", &["a"], &["balance"]),
            entry("totalAssets", &[], &["assets"]),
        ],
    }
}

#[test]
fn compile_preserves_declaration_order() {
    let binding = compile(&accounts_schema()).unwrap();
    assert_eq!(binding.name, "accounts");
    assert_eq!(binding.description, "Core chain account ledger contract");
    assert_eq!(binding.hname.0, 0x3c4b5e02);
    assert_eq!(binding.calls.len(), 5);
    let names: Vec<&str> = binding.calls.iter().map(|c| c.name.as_str()).collect();
    assert_eq!(
        names,
        vec!["deposit", "withdraw", "accounts", "balance", "totalAssets"]
    );
    assert_eq!(binding.calls[0].kind, CallKind::Func);
    assert_eq!(binding.calls[1].kind, CallKind::Func);
    assert_eq!(binding.calls[2].kind, CallKind::View);
    assert_eq!(binding.calls[3].kind, CallKind::View);
    assert_eq!(binding.calls[4].kind, CallKind::View);
    assert_eq!(binding.calls[0].hname.0, 0xbdc9102d);
    assert_eq!(binding.calls[1].hname.0, 0x9dcc0f41);
    assert_eq!(binding.calls[2].hname.0, 0x3c4b5e02);
    assert_eq!(binding.calls[3].hname.0, 0x84168cb4);
    assert_eq!(binding.calls[4].hname.0, 0xfab0f8d2);
    assert_eq!(binding.calls[0].params, vec![String::from("a")]);
    assert!(binding.calls[0].results.is_empty());
    assert_eq!(binding.calls[3].params, vec![String::from("a")]);
    assert_eq!(binding.calls[3].results, vec![String::from("balance")]);
}

#[test]
fn compile_rejects_duplicate_function_name() {
    let schema = ContractSchema {
        name: String::from("twice"),
        description: String::from("duplicate entry points"),
        funcs: vec![entry("deposit", &[], &[]), entry("deposit", &[], &[])],
        views: vec![],
    };
    assert!(matches!(compile(&schema), Err(SchemaError::DuplicateName)));
}

#[test]
fn compile_rejects_duplicate_name_across_kinds() {
    let schema = ContractSchema {
        name: String::from("twice"),
        description: String::from("a function and a view sharing a name"),
        funcs: vec![entry("deposit", &[], &[])],
        views: vec![entry("deposit", &[], &[])],
    };
    assert!(matches!(compile(&schema), Err(SchemaError::DuplicateName)));
}

#[test]
fn compile_rejects_empty_entry_name() {
    let schema = ContractSchema {
        name: String::from("named"),
        description: String::from("an entry point without a name"),
        funcs: vec![entry("deposit", &[], &[])],
        views: vec![entry("", &[], &[])],
    };
    assert!(matches!(compile(&schema), Err(SchemaError::EmptyName)));
}

#[test]
fn compile_rejects_empty_contract_name() {
    let schema = ContractSchema {
        name: String::new(),
        description: String::from("a contract without a name"),
        funcs: vec![entry("deposit", &[], &[])],
        views: vec![],
    };
    assert!(matches!(compile(&schema), Err(SchemaError::EmptyName)));
}

#[test]
fn empty_name_is_reported_before_duplicates() {
    let schema = ContractSchema {
        name: String::from("both"),
        description: String::from("an empty name and a duplicate"),
        funcs: vec![entry("deposit", &[], &[]), entry("deposit", &[], &[])],
        views: vec![entry("", &[], &[])],
    };
    assert!(matches!(compile(&schema), Err(SchemaError::EmptyName)));
}

#[test]
fn compile_and_render_twice_is_byte_identical() {
    let first = render(&compile(&accounts_schema()).unwrap());
    let second = render(&compile(&accounts_schema()).unwrap());
    assert_eq!(first.as_bytes(), second.as_bytes());
}

#[test]
fn render_emits_expected_text() {
    let schema = ContractSchema {
        name: String::from("accounts"),
        description: String::from("Core chain account ledger contract"),
        funcs: vec![entry("deposit", &["a"], &[])],
        views: vec![entry("balance", &["a"], &["balance"])],
    };
    let text = render(&compile(&schema).unwrap());
    let expected = "contract \"accounts\" 0x3c4b5e02\n\
                    description \"Core chain account ledger contract\"\n\
                    func \"deposit\" 0xbdc9102d\n\
                    \x20 param \"a\"\n\
                    view \"balance\" 0x84168cb4\n\
                    \x20 param \"a\"\n\
                    \x20 result \"balance\"\n";
    assert_eq!(text, expected);
}
