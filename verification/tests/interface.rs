use anchor_cli_wasm::error::ResolveError;
use anchor_cli_wasm::interface::{get_idl, interface_from, parse_idl, resolve_idl};
use anchor_cli_wasm::workspace::Workspace;
use anchor_syn::idl::Idl;

const DOCUMENT: &str = r#"{
  "version": "0.1.0",
  "name": "counter",
  "instructions": [
    {
      "name": "increment",
      "accounts": [
        { "name": "counter", "isMut": true, "isSigner": false },
        { "name": "authority", "isMut": false, "isSigner": true }
      ],
      "args": [ { "name": "amount", "type": "u64" } ]
    }
  ],
  "accounts": [
    {
      "name": "Counter",
      "type": {
        "kind": "struct",
        "fields": [
          { "name": "authority", "type": "publicKey" },
          { "name": "count", "type": "u64" }
        ]
      }
    }
  ],
  "errors": [ { "code": 6000, "name": "Overflow", "msg": "counter overflow" } ]
}"#;

fn workspace(idl_string: Option<&str>) -> Workspace {
    Workspace {
        endpoint: "https://example-rpc".to_string(),
        commitment: "confirmed".to_string(),
        keypair_bytes: Vec::new(),
        idl_string: idl_string.map(|s| s.to_string()),
        pk_string: None,
    }
}

#[test]
fn missing_document_is_interface_not_found() {
    assert_eq!(get_idl(&workspace(None)).err(), Some(ResolveError::InterfaceNotFound));
    assert_eq!(resolve_idl(None).err(), Some(ResolveError::InterfaceNotFound));
}

#[test]
fn well_formed_document_gives_structured_interface() {
    let interface = get_idl(&workspace(Some(DOCUMENT))).unwrap();
    assert_eq!(interface.document, DOCUMENT);
    assert_eq!(interface.idl.version, "0.1.0");
    assert_eq!(interface.idl.name, "counter");
    assert_eq!(interface.idl.instructions.len(), 1);
    assert_eq!(interface.idl.instructions[0].name, "increment");
    assert_eq!(interface.idl.instructions[0].accounts.len(), 2);
    assert_eq!(interface.idl.instructions[0].args.len(), 1);
    assert_eq!(interface.idl.accounts.len(), 1);
    assert_eq!(interface.idl.accounts[0].name, "Counter");
    assert!(interface.idl.types.is_empty());
    let errors = interface.idl.errors.unwrap();
    assert_eq!(errors.len(), 1);
    assert_eq!(errors[0].code, 6000);
    assert_eq!(errors[0].name, "Overflow");
}

#[test]
fn minimal_document_resolves() {
    let text = r#"{"version":"1.2.3","name":"empty","instructions":[]}"#;
    let interface = parse_idl(text).unwrap();
    assert_eq!(interface.document, text);
    assert_eq!(interface.idl.name, "empty");
    assert_eq!(interface.idl.version, "1.2.3");
    assert!(interface.idl.instructions.is_empty());
    assert!(interface.idl.docs.is_none());
}

#[test]
fn malformed_document_is_interface_malformed() {
    for text in ["", "not json", "{}", "[]", r#"{"version":"0.1.0","name":"x"}"#, "{\"version\":"] {
        assert_eq!(get_idl(&workspace(Some(text))).err(), Some(ResolveError::InterfaceMalformed));
        assert_eq!(parse_idl(text).err(), Some(ResolveError::InterfaceMalformed));
    }
}

#[test]
fn stored_interface_round_trips() {
    let first = get_idl(&workspace(Some(DOCUMENT))).unwrap();
    let produced = serde_json::to_string(&first.idl).unwrap();
    let again = get_idl(&workspace(Some(&produced))).unwrap();
    assert_eq!(again.idl, first.idl);
    assert_eq!(again.document, produced);
    let once_more = get_idl(&workspace(Some(&again.document))).unwrap();
    assert_eq!(once_more.idl, first.idl);
    assert_eq!(once_more.document, again.document);
}

#[test]
fn parser_answer_becomes_interface_or_error() {
    let idl = serde_json::from_str::<Idl>(DOCUMENT).unwrap();
    let interface = interface_from(DOCUMENT, Ok(idl.clone())).unwrap();
    assert_eq!(interface.idl, idl);
    assert_eq!(interface.document, DOCUMENT);
    let error = serde_json::from_str::<Idl>("nothing").unwrap_err();
    assert_eq!(interface_from("nothing", Err(error)).err(), Some(ResolveError::InterfaceMalformed));
}

#[test]
fn odd_document_is_kept_as_written() {
    let text = r#"{"version":"0.0.0","name":"twice","instructions":[
        {"name":"run","accounts":[],"args":[]},
        {"name":"run","accounts":[],"args":[{"name":"n","type":"u8"}]},
        {"name":"again","accounts":[],"args":[]}]}"#;
    let interface = get_idl(&workspace(Some(text))).unwrap();
    assert_eq!(interface.idl, serde_json::from_str::<Idl>(text).unwrap());
    let names: Vec<&str> = interface.idl.instructions.iter().map(|i| i.name.as_str()).collect();
    assert_eq!(names, vec!["run", "run", "again"]);
    assert_eq!(interface.idl.instructions[0].args.len(), 0);
    assert_eq!(interface.idl.instructions[1].args.len(), 1);
}

#[test]
fn each_call_reflects_the_stored_document() {
    let mut state = workspace(None);
    assert_eq!(get_idl(&state).err(), Some(ResolveError::InterfaceNotFound));
    state.idl_string = Some(DOCUMENT.to_string());
    let found = get_idl(&state).unwrap();
    assert_eq!(found.idl, serde_json::from_str::<Idl>(DOCUMENT).unwrap());
    state.idl_string = Some(r#"{"version":"9","name":"other","instructions":[]}"#.to_string());
    assert_eq!(get_idl(&state).unwrap().idl.name, "other");
    state.idl_string = None;
    assert_eq!(get_idl(&state).err(), Some(ResolveError::InterfaceNotFound));
}
