use wavu::runtimes::{resolve, same_text, ResolutionError, Runtime};

fn names(v: &[&str]) -> Vec<String> {
    v.iter().map(|s| s.to_string()).collect()
}

#[test]
fn resolves_each_known_name_in_request_order() {
    let r = resolve(&names(&["wasmtime", "wasm3", "wasmer"])).unwrap();
    assert_eq!(r, vec![Runtime::Wasmtime, Runtime::Wasm3, Runtime::Wasmer]);
}

#[test]
fn resolves_all_five_runtimes() {
    let r = resolve(&names(&["wasmer", "wasmtime", "wasm3", "wazero", "spidermonkey"])).unwrap();
    assert_eq!(
        r,
        vec![
            Runtime::Wasmer,
            Runtime::Wasmtime,
            Runtime::Wasm3,
            Runtime::Wazero,
            Runtime::Spidermonkey
        ]
    );
}

#[test]
fn repeated_name_resolves_once() {
    let r = resolve(&names(&["wasm3", "wazero", "wasm3"])).unwrap();
    assert_eq!(r, vec![Runtime::Wasm3, Runtime::Wazero]);
}

#[test]
fn empty_request_resolves_to_nothing() {
    let r = resolve(&Vec::new()).unwrap();
    assert!(r.is_empty());
}

#[test]
fn unknown_name_anywhere_fails_with_that_name() {
    let r = resolve(&names(&["wasmer", "wasmedge", "wasm3"]));
    assert_eq!(r, Err(ResolutionError { name: "wasmedge".to_string() }));
}

#[test]
fn first_unknown_name_is_reported() {
    let r = resolve(&names(&["wasm3", "node", "deno"]));
    assert_eq!(r, Err(ResolutionError { name: "node".to_string() }));
}

#[test]
fn names_are_case_sensitive() {
    let r = resolve(&names(&["Wasmer"]));
    assert_eq!(r, Err(ResolutionError { name: "Wasmer".to_string() }));
}

#[test]
fn prefix_of_a_name_is_unknown() {
    assert_eq!(Runtime::from_name("wasm"), None);
    assert_eq!(Runtime::from_name("wasmerx"), None);
    assert_eq!(Runtime::from_name(""), None);
}

#[test]
fn names_round_trip() {
    for r in [
        Runtime::Wasmer,
        Runtime::Wasmtime,
        Runtime::Wasm3,
        Runtime::Wazero,
        Runtime::Spidermonkey,
    ] {
        assert_eq!(Runtime::from_name(r.name()), Some(r));
    }
    assert_eq!(Runtime::Spidermonkey.name(), "spidermonkey");
    assert_eq!(Runtime::Wasm3.name(), "wasm3");
}

#[test]
fn same_text_compares_characters() {
    assert!(same_text("wasmer", "wasmer"));
    assert!(!same_text("wasmer", "wasmtime"));
    assert!(!same_text("wasm", "wasm3"));
    assert!(same_text("", ""));
    assert!(same_text("é", "é"));
}
