use swiftsc_lsp::store::DocumentStore;

#[test]
fn new_store_holds_nothing() {
    let store = DocumentStore::new();
    assert_eq!(store.get("file:///a.sc"), None);
    assert_eq!(store.get(""), None);
}

#[test]
fn update_inserts_a_new_document() {
    let mut store = DocumentStore::new();
    store.update("file:///a.sc".to_string(), "contract A {}".to_string());
    assert_eq!(store.get("file:///a.sc"), Some(&"contract A {}".to_string()));
    assert_eq!(store.get("file:///b.sc"), None);
}

#[test]
fn update_replaces_the_text_of_an_open_document() {
    let mut store = DocumentStore::new();
    store.update("file:///a.sc".to_string(), "one".to_string());
    store.update("file:///a.sc".to_string(), "two".to_string());
    assert_eq!(store.get("file:///a.sc").map(|t| t.as_str()), Some("two"));
    store.update("file:///a.sc".to_string(), String::new());
    assert_eq!(store.get("file:///a.sc").map(|t| t.as_str()), Some(""));
}

#[test]
fn update_leaves_other_documents_alone() {
    let mut store = DocumentStore::new();
    store.update("a".to_string(), "text a".to_string());
    store.update("b".to_string(), "text b".to_string());
    store.update("c".to_string(), "text c".to_string());
    store.update("b".to_string(), "new b".to_string());
    assert_eq!(store.get("a").map(|t| t.as_str()), Some("text a"));
    assert_eq!(store.get("b").map(|t| t.as_str()), Some("new b"));
    assert_eq!(store.get("c").map(|t| t.as_str()), Some("text c"));
    store.update("a".to_string(), "new a".to_string());
    store.update("c".to_string(), "new c".to_string());
    assert_eq!(store.get("a").map(|t| t.as_str()), Some("new a"));
    assert_eq!(store.get("b").map(|t| t.as_str()), Some("new b"));
    assert_eq!(store.get("c").map(|t| t.as_str()), Some("new c"));
}

#[test]
fn identifiers_are_compared_as_whole_texts() {
    let mut store = DocumentStore::new();
    store.update("file:///a.sc".to_string(), "a".to_string());
    assert_eq!(store.get("file:///a.s"), None);
    assert_eq!(store.get("file:///a.scx"), None);
    assert_eq!(store.get("FILE:///a.sc"), None);
    store.update("file:///a.scx".to_string(), "ax".to_string());
    assert_eq!(store.get("file:///a.sc").map(|t| t.as_str()), Some("a"));
    assert_eq!(store.get("file:///a.scx").map(|t| t.as_str()), Some("ax"));
}

#[test]
fn non_ascii_text_is_kept_as_it_is() {
    let mut store = DocumentStore::new();
    store.update("file:///ü.sc".to_string(), "// größe\ncontract Ü {}".to_string());
    assert_eq!(store.get("file:///ü.sc").map(|t| t.as_str()), Some("// größe\ncontract Ü {}"));
}
