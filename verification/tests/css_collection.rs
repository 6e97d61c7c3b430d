use sir::CssCollection;

#[test]
fn empty_collection_has_empty_css() {
    let collection = CssCollection::new();
    assert_eq!(collection.get_css(), "");
}

#[test]
fn single_fragment_has_no_separator() {
    let mut collection = CssCollection::new();
    collection.register("a {\n  b: c;\n}\n".to_string());
    assert_eq!(collection.get_css(), "a {\n  b: c;\n}\n");
}

#[test]
fn two_fragments_are_joined_by_one_newline() {
    let mut collection = CssCollection::new();
    collection.register("F1".to_string());
    collection.register("F2".to_string());
    assert_eq!(collection.get_css(), "F1\nF2");
}

#[test]
fn fragments_keep_their_order() {
    let mut collection = CssCollection::new();
    for fragment in ["b", "a", "", "c", "a"] {
        collection.register(fragment.to_string());
    }
    assert_eq!(collection.get_css(), "b\na\n\nc\na");
}

#[test]
fn get_css_does_not_change_the_collection() {
    let mut collection = CssCollection::new();
    collection.register("x".to_string());
    assert_eq!(collection.get_css(), collection.get_css());
    collection.register("y".to_string());
    assert_eq!(collection.get_css(), "x\ny");
}
