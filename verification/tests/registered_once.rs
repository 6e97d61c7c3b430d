use sir::compile_style_item::compile_item;
use sir::css_macro::register_once;
use sir::{CssCollection, RegistrationLatch};

fn example_component(latch: &mut RegistrationLatch, collection: &mut CssCollection) -> bool {
    let preprocess = |scss: &str| {
        match rsass::compile_scss(scss.as_bytes(), rsass::output::Format::default()) {
            Ok(output) => Ok(output),
            Err(error) => Err(format!("{:?}", error)),
        }
    };
    let css = compile_item("_example", "text-decoration: underline;", preprocess).unwrap();
    register_once(latch, collection, &css)
}

#[test]
fn registered_once() {
    let mut collection = CssCollection::new();
    let mut latch = RegistrationLatch::new();

    example_component(&mut latch, &mut collection);
    let content_after_first = collection.get_css();

    example_component(&mut latch, &mut collection);
    let content_after_second = collection.get_css();

    assert_eq!(content_after_first, content_after_second);
}

#[test]
fn registered_once_after_many_runs() {
    let mut collection = CssCollection::new();
    let mut latch = RegistrationLatch::new();

    assert!(example_component(&mut latch, &mut collection));
    let content_after_first = collection.get_css();
    assert_eq!(content_after_first, "._example {\n  text-decoration: underline;\n}\n");

    for _ in 0..20 {
        assert!(!example_component(&mut latch, &mut collection));
    }
    assert_eq!(collection.get_css(), content_after_first);
}

#[test]
fn latch_is_set_by_the_first_swap() {
    let mut latch = RegistrationLatch::new();
    assert!(!latch.is_registered());
    assert!(!latch.swap());
    assert!(latch.is_registered());
    assert!(latch.swap());
    assert!(latch.is_registered());
}

#[test]
fn equal_fragments_of_two_sites_are_both_registered() {
    let mut collection = CssCollection::new();
    let mut first = RegistrationLatch::new();
    let mut second = RegistrationLatch::new();
    assert!(register_once(&mut first, &mut collection, "a {\n  b: c;\n}\n"));
    assert!(register_once(&mut second, &mut collection, "a {\n  b: c;\n}\n"));
    assert!(!register_once(&mut first, &mut collection, "a {\n  b: c;\n}\n"));
    assert_eq!(collection.get_css(), "a {\n  b: c;\n}\n\na {\n  b: c;\n}\n");
}

#[test]
fn sites_are_registered_in_the_order_of_their_first_run() {
    let mut collection = CssCollection::new();
    let mut latches = vec![
        RegistrationLatch::new(),
        RegistrationLatch::new(),
        RegistrationLatch::new(),
    ];
    let css = ["zero", "one", "two"];
    for site in [2usize, 0, 2, 2, 1, 0, 1] {
        register_once(&mut latches[site], &mut collection, css[site]);
    }
    assert_eq!(collection.get_css(), "two\nzero\none");
}
