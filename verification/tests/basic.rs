use rand::rngs::StdRng;
use rand::SeedableRng;
use sir::compile_style_item::{MacroOutput, MacroToken};
use sir::{generate_class_name, inner_compile_style_item, register_once};
use sir::{CssCollection, RegistrationLatch};

/// What a scoped declaration does: the expansion at build time, then the
/// registration when the site runs.
fn css(latch: &mut RegistrationLatch, collection: &mut CssCollection, literal: &str) -> String {
    let mut rng = StdRng::from_entropy();
    let item = vec![MacroToken::Literal(literal.to_string())];
    let preprocess = |scss: &str| {
        match rsass::compile_scss(scss.as_bytes(), rsass::output::Format::default()) {
            Ok(output) => Ok(output),
            Err(error) => Err(format!("{:?}", error)),
        }
    };
    match inner_compile_style_item(generate_class_name(&mut rng), item, preprocess) {
        Ok(MacroOutput::ClassAndCss { class, css }) => {
            register_once(latch, collection, &css);
            class
        }
        other => panic!("unexpected expansion: {:?}", other),
    }
}

#[test]
fn sanity_check() {
    let mut collection = CssCollection::new();
    let mut latch = RegistrationLatch::new();
    assert_eq!(collection.get_css().len(), 0);
    let class = css(&mut latch, &mut collection, "\"color: red;\"");
    let _class: &str = &class;
    assert!(collection.get_css().len() > 0);
}

#[test]
fn sanity_check_names_the_class_in_the_fragment() {
    let mut collection = CssCollection::new();
    let mut latch = RegistrationLatch::new();
    let class = css(&mut latch, &mut collection, "\"color: red;\"");
    assert_eq!(collection.get_css(), format!(".{} {{\n  color: red;\n}}\n", class));
}
