//! Inline style rules for UI components: style bodies are compiled to flat
//! stylesheet text, bound to a generated class selector, registered once per
//! declaration site and collected into one aggregate stylesheet.

pub mod class_name;
pub mod compile_style_item;
pub mod css_collection;
pub mod css_macro;
pub mod style_listeners;

pub use crate::class_name::generate_class_name;
pub use crate::compile_style_item::{inner_compile_global_style, inner_compile_style_item};
pub use crate::css_collection::CssCollection;
pub use crate::css_macro::{register_once, RegistrationLatch};
pub use crate::style_listeners::{StyleListener, StyleListeners};
