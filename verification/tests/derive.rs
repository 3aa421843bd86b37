//! The expansion of the derive.
use std::str::FromStr;

use watchable_rs::derive::{derive_watchable, impl_watchable, DeriveError};
use watchable_rs::derive_input::{Body, Field, Header};
use watchable_rs::{Direct, Watchable, Watcher};

/// The tokens of a text, however they are spaced.
fn tokens(text: &str) -> String {
    let tokens = proc_macro2::TokenStream::from_str(text).unwrap().to_string();
    tokens.chars().filter(|c| !c.is_whitespace()).collect()
}

/// The message of an error that the derive has the words for.
fn refusal(text: &str) -> &'static str {
    match derive_watchable(text) {
        Err(error) => error.message().unwrap(),
        Ok(_) => panic!("nothing should be derived for this"),
    }
}

const CONFIG: &str = r#"
/// Observable wrapper where each field is independently watchable.
struct WatchableConfig {
    pub name: watchable_rs::Watchable<String>,
    count: watchable_rs::Watchable<u32>,
}

impl WatchableConfig
where
    String: Clone,
    u32: Clone,
{
    /// Creates a new watchable wrapper from a value.
    pub fn new(value: Config) -> Self {
        Self {
            name: watchable_rs::Watchable::new(value.name),
            count: watchable_rs::Watchable::new(value.count),
        }
    }

    /// Returns a snapshot of all fields as the original struct.
    pub fn get(&self) -> Config {
        Config {
            name: self.name.get(),
            count: self.count.get(),
        }
    }

    /// Sets all fields from a value.
    pub fn set(&self, value: Config) {
        self.name.set(value.name);
        self.count.set(value.count);
    }

    /// Creates a watcher that observes all fields.
    pub fn watch(&self) -> ConfigWatcher {
        ConfigWatcher {
            name: self.name.watch(),
            count: self.count.watch(),
        }
    }

    /// Sets the value of the `
    #[doc = stringify!(name)]
    /// ` field.
    pub fn set_name(&self, value: String) {
        self.name.set(value);
    }
    /// Sets the value of the `
    #[doc = stringify!(count)]
    /// ` field.
    pub fn set_count(&self, value: u32) {
        self.count.set(value);
    }
}

impl Clone for WatchableConfig {
    fn clone(&self) -> Self {
        Self {
            name: self.name.clone(),
            count: self.count.clone(),
        }
    }
}

/// Watcher that observes each field of the original struct independently.
struct ConfigWatcher {
    pub name: watchable_rs::Direct<String>,
    count: watchable_rs::Direct<u32>,
}

impl ConfigWatcher
where
    String: Clone,
    u32: Clone,
{
    /// Returns a snapshot of all fields as the original struct.
    pub fn get(&mut self) -> Config {
        Config {
            name: watchable_rs::Watcher::get(&mut self.name),
            count: watchable_rs::Watcher::get(&mut self.count),
        }
    }

    /// Returns a snapshot without updating internal state.
    pub fn peek(&self) -> Config {
        Config {
            name: watchable_rs::Watcher::peek(&self.name).clone(),
            count: watchable_rs::Watcher::peek(&self.count).clone(),
        }
    }

    /// Updates all watchers, returns `true` if any field changed.
    pub fn update(&mut self) -> bool {
        let mut changed = false;
        changed |= watchable_rs::Watcher::update(&mut self.name);
        changed |= watchable_rs::Watcher::update(&mut self.count);
        changed
    }

    /// Returns `true` if any field has a pending change.
    pub fn has_changed(&self) -> bool {
        false
            || watchable_rs::Watcher::has_changed(&self.name)
            || watchable_rs::Watcher::has_changed(&self.count)
    }

    /// Returns `true` if all fields are still connected.
    pub fn is_connected(&self) -> bool {
        true
            && watchable_rs::Watcher::is_connected(&self.name)
            && watchable_rs::Watcher::is_connected(&self.count)
    }

    /// Returns the current cached value of the `
    #[doc = stringify!(name)]
    /// ` field.
    pub fn name(&self) -> &String {
        watchable_rs::Watcher::peek(&self.name)
    }
    /// Returns the current cached value of the `
    #[doc = stringify!(count)]
    /// ` field.
    pub fn count(&self) -> &u32 {
        watchable_rs::Watcher::peek(&self.count)
    }
}

impl Clone for ConfigWatcher
where
    String: Clone,
    u32: Clone,
{
    fn clone(&self) -> Self {
        Self {
            name: self.name.clone(),
            count: self.count.clone(),
        }
    }
}
"#;

#[test]
fn expands_a_struct() {
    let text = derive_watchable("struct Config { pub name: String, count: u32 }").ok().unwrap();
    assert_eq!(tokens(&text), tokens(CONFIG));
}

#[test]
fn spacing_and_attributes_do_not_matter() {
    let text = derive_watchable(
        "#[derive(Clone)] struct Config\n{\n    /// The name.\n    pub name : String ,\n    count:u32,\n}",
    )
    .ok()
    .unwrap();
    assert_eq!(tokens(&text), tokens(CONFIG));
}

#[test]
fn expands_generics() {
    let text = derive_watchable(
        "pub(crate) struct Pair<'a, A: Copy = u8, const N: usize = 2> where A: Default { a: &'a [A; N] }",
    )
    .ok()
    .unwrap();
    assert!(syn::parse_str::<syn::File>(&text).is_ok());
    let text = tokens(&text);
    let holds = |part: &str| text.contains(&tokens(part));
    assert!(holds("pub(crate) struct WatchablePair<'a, A: Copy = u8, const N: usize = 2> where A: Default"));
    assert!(holds("a: watchable_rs::Watchable<&'a [A; N]>,"));
    assert!(holds("impl<'a, A: Copy, const N: usize> WatchablePair<'a, A, N> where &'a [A; N]: Clone,"));
    assert!(holds("pub fn new(value: Pair<'a, A, N>) -> Self"));
    assert!(holds("impl<'a, A: Copy, const N: usize> Clone for WatchablePair<'a, A, N> where A: Default"));
    assert!(holds("pub(crate) struct PairWatcher<'a, A: Copy = u8, const N: usize = 2> where A: Default"));
    assert!(holds("pub fn watch(&self) -> PairWatcher<'a, A, N>"));
    assert!(holds("impl<'a, A: Copy, const N: usize> Clone for PairWatcher<'a, A, N> where &'a [A; N]: Clone,"));
}

#[test]
fn raw_names_lose_their_mark_in_longer_names() {
    let text = derive_watchable("struct r#fn { r#type: u8 }").ok().unwrap();
    let text = tokens(&text);
    assert!(text.contains(&tokens("struct Watchablefn")));
    assert!(text.contains(&tokens("struct fnWatcher")));
    assert!(text.contains(&tokens("pub fn new(value: r#fn) -> Self")));
    assert!(text.contains(&tokens("pub fn set_type(&self, value: u8) { self.r#type.set(value); }")));
    assert!(text.contains(&tokens("pub fn r#type(&self) -> &u8")));
}

#[test]
fn expands_a_struct_with_braces_and_no_fields() {
    let text = derive_watchable("struct Nothing {}").ok().unwrap();
    assert!(syn::parse_str::<syn::File>(&text).is_ok());
    let text = tokens(&text);
    assert!(text.contains(&tokens("pub fn has_changed(&self) -> bool { false }")));
    assert!(text.contains(&tokens("pub fn is_connected(&self) -> bool { true }")));
}

#[test]
fn every_field_is_covered() {
    let text = derive_watchable("struct Three { a: u8, b: Vec<u8>, c: (u8, u8) }").ok().unwrap();
    let text = tokens(&text);
    for (name, ty) in [("a", "u8"), ("b", "Vec<u8>"), ("c", "(u8, u8)")] {
        assert!(text.contains(&tokens(&format!("{name}: watchable_rs::Watchable<{ty}>,"))));
        assert!(text.contains(&tokens(&format!("{name}: watchable_rs::Direct<{ty}>,"))));
        assert!(text.contains(&tokens(&format!("pub fn set_{name}(&self, value: {ty})"))));
        assert!(text.contains(&tokens(&format!("pub fn {name}(&self) -> &{ty}"))));
    }
}

#[test]
fn refuses_structs_without_named_fields() {
    let message = "Watchable can only be derived for structs with named fields";
    assert_eq!(refusal("struct Tuple(u8, u8);"), message);
    assert_eq!(refusal("struct Unit;"), message);
}

#[test]
fn refuses_what_is_no_struct() {
    let message = "Watchable can only be derived for structs";
    assert_eq!(refusal("enum Choice { A, B }"), message);
    assert_eq!(refusal("union Bits { a: u8, b: i8 }"), message);
}

#[test]
fn refuses_what_is_no_item() {
    for text in ["", "struct", "struct A { a: }", "fn f() {}", "struct A; struct B;", "struct A {"] {
        match derive_watchable(text) {
            Err(DeriveError::Syntax(error)) => assert!(!error.to_string().is_empty()),
            _ => panic!("{text:?} is no item"),
        }
        assert!(derive_watchable(text).err().unwrap().message().is_none());
    }
}

#[test]
fn expands_what_was_parsed() {
    let header = Header {
        name: "Config".to_string(),
        vis: String::new(),
        params: String::new(),
        impl_params: String::new(),
        args: String::new(),
        clause: String::new(),
    };
    let field = |vis: &str, name: &str, ty: &str| Field {
        vis: vis.to_string(),
        name: name.to_string(),
        ty: ty.to_string(),
    };
    let fields = vec![field("pub", "name", "String"), field("", "count", "u32")];
    let text = impl_watchable(&header, &Body::Named(fields)).ok().unwrap();
    assert_eq!(tokens(&text), tokens(CONFIG));
    assert!(matches!(impl_watchable(&header, &Body::Unnamed), Err(DeriveError::UnnamedFields)));
    assert!(matches!(impl_watchable(&header, &Body::Unit), Err(DeriveError::UnnamedFields)));
    assert!(matches!(impl_watchable(&header, &Body::Enum), Err(DeriveError::NotStruct)));
    assert!(matches!(impl_watchable(&header, &Body::Union), Err(DeriveError::NotStruct)));
}

// The expansion for `Config`, as far as the scenario below needs it.

#[derive(Clone, Debug, PartialEq)]
struct Config {
    name: String,
    count: u32,
}

struct WatchableConfig {
    name: Watchable<String>,
    count: Watchable<u32>,
}

impl WatchableConfig {
    fn new(value: Config) -> Self {
        Self {
            name: Watchable::new(value.name),
            count: Watchable::new(value.count),
        }
    }

    fn set(&self, value: Config) {
        self.name.set(value.name);
        self.count.set(value.count);
    }

    fn watch(&self) -> ConfigWatcher {
        ConfigWatcher {
            name: self.name.watch(),
            count: self.count.watch(),
        }
    }

    fn set_name(&self, value: String) {
        self.name.set(value);
    }
}

struct ConfigWatcher {
    name: Direct<String>,
    count: Direct<u32>,
}

impl ConfigWatcher {
    fn get(&mut self) -> Config {
        Config {
            name: Watcher::get(&mut self.name),
            count: Watcher::get(&mut self.count),
        }
    }

    fn update(&mut self) -> bool {
        let mut changed = false;
        changed |= Watcher::update(&mut self.name);
        changed |= Watcher::update(&mut self.count);
        changed
    }

    fn has_changed(&self) -> bool {
        false || Watcher::has_changed(&self.name) || Watcher::has_changed(&self.count)
    }

    fn name(&self) -> &String {
        Watcher::peek(&self.name)
    }
}

#[test]
fn expansion_watches_each_field() {
    let w = WatchableConfig::new(Config { name: "hello".into(), count: 42 });
    let mut watcher = w.watch();

    assert_eq!(watcher.name(), "hello");
    assert!(!watcher.has_changed());

    w.set_name("world".into());
    assert!(watcher.has_changed());
    assert!(!watcher.count.has_changed());
    assert!(watcher.update());
    assert_eq!(watcher.name(), "world");

    w.set(Config { name: "again".into(), count: 7 });
    assert_eq!(watcher.get(), Config { name: "again".into(), count: 7 });
}
