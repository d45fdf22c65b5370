use dominator_kit::css::{add_css, add_mobile_css, identifier_from, State, StyleRegistry, CSS};

fn is_identifier(s: &str) -> bool {
    s.len() == 8 && s.chars().all(|c| c.is_ascii_lowercase())
}

#[test]
fn add_property_overwrites_existing_key() {
    let mut state = State::new();
    state.add_property("color", "red");
    state.add_property("display", "flex");
    state.add_property("color", "blue");
    assert_eq!(
        state.properties,
        vec![
            ("color".to_string(), "blue".to_string()),
            ("display".to_string(), "flex".to_string()),
        ]
    );
}

#[test]
fn bulk_adds_each_pair_last_write_wins() {
    let mut state = State::new();
    state.bulk(&[
        ("margin".to_string(), "0".to_string()),
        ("padding".to_string(), "1rem".to_string()),
        ("margin".to_string(), "2rem".to_string()),
    ]);
    assert_eq!(
        state.properties,
        vec![
            ("margin".to_string(), "2rem".to_string()),
            ("padding".to_string(), "1rem".to_string()),
        ]
    );
}

#[test]
fn declarations_are_one_per_line() {
    let mut state = State::new();
    state.add_property("color", "red");
    state.add_property("display", "flex");
    assert_eq!(state.declarations(), "color: red;\ndisplay: flex;\n");
}

#[test]
fn generate_registers_one_base_entry() {
    let mut state = State::new();
    state.add_property("color", "red");
    let mut css = CSS::new();
    css.add_state(None, state);
    let mut registry = StyleRegistry::new();
    let id = css.generate(&mut registry);
    assert!(is_identifier(&id));
    assert_eq!(registry.rules.len(), 1);
    assert_eq!(registry.mobile_rules.len(), 0);
    let (key, body) = &registry.rules[0];
    assert_eq!(key, &id);
    assert!(body.contains("color: red;"));
}

#[test]
fn generate_appends_suffix_to_identifier() {
    let mut base = State::new();
    base.add_property("color", "red");
    let mut hover = State::new();
    hover.add_property("color", "blue");
    let mut narrow = State::new();
    narrow.add_property("display", "none");
    let mut css = CSS::new();
    css.add_state(None, base);
    css.add_state(Some(":hover"), hover);
    css.add_mobile(None, narrow);
    let mut registry = StyleRegistry::new();
    let id = css.generate(&mut registry);
    assert_eq!(
        registry.rules,
        vec![
            (id.clone(), "color: red;\n".to_string()),
            (format!("{}:hover", id), "color: blue;\n".to_string()),
        ]
    );
    assert_eq!(registry.mobile_rules, vec![(id.clone(), "display: none;\n".to_string())]);
}

#[test]
fn add_state_replaces_group_with_same_suffix() {
    let mut first = State::new();
    first.add_property("color", "red");
    let mut second = State::new();
    second.add_property("color", "green");
    let mut css = CSS::new();
    css.add_state(Some(":hover"), first);
    css.add_state(Some(":hover"), second);
    assert_eq!(css.states.len(), 1);
    assert_eq!(css.states[0].0, ":hover");
    assert_eq!(css.states[0].1.properties, vec![("color".to_string(), "green".to_string())]);
}

#[test]
fn identifiers_are_distinct_across_a_batch() {
    let mut registry = StyleRegistry::new();
    let mut ids: Vec<String> = Vec::new();
    for _ in 0..1000 {
        let mut state = State::new();
        state.add_property("color", "red");
        let mut css = CSS::new();
        css.add_state(None, state);
        ids.push(css.generate(&mut registry));
    }
    assert!(ids.iter().all(|id| is_identifier(id)));
    let mut sorted = ids.clone();
    sorted.sort();
    sorted.dedup();
    assert_eq!(sorted.len(), 1000);
    assert_eq!(registry.rules.len(), 1000);
}

#[test]
fn stylesheet_holds_generated_rule_line() {
    let mut state = State::new();
    state.add_property("display", "flex");
    let mut css = CSS::new();
    css.add_state(None, state);
    let mut registry = StyleRegistry::new();
    let id = css.generate(&mut registry);
    let text = registry.stylesheet();
    let line = format!(".{} {{ display: flex;\n }}", id);
    assert!(text.contains(&line));
    assert_eq!(text, format!("{}\n@media screen and (max-width: 768px) {{  }}", line));
}

#[test]
fn stylesheet_wraps_mobile_rules_in_media_query() {
    let mut registry = StyleRegistry::new();
    add_css(&mut registry, "abc".to_string(), "color: red;\n".to_string());
    add_css(&mut registry, "abc:hover".to_string(), "color: blue;\n".to_string());
    add_mobile_css(&mut registry, "abc".to_string(), "display: none;\n".to_string());
    assert_eq!(
        registry.stylesheet(),
        ".abc { color: red;\n }\n.abc:hover { color: blue;\n }\n@media screen and (max-width: 768px) { .abc { display: none;\n } }"
    );
}

#[test]
fn add_css_replaces_existing_key() {
    let mut registry = StyleRegistry::new();
    add_css(&mut registry, "abc".to_string(), "color: red;\n".to_string());
    add_css(&mut registry, "abc".to_string(), "color: blue;\n".to_string());
    assert_eq!(registry.rules, vec![("abc".to_string(), "color: blue;\n".to_string())]);
    assert!(registry.mobile_rules.is_empty());
}

#[test]
fn empty_registry_renders_empty_media_query() {
    let registry = StyleRegistry::new();
    assert_eq!(registry.stylesheet(), "\n@media screen and (max-width: 768px) {  }");
}

#[test]
fn identifier_spells_the_draws() {
    assert_eq!(identifier_from(&vec![0, 1, 2, 25, 7, 4, 11, 11]), "abczhell");
    assert_eq!(identifier_from(&vec![]), "");
}

#[test]
fn new_css_has_identifier_and_no_rules() {
    let css = CSS::new();
    assert!(is_identifier(&css.identifier));
    assert!(css.states.is_empty());
    assert!(css.mobile_states.is_empty());
}
