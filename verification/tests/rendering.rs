use std::fmt;

use typed_select::{OptionMarkup, Props, Select, SelectMarkup};
use yew::Callback;

#[derive(Clone, Debug, PartialEq)]
struct Shipping(String);

impl fmt::Display for Shipping {
    fn fmt(&self, f: &mut fmt::Formatter<'_>) -> fmt::Result {
        f.write_str(&self.0.to_uppercase())
    }
}

fn words(selected: Option<&str>, disabled: bool) -> Props<String> {
    Props {
        selected: selected.map(String::from),
        disabled,
        options: vec!["apple".to_string(), "pear".to_string(), "orange".to_string()],
        onchange: Callback::noop(),
    }
}

fn marks(markup: &SelectMarkup) -> Vec<bool> {
    markup.children.iter().map(|entry| entry.selected).collect()
}

fn entry(text: &str, selected: bool) -> OptionMarkup {
    OptionMarkup {
        selected,
        disabled: false,
        value: Some(text.to_string()),
        label: text.to_string(),
    }
}

fn placeholder(selected: bool) -> OptionMarkup {
    OptionMarkup { selected, disabled: true, value: None, label: "\u{21aa}".to_string() }
}

#[test]
fn no_selection_shows_placeholder_checked() {
    let select = Select::create(words(None, false));
    let markup = select.view();
    let expected = SelectMarkup {
        disabled: false,
        children: vec![
            placeholder(true),
            entry("apple", false),
            entry("pear", false),
            entry("orange", false),
        ],
    };
    assert_eq!(markup, expected);
}

#[test]
fn selection_marks_its_option_and_not_the_placeholder() {
    let select = Select::create(words(Some("pear"), false));
    let markup = select.view();
    let expected = SelectMarkup {
        disabled: false,
        children: vec![
            placeholder(false),
            entry("apple", false),
            entry("pear", true),
            entry("orange", false),
        ],
    };
    assert_eq!(markup, expected);
}

#[test]
fn selection_outside_the_options_marks_nothing() {
    let select = Select::create(words(Some("plum"), false));
    assert_eq!(marks(&select.view()), vec![false, false, false, false]);
}

#[test]
fn equal_options_are_marked_alike() {
    let props = Props {
        selected: Some(7u32),
        disabled: false,
        options: vec![7u32, 3, 7],
        onchange: Callback::noop(),
    };
    let select = Select::create(props);
    assert_eq!(marks(&select.view()), vec![false, true, false, true]);
}

#[test]
fn disabled_flag_is_mirrored() {
    assert!(Select::create(words(None, true)).view().disabled);
    assert!(!Select::create(words(None, false)).view().disabled);
    assert!(Select::create(words(Some("apple"), true)).view().disabled);
}

#[test]
fn empty_option_list_renders_only_the_placeholder() {
    let props: Props<String> =
        Props { selected: None, disabled: false, options: Vec::new(), onchange: Callback::noop() };
    let markup = Select::create(props).view();
    assert_eq!(markup.children, vec![placeholder(true)]);
}

#[test]
fn placeholder_is_a_single_glyph_that_cannot_be_picked() {
    let markup = Select::create(words(Some("apple"), false)).view();
    let first = &markup.children[0];
    assert_eq!(first.label, "↪");
    assert_eq!(first.label.chars().count(), 1);
    assert!(first.disabled);
    assert_eq!(first.value, None);
    assert_eq!(*first, OptionMarkup::placeholder(false));
    assert_eq!(OptionMarkup::placeholder(true).selected, true);
}

#[test]
fn choice_carries_its_text_twice() {
    let built = OptionMarkup::choice("pear".to_string(), true);
    assert_eq!(built, entry("pear", true));
    assert_eq!(OptionMarkup::choice(String::new(), false), entry("", false));
}

#[test]
fn label_and_value_are_the_display_string() {
    let props = Props {
        selected: Some(Shipping("us_express".to_string())),
        disabled: false,
        options: vec![Shipping("eu_ground".to_string()), Shipping("us_express".to_string())],
        onchange: Callback::noop(),
    };
    let markup = Select::create(props).view();
    assert_eq!(
        markup.children,
        vec![placeholder(false), entry("EU_GROUND", false), entry("US_EXPRESS", true)]
    );
}

#[test]
fn same_configuration_renders_the_same_twice() {
    let mut select = Select::create(words(Some("orange"), true));
    let first = select.view();
    let again = select.view();
    assert_eq!(first, again);
    assert!(select.change(words(Some("orange"), true)));
    let second = select.view();
    assert!(select.change(words(Some("orange"), true)));
    let third = select.view();
    assert_eq!(first, second);
    assert_eq!(second, third);
}

#[test]
fn repeated_reset_keeps_the_first_option_checked() {
    let mut select = Select::create(words(None, false));
    assert_eq!(marks(&select.view()), vec![true, false, false, false]);
    for _ in 0..3 {
        assert!(select.change(words(Some("apple"), false)));
        assert_eq!(marks(&select.view()), vec![false, true, false, false]);
    }
    assert!(select.change(words(Some("orange"), false)));
    assert_eq!(marks(&select.view()), vec![false, false, false, true]);
    for _ in 0..2 {
        assert!(select.change(words(Some("apple"), false)));
        assert_eq!(marks(&select.view()), vec![false, true, false, false]);
    }
}

#[test]
fn create_stores_the_configuration_verbatim() {
    let select = Select::create(words(Some("pear"), true));
    let props = select.props();
    assert_eq!(props.selected, Some("pear".to_string()));
    assert!(props.disabled);
    assert_eq!(props.options, vec!["apple", "pear", "orange"]);
}

#[test]
fn change_replaces_the_configuration_wholesale() {
    let mut select = Select::create(words(Some("pear"), true));
    let next = Props {
        selected: None,
        disabled: false,
        options: vec!["kiwi".to_string()],
        onchange: Callback::noop(),
    };
    assert!(select.change(next));
    assert_eq!(select.props().selected, None);
    assert!(!select.props().disabled);
    assert_eq!(select.props().options, vec!["kiwi"]);
    assert_eq!(select.view().children, vec![placeholder(true), entry("kiwi", false)]);
}
