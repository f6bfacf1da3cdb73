//! A plain description of the rendered control.

use vstd::prelude::*;

verus! {

/// One `option` element.
#[derive(Clone, Debug, PartialEq, Eq)]
pub struct OptionMarkup {
    /// Whether the entry is marked as the current choice.
    pub selected: bool,
    /// Whether the entry can be picked by the user.
    pub disabled: bool,
    /// The `value` attribute, where the entry carries one.
    pub value: Option<String>,
    /// The visible text.
    pub label: String,
}

/// A `select` element with its entries in display order.
#[derive(Clone, Debug, PartialEq, Eq)]
pub struct SelectMarkup {
    /// Whether the whole control is disabled.
    pub disabled: bool,
    /// The placeholder at position 0, then one entry per option.
    pub children: Vec<OptionMarkup>,
}

/// The mathematical content of an `option` element.
pub ghost struct OptionModel {
    pub selected: bool,
    pub disabled: bool,
    pub value: Option<Seq<char>>,
    pub label: Seq<char>,
}

/// The mathematical content of a `select` element.
pub ghost struct SelectModel {
    pub disabled: bool,
    pub children: Seq<OptionModel>,
}

impl View for OptionMarkup {
    type V = OptionModel;

    open spec fn view(&self) -> OptionModel {
        OptionModel {
            selected: self.selected,
            disabled: self.disabled,
            value: match self.value {
                Some(v) => Some(v@),
                None => None,
            },
            label: self.label@,
        }
    }
}

impl View for SelectMarkup {
    type V = SelectModel;

    open spec fn view(&self) -> SelectModel {
        SelectModel {
            disabled: self.disabled,
            children: Seq::new(self.children@.len(), |p: int| self.children@[p]@),
        }
    }
}

/// The text of the placeholder entry: a single rightwards arrow with hook.
pub open spec fn placeholder_glyph() -> Seq<char> {
    seq!['\u{21aa}']
}

impl OptionMarkup {
    /// What makes an entry the placeholder: it cannot be picked, carries no
    /// value, shows the glyph, and is marked exactly when nothing is chosen.
    pub open spec fn is_placeholder(&self, nothing_chosen: bool) -> bool {
        &&& self.disabled
        &&& self.selected == nothing_chosen
        &&& self.value is None
        &&& self.label@ == placeholder_glyph()
    }

    /// Builds the placeholder entry.
    pub fn placeholder(nothing_chosen: bool) -> (entry: OptionMarkup)
        ensures
            entry.is_placeholder(nothing_chosen),
    {
        proof {
            reveal_strlit("\u{21aa}");
        }
        let label = "\u{21aa}".to_owned();
        assert(label@ =~= placeholder_glyph());
        OptionMarkup { selected: nothing_chosen, disabled: true, value: None, label }
    }

    /// What makes an entry a rendering of an option with display string
    /// `text`: it can be picked, and `text` is both its value and its label.
    pub open spec fn shows(&self, text: Seq<char>) -> bool {
        &&& !self.disabled
        &&& self.label@ == text
        &&& self.value matches Some(v) && v@ == text
    }

    /// Builds the entry for an option from its display string.
    pub fn choice(text: String, selected: bool) -> (entry: OptionMarkup)
        ensures
            entry.shows(text@),
            entry.label == text,
            entry.selected == selected,
    {
        let value = text.clone();
        OptionMarkup { selected, disabled: false, value: Some(value), label: text }
    }
}

} // verus!
