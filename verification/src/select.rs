//! The `Select` component: its configuration, the messages it handles, and
//! the mapping between rendered positions and typed options.

use core::fmt::Display;
use vstd::prelude::*;
use vstd::std_specs::cmp::PartialEqSpec;
use vstd::string::to_string_from_display_ensures;
use yew::Callback;

use crate::markup::{OptionMarkup, SelectMarkup};
use crate::message::Msg;

verus! {

/// Properties of the `Select` component.
#[verifier::reject_recursive_types(T)]
pub struct Props<T> {
    /// The currently selected value, if any.
    pub selected: Option<T>,
    /// Disables the component's selector.
    pub disabled: bool,
    /// The options available to choose from, in display order.
    pub options: Vec<T>,
    /// Callback that receives the option the user picked.
    pub onchange: Callback<T>,
}

/// `Select` component: a single-choice dropdown over a typed option list.
/// It holds nothing but its current configuration; beside it stands a
/// record, for proofs only, of the values it has handed to `onchange`.
#[verifier::reject_recursive_types(T)]
pub struct Select<T> {
    props: Props<T>,
    handed: Ghost<Seq<T>>,
}

impl<T> Props<T> {
    /// The index into `options` that a message picks: position `p` with
    /// `1 <= p <= options.len()` picks `options[p - 1]`; the placeholder,
    /// an absent position and a position past the end pick nothing.
    pub open spec fn picked(&self, msg: Msg) -> Option<int> {
        match msg {
            Msg::Selected(Some(position)) => if 1 <= position <= self.options@.len() {
                Some(position - 1)
            } else {
                None
            },
            Msg::Selected(None) => None,
        }
    }
}

impl<T: PartialEq + Display> Props<T> {
    /// Whether `flag` is a correct "chosen" mark for `options[i]`: with no
    /// selection no option is marked; with a selection the mark is the
    /// outcome of comparing the selection with the option.
    pub open spec fn marks(&self, i: int, flag: bool) -> bool {
        match self.selected {
            None => !flag,
            Some(v) => T::obeys_eq_spec() ==> flag == v.eq_spec(&self.options@[i]),
        }
    }

    /// Whether `entry` renders `options[i]`: value and label are both the
    /// option's display string, and the mark is correct.
    pub open spec fn renders_option(&self, i: int, entry: OptionMarkup) -> bool {
        &&& entry.shows(entry.label@)
        &&& to_string_from_display_ensures::<T>(&self.options@[i], entry.label)
        &&& self.marks(i, entry.selected)
    }

    /// Whether `markup` renders this configuration: the control mirrors
    /// `disabled`, the placeholder leads and is marked exactly when nothing
    /// is selected, and position `p >= 1` renders `options[p - 1]`.
    pub open spec fn renders(&self, markup: SelectMarkup) -> bool {
        &&& markup.disabled == self.disabled
        &&& markup.children@.len() == self.options@.len() + 1
        &&& markup.children@[0].is_placeholder(self.selected is None)
        &&& forall|p: int|
            1 <= p <= self.options@.len() ==> self.renders_option(
                p - 1,
                #[trigger] markup.children@[p],
            )
    }
}

impl<T> Select<T> {
    /// The configuration that the component currently holds.
    pub closed spec fn config(&self) -> Props<T> {
        self.props
    }

    /// The values that the component has handed to `onchange` since it
    /// was created, oldest first, whichever callback was current then.
    pub closed spec fn handed(&self) -> Seq<T> {
        self.handed@
    }

    /// Creates the component from its initial configuration. Nothing has
    /// been handed to `onchange` yet.
    pub fn create(props: Props<T>) -> (component: Self)
        ensures
            component.config() == props,
            component.handed() == Seq::<T>::empty(),
    {
        Select { props, handed: Ghost(Seq::empty()) }
    }

    /// Calls `yew::Callback::emit` on the current `onchange`, which runs the
    /// owner's function once on `value`. The call touches nothing of the
    /// component, and `value` is one more value handed over. Nothing is
    /// claimed about what the owner's function does.
    #[verifier::external_body]
    fn hand_over(&mut self, value: T)
        ensures
            final(self).config() == old(self).config(),
            final(self).handed() == old(self).handed().push(value),
    {
        self.props.onchange.emit(value)
    }

    /// The current configuration.
    pub fn props(&self) -> (props: &Props<T>)
        ensures
            *props == self.config(),
    {
        &self.props
    }

    /// Replaces the configuration wholesale and asks to be rendered again.
    /// No callback is invoked, neither the old one nor the new one.
    pub fn change(&mut self, props: Props<T>) -> (should_render: bool)
        ensures
            should_render,
            final(self).config() == props,
            final(self).handed() == old(self).handed(),
    {
        self.props = props;
        true
    }

    /// The option that `msg` picks, if it picks one.
    pub fn resolve(&self, msg: &Msg) -> (choice: Option<&T>)
        ensures
            match self.config().picked(*msg) {
                Some(i) => choice == Some(&self.config().options@[i]),
                None => choice is None,
            },
    {
        match msg {
            Msg::Selected(Some(position)) => {
                let position: usize = *position;
                if 1 <= position && position <= self.props.options.len() {
                    Some(&self.props.options[position - 1])
                } else {
                    None
                }
            },
            Msg::Selected(None) => None,
        }
    }
}

impl<T: Clone> Select<T> {
    /// Handles a message: hands a copy of the option that `msg` picks to
    /// `onchange`, exactly once, or hands over nothing where it picks none.
    /// The configuration is left as it was; the component always asks to be
    /// rendered again.
    pub fn update(&mut self, msg: Msg) -> (should_render: bool)
        ensures
            should_render,
            final(self).config() == old(self).config(),
            match old(self).config().picked(msg) {
                Some(i) => {
                    &&& final(self).handed().len() == old(self).handed().len() + 1
                    &&& final(self).handed().drop_last() == old(self).handed()
                    &&& cloned(old(self).config().options@[i], final(self).handed().last())
                },
                None => final(self).handed() == old(self).handed(),
            },
    {
        let copy = match self.resolve(&msg) {
            Some(value) => Some(value.clone()),
            None => None,
        };
        match copy {
            Some(value) => {
                self.hand_over(value);
                assert(self.handed().drop_last() =~= old(self).handed());
            },
            None => {},
        }
        true
    }
}

impl<T: PartialEq + Display> Select<T> {
    /// Renders the current configuration.
    pub fn view(&self) -> (markup: SelectMarkup)
        ensures
            self.config().renders(markup),
    {
        let mut children: Vec<OptionMarkup> = Vec::new();
        children.push(OptionMarkup::placeholder(self.props.selected.is_none()));
        let n: usize = self.props.options.len();
        let mut i: usize = 0;
        while i < n
            invariant
                n == self.props.options@.len(),
                i <= n,
                children@.len() == i + 1,
                children@[0].is_placeholder(self.props.selected is None),
                forall|p: int|
                    1 <= p <= i ==> self.props.renders_option(p - 1, #[trigger] children@[p]),
            decreases n - i,
        {
            let option = &self.props.options[i];
            let flag = match &self.props.selected {
                Some(v) => v.eq(option),
                None => false,
            };
            let text = option.to_string();
            children.push(OptionMarkup::choice(text, flag));
            i += 1;
        }
        SelectMarkup { disabled: self.props.disabled, children }
    }
}

} // verus!
