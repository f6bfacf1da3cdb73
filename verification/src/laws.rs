//! What holds of every configuration, rendering and change event.

use core::fmt::Display;
use vstd::prelude::*;
use vstd::std_specs::cmp::PartialEqSpec;
use vstd::string::to_string_from_display_ensures;

use crate::markup::SelectMarkup;
use crate::message::{ChangeEvent, Msg};
use crate::select::Props;

verus! {

/// Whether the display string of a `T` is a function of the value: any two
/// strings that displaying one value can give hold the same text.
pub open spec fn displays_consistently<T: Display>() -> bool {
    forall|t: &T, a: String, b: String|
        #![trigger to_string_from_display_ensures::<T>(t, a), to_string_from_display_ensures::<T>(t, b)]
        to_string_from_display_ensures::<T>(t, a) && to_string_from_display_ensures::<T>(t, b)
            ==> a@ == b@
}

/// With nothing selected, every rendering marks the placeholder as chosen
/// and none of the options.
pub proof fn no_selection_marks_only_placeholder<T: PartialEq + Display>(
    props: Props<T>,
    markup: SelectMarkup,
)
    requires
        props.selected is None,
        props.renders(markup),
    ensures
        markup.children@[0].selected,
        forall|p: int|
            1 <= p <= props.options@.len() ==> !(#[trigger] markup.children@[p]).selected,
{
    assert forall|p: int| 1 <= p <= props.options@.len() implies !(
    #[trigger] markup.children@[p]).selected by {
        assert(props.renders_option(p - 1, markup.children@[p]));
    }
}

/// With a selection that equals exactly one option, `options[k]`, every
/// rendering marks the entry of that option, at position `k + 1`, and
/// neither the placeholder nor any other entry.
pub proof fn single_match_marks_that_option<T: PartialEq + Display>(
    props: Props<T>,
    markup: SelectMarkup,
    k: int,
)
    requires
        T::obeys_eq_spec(),
        props.renders(markup),
        0 <= k < props.options@.len(),
        props.selected matches Some(v) && (forall|i: int|
            0 <= i < props.options@.len() ==> (v.eq_spec(&#[trigger] props.options@[i]) <==> i
                == k)),
    ensures
        !markup.children@[0].selected,
        markup.children@[k + 1].selected,
        forall|p: int|
            1 <= p <= props.options@.len() && p != k + 1 ==> !(
            #[trigger] markup.children@[p]).selected,
{
    let v = props.selected->Some_0;
    assert(props.renders_option(k, markup.children@[k + 1]));
    assert(v.eq_spec(&props.options@[k]));
    assert forall|p: int| 1 <= p <= props.options@.len() && p != k + 1 implies !(
    #[trigger] markup.children@[p]).selected by {
        assert(props.renders_option(p - 1, markup.children@[p]));
        assert(!v.eq_spec(&props.options@[p - 1]));
    }
}

/// A change event that reports the placeholder's position, or no position,
/// or that comes from another element, picks nothing.
pub proof fn placeholder_picks_nothing<T>(props: Props<T>)
    ensures
        props.picked(Msg::Selected(Some(0))) is None,
        props.picked(Msg::Selected(None)) is None,
        props.picked(Msg::of_event(ChangeEvent::Select(Some(0)))) is None,
        props.picked(Msg::of_event(ChangeEvent::Select(None))) is None,
        props.picked(Msg::of_event(ChangeEvent::Other)) is None,
{
}

/// A change event that reports position `p` with `1 <= p <= options.len()`
/// picks `options[p - 1]`, the option that a rendering shows at `p`.
pub proof fn position_picks_its_option<T: PartialEq + Display>(
    props: Props<T>,
    markup: SelectMarkup,
    p: usize,
)
    requires
        props.renders(markup),
        1 <= p <= props.options@.len(),
    ensures
        props.picked(Msg::Selected(Some(p))) == Some(p - 1),
        props.renders_option(p - 1, markup.children@[p as int]),
{
    assert(props.renders_option(p - 1, markup.children@[p as int]));
}

/// The position that a rendering marks as chosen leads back to the
/// selection: a change event that reports it picks an option equal to the
/// selected value.
pub proof fn marked_position_picks_the_selection<T: PartialEq + Display>(
    props: Props<T>,
    markup: SelectMarkup,
    p: usize,
)
    requires
        T::obeys_eq_spec(),
        props.renders(markup),
        1 <= p <= props.options@.len(),
        markup.children@[p as int].selected,
    ensures
        props.picked(Msg::Selected(Some(p))) == Some(p - 1),
        props.selected matches Some(v) && v.eq_spec(&props.options@[p - 1]),
{
    assert(props.renders_option(p - 1, markup.children@[p as int]));
}

/// A change event that reports a position past the last option picks
/// nothing.
pub proof fn position_past_end_picks_nothing<T>(props: Props<T>, p: usize)
    requires
        p > props.options@.len(),
    ensures
        props.picked(Msg::Selected(Some(p))) is None,
{
}

/// Rendering has no hidden state: two renderings of one configuration have
/// the same content, entry by entry.
pub proof fn rendering_is_repeatable<T: PartialEq + Display>(
    props: Props<T>,
    first: SelectMarkup,
    second: SelectMarkup,
)
    requires
        props.selected is Some ==> T::obeys_eq_spec(),
        displays_consistently::<T>(),
        props.renders(first),
        props.renders(second),
    ensures
        first@ == second@,
{
    assert forall|p: int| 0 <= p < first.children@.len() implies first.children@[p]@
        == second.children@[p]@ by {
        if p >= 1 {
            let a = first.children@[p];
            let b = second.children@[p];
            assert(props.renders_option(p - 1, a));
            assert(props.renders_option(p - 1, b));
            assert(to_string_from_display_ensures::<T>(&props.options@[p - 1], a.label));
            assert(to_string_from_display_ensures::<T>(&props.options@[p - 1], b.label));
            assert(a.label@ == b.label@);
        }
    }
    assert(first@.children =~= second@.children);
}

} // verus!
