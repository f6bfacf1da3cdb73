//! The channel from the component up to its owner.

use vstd::prelude::*;

verus! {

/// `yew::Callback`: a shared handle to a function of the owner. Nothing of
/// its contents is visible to the verifier; the component calls it through
/// `Select::update` alone.
#[verifier::external_type_specification]
#[verifier::external_body]
#[verifier::reject_recursive_types(IN)]
#[verifier::reject_recursive_types(OUT)]
pub struct ExCallback<IN, OUT>(yew::Callback<IN, OUT>);

} // verus!
