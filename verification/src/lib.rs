//! A typed, fully controlled dropdown selector.
//!
//! The component keeps a typed selection in step with the numeric index that a
//! select element reports: entry 0 of the rendered control is a placeholder
//! that stands for "nothing chosen", and entry `i + 1` is `options[i]`.
//! Rendering is described by a plain markup value, and change events are
//! resolved back to the option they stand for.

pub mod callback;
pub mod markup;
pub mod message;
pub mod select;
pub mod laws;

pub use crate::markup::{OptionMarkup, SelectMarkup};
pub use crate::message::{ChangeEvent, Msg};
pub use crate::select::{Props, Select};
