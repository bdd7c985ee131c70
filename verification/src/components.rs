//! The components: a checkbox, a text input and the numeric inputs.

mod checkbox;
mod input;

pub mod num_input;

pub use checkbox::{
    checkbox_response_to, checkbox_spans, checkbox_value_after, Checkbox, CheckboxResponse,
    FALSE_CHAR, TRUE_CHAR,
};
pub use input::{input_response_to, Input, InputResponse, InputView};
