//! The tagged values that cross the boundary between host and script.

use vstd::prelude::*;

verus! {

/// One value as the script sees it: a small integer that stands for a
/// well-known string, or a string carried as it is.
#[derive(Debug, Clone, PartialEq, Eq)]
pub enum Value {
    SmallInteger(u32),
    Str(String),
}

/// The mathematical content of a [`Value`].
pub enum ValueView {
    SmallInteger(u32),
    Str(Seq<char>),
}

impl View for Value {
    type V = ValueView;

    open spec fn view(&self) -> ValueView {
        match *self {
            Value::SmallInteger(token) => ValueView::SmallInteger(token),
            Value::Str(text) => ValueView::Str(text@),
        }
    }
}

/// The views of a run of values, in order.
pub open spec fn views_of(values: Seq<Value>) -> Seq<ValueView> {
    values.map_values(|value: Value| value@)
}

} // verus!
