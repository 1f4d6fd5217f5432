//! The data that a write carries.

use vstd::prelude::*;

verus! {

/// The data of a write: one of the four kinds that the protocol stores.
#[derive(Debug, PartialEq, Eq)]
pub enum Value {
    /// An unsigned 64-bit integer.
    Unsigned(u64),
    /// A signed 64-bit integer.
    Signed(i64),
    /// A UTF-8 string.
    Text(String),
    /// A raw byte sequence.
    Bytes(Vec<u8>),
}

/// What a [`Value`] holds, as a mathematical value.
pub enum ValueView {
    Unsigned(u64),
    Signed(i64),
    Text(Seq<char>),
    Bytes(Seq<u8>),
}

impl View for Value {
    type V = ValueView;

    open spec fn view(&self) -> ValueView {
        match self {
            Value::Unsigned(number) => ValueView::Unsigned(*number),
            Value::Signed(number) => ValueView::Signed(*number),
            Value::Text(text) => ValueView::Text(text@),
            Value::Bytes(bytes) => ValueView::Bytes(bytes@),
        }
    }
}

impl Clone for Value {
    /// A second value that holds the same data.
    fn clone(&self) -> (copy: Value)
        ensures
            copy@ == self@,
    {
        match self {
            Value::Unsigned(number) => Value::Unsigned(*number),
            Value::Signed(number) => Value::Signed(*number),
            Value::Text(text) => Value::Text(text.clone()),
            Value::Bytes(bytes) => {
                let copy: Vec<u8> = bytes.clone();
                assert(copy@ =~= bytes@);
                Value::Bytes(copy)
            },
        }
    }
}

} // verus!
