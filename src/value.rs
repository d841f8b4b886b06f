//! Scalar field values and their wire tokens.
use vstd::prelude::*;
use crate::decimal::{dec_int, dec_nat, i64_text, u64_text};

verus! {

/// The value of one field of a point.
///
/// A float is carried as its canonical decimal text (the shortest text that
/// reads back as the same number, as Rust's `Display` for `f64` writes it),
/// which is what the wire format needs of it.
#[derive(Clone, Debug, PartialEq)]
pub enum Value {
    Float(String),
    Integer(i64),
    UInteger(u64),
    String(String),
    Boolean(bool),
}

/// The wire token of a value: floats as their decimal text, integers with an
/// `i` suffix, unsigned integers with a `u` suffix, strings between double
/// quotes (nothing inside is escaped), booleans as `true` or `false`.
pub open spec fn value_text(v: Value) -> Seq<char> {
    match v {
        Value::Float(t) => t@,
        Value::Integer(i) => dec_int(i as int).push('i'),
        Value::UInteger(u) => dec_nat(u as nat).push('u'),
        Value::String(s) => seq!['"'] + s@ + seq!['"'],
        Value::Boolean(b) => if b {
            seq!['t', 'r', 'u', 'e']
        } else {
            seq!['f', 'a', 'l', 's', 'e']
        },
    }
}

impl Value {
    /// The value's wire token.
    pub fn to_line_protocol(&self) -> (r: String)
        ensures
            r@ == value_text(*self),
    {
        match self {
            Value::Float(t) => t.clone(),
            Value::Integer(i) => {
                let mut s = i64_text(*i);
                proof {
                    reveal_strlit("i");
                }
                s.append("i");
                s
            },
            Value::UInteger(u) => {
                let mut s = u64_text(*u);
                proof {
                    reveal_strlit("u");
                }
                s.append("u");
                s
            },
            Value::String(t) => {
                proof {
                    reveal_strlit("\"");
                }
                let mut s = String::from_str("\"");
                s.append(t.as_str());
                s.append("\"");
                s
            },
            Value::Boolean(b) => {
                proof {
                    reveal_strlit("true");
                    reveal_strlit("false");
                }
                if *b {
                    String::from_str("true")
                } else {
                    String::from_str("false")
                }
            },
        }
    }
}

impl From<i64> for Value {
    fn from(value: i64) -> Value {
        Value::Integer(value)
    }
}

impl vstd::std_specs::convert::FromSpecImpl<i64> for Value {
    open spec fn obeys_from_spec() -> bool {
        true
    }

    open spec fn from_spec(v: i64) -> Value {
        Value::Integer(v)
    }
}

impl From<u64> for Value {
    fn from(value: u64) -> Value {
        Value::UInteger(value)
    }
}

impl vstd::std_specs::convert::FromSpecImpl<u64> for Value {
    open spec fn obeys_from_spec() -> bool {
        true
    }

    open spec fn from_spec(v: u64) -> Value {
        Value::UInteger(v)
    }
}

impl From<String> for Value {
    fn from(value: String) -> Value {
        Value::String(value)
    }
}

impl vstd::std_specs::convert::FromSpecImpl<String> for Value {
    open spec fn obeys_from_spec() -> bool {
        true
    }

    open spec fn from_spec(v: String) -> Value {
        Value::String(v)
    }
}

impl From<&str> for Value {
    /// A string value holding a copy of the text.
    fn from(value: &str) -> Value {
        Value::String(value.to_string())
    }
}

impl vstd::std_specs::convert::FromSpecImpl<&str> for Value {
    /// No spec-level copy of a `&str` into a `String` exists, so the
    /// conversion is described by its body alone.
    open spec fn obeys_from_spec() -> bool {
        false
    }

    open spec fn from_spec(v: &str) -> Value {
        vstd::pervasive::arbitrary()
    }
}

impl From<bool> for Value {
    fn from(value: bool) -> Value {
        Value::Boolean(value)
    }
}

impl vstd::std_specs::convert::FromSpecImpl<bool> for Value {
    open spec fn obeys_from_spec() -> bool {
        true
    }

    open spec fn from_spec(v: bool) -> Value {
        Value::Boolean(v)
    }
}

} // verus!
