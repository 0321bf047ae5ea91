use vstd::prelude::*;

verus! {

/// The declared type of a dialogue-visible value: exactly the three
/// primitive kinds the instruction set knows about.
#[derive(Debug, Clone, Copy, PartialEq, Eq, Structural)]
pub enum Type {
    /// A truth value.
    Boolean,
    /// A numeric value, carried as a 64-bit integer.
    Number,
    /// A text value.
    String,
}

/// An untyped dialogue-visible value.
#[derive(Debug, Clone, PartialEq)]
pub enum YarnValue {
    /// A truth value.
    Boolean(bool),
    /// A numeric value, carried as a 64-bit integer.
    Number(i64),
    /// A text value.
    String(String),
}

impl YarnValue {
    /// The type tag that agrees with this value's variant.
    pub open spec fn spec_type_of(&self) -> Type {
        match self {
            YarnValue::Boolean(_) => Type::Boolean,
            YarnValue::Number(_) => Type::Number,
            YarnValue::String(_) => Type::String,
        }
    }

    /// Reports which of the three kinds this value is.
    pub fn type_of(&self) -> (t: Type)
        ensures
            t == self.spec_type_of(),
    {
        match self {
            YarnValue::Boolean(_) => Type::Boolean,
            YarnValue::Number(_) => Type::Number,
            YarnValue::String(_) => Type::String,
        }
    }

    /// An exact copy of this value.
    pub fn duplicate(&self) -> (r: Self)
        ensures
            r == *self,
    {
        match self {
            YarnValue::Boolean(b) => YarnValue::Boolean(*b),
            YarnValue::Number(n) => YarnValue::Number(*n),
            YarnValue::String(s) => YarnValue::String(s.clone()),
        }
    }
}

/// A value on the operand stack: the raw value paired with the type it was
/// declared with.
#[derive(Debug, Clone, PartialEq)]
pub struct InternalValue {
    /// The value itself.
    pub raw_value: YarnValue,
    /// The declared type of the value.
    pub value_type: Type,
}

impl InternalValue {
    /// The declared type and the value's variant must agree.
    pub open spec fn wf(&self) -> bool {
        self.value_type == self.raw_value.spec_type_of()
    }

    /// Wraps a raw value together with its own type tag.
    pub fn of(raw: YarnValue) -> (r: Self)
        ensures
            r.raw_value == raw,
            r.wf(),
    {
        let t = raw.type_of();
        InternalValue { raw_value: raw, value_type: t }
    }

    /// An exact copy of this value.
    pub fn duplicate(&self) -> (r: Self)
        ensures
            r == *self,
    {
        InternalValue { raw_value: self.raw_value.duplicate(), value_type: self.value_type }
    }

    /// The boolean carried by this value, if it is one.
    pub fn as_bool(&self) -> (r: Option<bool>)
        ensures
            r == (match self.raw_value {
                YarnValue::Boolean(b) => Some(b),
                _ => None::<bool>,
            }),
    {
        match &self.raw_value {
            YarnValue::Boolean(b) => Some(*b),
            _ => None,
        }
    }

    /// The number carried by this value, if it is one.
    pub fn as_number(&self) -> (r: Option<i64>)
        ensures
            r == (match self.raw_value {
                YarnValue::Number(n) => Some(n),
                _ => None::<i64>,
            }),
    {
        match &self.raw_value {
            YarnValue::Number(n) => Some(*n),
            _ => None,
        }
    }

    /// The string carried by this value, if it is one; consumes the value.
    pub fn into_string(self) -> (r: Option<String>)
        ensures
            r is Some <==> self.raw_value is String,
            r matches Some(s) ==> self.raw_value == YarnValue::String(s),
    {
        match self.raw_value {
            YarnValue::String(s) => Some(s),
            _ => None,
        }
    }
}

/// The numeric value read as a stack index or argument count, when it is
/// one: a number that is negative or too large for the machine is refused.
pub fn number_as_index(n: i64) -> (r: Option<usize>)
    ensures
        r matches Some(u) ==> u == n,
        r is None <==> !(0 <= n <= usize::MAX),
{
    if n < 0 {
        None
    } else {
        let u = n as u64;
        if u <= usize::MAX as u64 {
            Some(u as usize)
        } else {
            None
        }
    }
}

} // verus!
