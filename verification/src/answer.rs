//! What a query answers: values, concepts, and rows that bind variables to
//! concepts. These hold as plain data what the server sent.

use crate::text::{signed_decimal, signed_decimal_of, str_equal};
use vstd::prelude::*;

verus! {

/// The value of an attribute, or a value computed by a query.
#[derive(Clone, Debug, PartialEq, Eq)]
pub enum Value {
    Boolean(bool),
    Long(i64),
    /// A double, kept as the 64 bits of its IEEE 754 form.
    Double(u64),
    String(String),
    /// A point in time, in milliseconds since 1970-01-01T00:00:00.
    DateTime(i64),
}

/// The types a value can have.
#[derive(Clone, Copy, Debug, PartialEq, Eq, Structural)]
pub enum ValueType {
    Boolean,
    Long,
    Double,
    String,
    DateTime,
}

impl Value {
    pub open spec fn type_of(self) -> ValueType {
        match self {
            Value::Boolean(_) => ValueType::Boolean,
            Value::Long(_) => ValueType::Long,
            Value::Double(_) => ValueType::Double,
            Value::String(_) => ValueType::String,
            Value::DateTime(_) => ValueType::DateTime,
        }
    }

    /// The value as text, where it is a string, an integer or a boolean.
    pub open spec fn rendering(self) -> Option<Seq<char>> {
        match self {
            Value::String(s) => Some(s@),
            Value::Long(n) => Some(signed_decimal_of(n as int)),
            Value::Boolean(b) => Some(
                if b {
                    "true"@
                } else {
                    "false"@
                },
            ),
            _ => None,
        }
    }

    /// Writes the value as text: a string as it is, an integer in
    /// decimal, a boolean as `true` or `false`. A double or a point in
    /// time has no text here: how to write those is the caller's choice.
    pub fn render(&self) -> (r: Option<String>)
        ensures
            r is Some <==> self.rendering() is Some,
            r matches Some(text) ==> self.rendering() == Some(text@),
    {
        match self {
            Value::String(s) => Some(s.clone()),
            Value::Long(n) => Some(signed_decimal(*n)),
            Value::Boolean(b) => Some(
                if *b {
                    "true".to_owned()
                } else {
                    "false".to_owned()
                },
            ),
            _ => None,
        }
    }

    pub fn get_type(&self) -> (r: ValueType)
        ensures
            r == self.type_of(),
    {
        match self {
            Value::Boolean(_) => ValueType::Boolean,
            Value::Long(_) => ValueType::Long,
            Value::Double(_) => ValueType::Double,
            Value::String(_) => ValueType::String,
            Value::DateTime(_) => ValueType::DateTime,
        }
    }

    /// The string, if the value is one.
    pub fn try_get_string(&self) -> (r: Option<&String>)
        ensures
            r is Some <==> self is String,
            r matches Some(s) ==> *s == self->String_0,
    {
        match self {
            Value::String(s) => Some(s),
            _ => None,
        }
    }

    /// The integer, if the value is one.
    pub fn try_get_integer(&self) -> (r: Option<i64>)
        ensures
            r == (if self is Long { Some(self->Long_0) } else { None }),
    {
        match self {
            Value::Long(n) => Some(*n),
            _ => None,
        }
    }

    /// The boolean, if the value is one.
    pub fn try_get_boolean(&self) -> (r: Option<bool>)
        ensures
            r == (if self is Boolean { Some(self->Boolean_0) } else { None }),
    {
        match self {
            Value::Boolean(b) => Some(*b),
            _ => None,
        }
    }

    /// The bits of the double, if the value is one.
    pub fn try_get_double_bits(&self) -> (r: Option<u64>)
        ensures
            r == (if self is Double { Some(self->Double_0) } else { None }),
    {
        match self {
            Value::Double(bits) => Some(*bits),
            _ => None,
        }
    }

    /// The milliseconds of the point in time, if the value is one.
    pub fn try_get_datetime_millis(&self) -> (r: Option<i64>)
        ensures
            r == (if self is DateTime { Some(self->DateTime_0) } else { None }),
    {
        match self {
            Value::DateTime(millis) => Some(*millis),
            _ => None,
        }
    }
}

/// One thing a variable can be bound to.
#[derive(Clone, Debug, PartialEq, Eq)]
pub enum Concept {
    /// A type of the schema, by its label.
    Type { label: String },
    /// An entity, by the label of its type.
    Entity { type_label: String },
    /// A relation, by the label of its type.
    Relation { type_label: String },
    /// An attribute, by the label of its type, with its value.
    Attribute { type_label: String, value: Value },
    /// A value that belongs to no attribute.
    Value(Value),
}

impl Concept {
    /// The value that a concept carries: an attribute's, or the concept
    /// itself where it is a value.
    pub open spec fn value_of(self) -> Option<Value> {
        match self {
            Concept::Attribute { type_label, value } => Some(value),
            Concept::Value(value) => Some(value),
            _ => None,
        }
    }

    /// The string that a concept carries, if it carries one.
    pub open spec fn string_of(self) -> Option<String> {
        match self.value_of() {
            Some(Value::String(s)) => Some(s),
            _ => None,
        }
    }

    /// The integer that a concept carries, if it carries one.
    pub open spec fn integer_of(self) -> Option<i64> {
        match self.value_of() {
            Some(Value::Long(n)) => Some(n),
            _ => None,
        }
    }

    pub fn try_get_value(&self) -> (r: Option<&Value>)
        ensures
            r is Some <==> self.value_of() is Some,
            r matches Some(v) ==> self.value_of() == Some(*v),
    {
        match self {
            Concept::Attribute { type_label: _, value } => Some(value),
            Concept::Value(value) => Some(value),
            _ => None,
        }
    }

    pub fn try_get_string(&self) -> (r: Option<&String>)
        ensures
            r is Some <==> self.string_of() is Some,
            r matches Some(s) ==> self.string_of() == Some(*s),
    {
        match self.try_get_value() {
            Some(value) => value.try_get_string(),
            None => None,
        }
    }

    pub fn try_get_integer(&self) -> (r: Option<i64>)
        ensures
            r == self.integer_of(),
    {
        match self.try_get_value() {
            Some(value) => value.try_get_integer(),
            None => None,
        }
    }

    /// The string of a concept that is known to carry one.
    pub fn unwrap_string(self) -> (r: String)
        requires
            self.string_of() is Some,
        ensures
            Some(r) == self.string_of(),
    {
        match self {
            Concept::Attribute { type_label: _, value: Value::String(s) } => s,
            Concept::Value(Value::String(s)) => s,
            _ => vstd::pervasive::unreached(),
        }
    }
}

/// One variable of a row with the concept it is bound to.
#[derive(Clone, Debug, PartialEq, Eq)]
pub struct Binding {
    pub variable: String,
    pub concept: Concept,
}

/// One row of an answer. Where a variable occurs more than once, the
/// first binding counts.
#[derive(Clone, Debug, PartialEq, Eq)]
pub struct Row {
    pub bindings: Vec<Binding>,
}

impl Row {
    /// The position of the binding that `get` finds for a variable.
    pub open spec fn position_of(self, variable: Seq<char>) -> Option<int> {
        if exists|i: int| self.binds_at(variable, i) {
            Some(choose|i: int| self.binds_at(variable, i))
        } else {
            None
        }
    }

    /// The binding at `i` is the first for this variable.
    pub open spec fn binds_at(self, variable: Seq<char>, i: int) -> bool {
        &&& 0 <= i < self.bindings.len()
        &&& self.bindings[i].variable@ == variable
        &&& forall|j: int| 0 <= j < i ==> self.bindings[j].variable@ != variable
    }

    pub fn new() -> (r: Row)
        ensures
            r.bindings@ == Seq::<Binding>::empty(),
    {
        Row { bindings: Vec::new() }
    }

    /// Adds a binding behind those the row has.
    pub fn bind(&mut self, variable: String, concept: Concept)
        ensures
            final(self).bindings@ == old(self).bindings@.push(Binding { variable, concept }),
    {
        self.bindings.push(Binding { variable, concept });
    }

    /// The concept that a variable is bound to, or `None` where the row does
    /// not bind it.
    pub fn get(&self, variable: &str) -> (r: Option<&Concept>)
        ensures
            r is Some <==> self.position_of(variable@) is Some,
            r matches Some(c) ==> *c == self.bindings[self.position_of(variable@)->0].concept,
    {
        let mut i: usize = 0;
        while i < self.bindings.len()
            invariant
                i <= self.bindings.len(),
                forall|j: int| 0 <= j < i ==> self.bindings[j].variable@ != variable@,
            decreases self.bindings.len() - i,
        {
            if str_equal(self.bindings[i].variable.as_str(), variable) {
                proof {
                    assert(self.binds_at(variable@, i as int));
                    let p = choose|p: int| self.binds_at(variable@, p);
                    assert(p == i) by {
                        if p < i {
                            assert(self.bindings[p].variable@ != variable@);
                        } else if p > i {
                            assert(self.bindings[i as int].variable@ != variable@);
                        }
                    }
                }
                return Some(&self.bindings[i].concept);
            }
            i += 1;
        }
        proof {
            assert forall|p: int| !self.binds_at(variable@, p) by {}
        }
        None
    }
}

} // verus!
