use vstd::prelude::*;

verus! {

/// The abstract value that a stored or transmitted value stands for.
///
/// A floating-point value is carried as the decimal literal it was written
/// with; that literal is what denotes the 64-bit float.
pub enum ValueModel {
    Integer(i32),
    Float(Seq<char>),
    Str(Seq<char>),
}

/// The operations that the store understands.
#[derive(PartialEq, Eq, Structural, Clone, Copy, Debug)]
#[allow(non_camel_case_types, clippy::upper_case_acronyms)]
pub enum DatabaseCommand {
    SET,
    GET,
    UPDATE,
    DELETE,
}

/// A value as the store holds it.
#[derive(Debug)]
pub enum DatabaseValue {
    Integer(i32),
    /// A floating-point value, held as its decimal literal.
    Float(String),
    Str(String),
}

impl View for DatabaseValue {
    type V = ValueModel;

    open spec fn view(&self) -> ValueModel {
        match self {
            DatabaseValue::Integer(i) => ValueModel::Integer(*i),
            DatabaseValue::Float(f) => ValueModel::Float(f@),
            DatabaseValue::Str(s) => ValueModel::Str(s@),
        }
    }
}

impl Clone for DatabaseValue {
    fn clone(&self) -> (r: Self)
        ensures
            r@ == self@,
    {
        match self {
            DatabaseValue::Integer(i) => DatabaseValue::Integer(*i),
            DatabaseValue::Float(f) => DatabaseValue::Float(f.clone()),
            DatabaseValue::Str(s) => DatabaseValue::Str(s.clone()),
        }
    }
}

/// The view of an optional stored value.
pub open spec fn db_opt_view(v: Option<DatabaseValue>) -> Option<ValueModel> {
    match v {
        Some(x) => Some(x@),
        None => None,
    }
}

/// A key together with the value that a command carries, if any.
pub struct DataModel {
    key: String,
    value: Option<DatabaseValue>,
}

impl DataModel {
    pub closed spec fn key_view(&self) -> Seq<char> {
        self.key@
    }

    pub closed spec fn value_view(&self) -> Option<ValueModel> {
        db_opt_view(self.value)
    }

    pub fn new(key: String, value: Option<DatabaseValue>) -> (r: Self)
        ensures
            r.key_view() == key@,
            r.value_view() == db_opt_view(value),
    {
        DataModel { key, value }
    }

    pub fn get_key(&self) -> (r: String)
        ensures
            r@ == self.key_view(),
    {
        self.key.clone()
    }

    pub fn get_value(self) -> (r: Option<DatabaseValue>)
        ensures
            db_opt_view(r) == self.value_view(),
    {
        self.value
    }
}

/// What the store answers to one command: a value, an error text, or neither.
pub struct DatabaseResult {
    pub value: Option<DatabaseValue>,
    pub err: Option<String>,
}

} // verus!
