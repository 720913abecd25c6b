use vstd::prelude::*;

verus! {

/// A JSON number as the wire holds it.
#[derive(Debug, Clone, Copy, PartialEq, Eq, Structural)]
pub enum Number {
    /// A non-negative integer.
    PosInt(u64),
    /// A negative integer.
    NegInt(i64),
    /// A number with a fraction or an exponent, kept as the bit pattern of its
    /// IEEE-754 double.
    Float(u64),
}

/// A JSON value tree: what a message is encoded to and decoded from.
///
/// An object keeps its members in the order in which they were written.
#[derive(Debug, PartialEq, Eq)]
pub enum Json {
    Null,
    Bool(bool),
    Number(Number),
    Str(String),
    Array(Vec<Json>),
    Object(Vec<(String, Json)>),
}

} // verus!
