//! Amounts of money, held as the engine's own REAL values.

use rusqlite::types::Value;
use vstd::prelude::*;

verus! {

#[verifier::external_type_specification]
#[verifier::external_body]
pub struct ExValue(rusqlite::types::Value);

/// The IEEE-754 bit pattern of a dynamic SQL value that is a REAL, and `None`
/// for every other kind of value.
pub uninterp spec fn real_bits(v: Value) -> Option<u64>;

/// Bit pattern of negative zero.
pub const NEG_ZERO_BITS: u64 = 0x8000_0000_0000_0000;

/// Bit pattern of positive infinity; every finite non-negative double lies
/// strictly below it.
pub const INFINITY_BITS: u64 = 0x7FF0_0000_0000_0000;

/// A bit pattern that stands for a finite number that is not below zero.
/// Negative zero counts as zero.
pub open spec fn is_money(bits: u64) -> bool {
    bits < INFINITY_BITS || bits == NEG_ZERO_BITS
}

/// `Value::Real` told apart from the other variants of `rusqlite::types::Value`,
/// and `f64::to_bits` on what it holds: the result is the bit pattern of a
/// REAL and `None` for NULL, INTEGER, TEXT and BLOB.
#[verifier::external_body]
fn bits_of_value(v: &Value) -> (r: Option<u64>)
    ensures
        r == real_bits(*v),
{
    match v {
        Value::Real(x) => Some(x.to_bits()),
        _ => None,
    }
}

/// `Value::Real` around `f64::default`, the double zero, whose bit pattern
/// is 0.
#[verifier::external_body]
fn zero_value() -> (v: Value)
    ensures
        real_bits(v) == Some(0u64),
{
    Value::Real(Default::default())
}

/// A REAL of the store. The number itself stays inside the engine's value;
/// what the library reasons about is its bit pattern, the view.
#[derive(Debug)]
pub struct Amount {
    pub(crate) value: Value,
}

impl View for Amount {
    type V = u64;

    closed spec fn view(&self) -> u64 {
        real_bits(self.value).unwrap()
    }
}

impl Amount {
    #[verifier::type_invariant]
    pub closed spec fn is_real(self) -> bool {
        real_bits(self.value) is Some
    }

    /// Wraps a REAL; any other kind of value is turned away.
    pub fn new(value: Value) -> (r: Option<Amount>)
        ensures
            r is Some <==> real_bits(value) is Some,
            r matches Some(a) ==> Some(a@) == real_bits(value) && a.value() == value,
    {
        match bits_of_value(&value) {
            Some(_) => Some(Amount { value }),
            None => None,
        }
    }

    /// The amount zero.
    pub fn zero() -> (a: Amount)
        ensures
            a@ == 0,
    {
        Amount { value: zero_value() }
    }

    /// The engine's value that this amount carries.
    pub closed spec fn value(self) -> Value {
        self.value
    }

    /// Hands the engine's value back.
    pub fn into_value(self) -> (v: Value)
        ensures
            v == self.value(),
            real_bits(v) == Some(self@),
    {
        proof {
            use_type_invariant(&self);
        }
        self.value
    }

    /// The bit pattern of the number.
    pub fn bits(&self) -> (b: u64)
        ensures
            b == self@,
    {
        proof {
            use_type_invariant(self);
        }
        match bits_of_value(&self.value) {
            Some(b) => b,
            None => 0,
        }
    }

    /// Whether the amount is a finite number that is not below zero.
    pub fn is_money(&self) -> (b: bool)
        ensures
            b == is_money(self@),
    {
        let bits = self.bits();
        bits < INFINITY_BITS || bits == NEG_ZERO_BITS
    }
}

} // verus!
